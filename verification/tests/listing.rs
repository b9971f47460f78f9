use freelist::{Listing, Task, TaskList};

#[test]
fn the_words_that_name_a_listing() {
    assert_eq!(Listing::parse("all"), Some(Listing::All));
    assert_eq!(Listing::parse("todo"), Some(Listing::Todo));
    assert_eq!(Listing::parse("done"), Some(Listing::Done));
    assert_eq!(Listing::parse("#work"), Some(Listing::Tagged("work".to_string())));
    assert_eq!(Listing::parse("#"), Some(Listing::Tagged("".to_string())));
    assert_eq!(Listing::parse("##"), Some(Listing::Tagged("#".to_string())));
    assert_eq!(Listing::parse("#żółw 🐢"), Some(Listing::Tagged("żółw 🐢".to_string())));
    assert_eq!(Listing::parse("#todo"), Some(Listing::Tagged("todo".to_string())));
}

#[test]
fn other_words_name_no_listing() {
    assert_eq!(Listing::parse(""), None);
    assert_eq!(Listing::parse("TODO"), None);
    assert_eq!(Listing::parse("todo "), None);
    assert_eq!(Listing::parse("work"), None);
    assert_eq!(Listing::parse(" #work"), None);
    assert_eq!(Listing::parse("żółw"), None);
}

#[test]
fn where_only_two_words_are_told_apart_every_other_names_all() {
    assert_eq!(Listing::parse_or_all("todo"), Listing::Todo);
    assert_eq!(Listing::parse_or_all("done"), Listing::Done);
    assert_eq!(Listing::parse_or_all("all"), Listing::All);
    assert_eq!(Listing::parse_or_all(""), Listing::All);
    assert_eq!(Listing::parse_or_all("#work"), Listing::All);
    assert_eq!(Listing::parse_or_all("Done"), Listing::All);
}

#[test]
fn a_listing_shows_the_tasks_it_names() {
    let mut list = TaskList::new_in_memory().unwrap();
    let a = list.add(Task::new("a").with_tag("work")).unwrap();
    let b = list.add(Task::new("b")).unwrap();
    list.mark_done(b).unwrap();

    let ids = |tasks: Vec<Task>| {
        let mut ids: Vec<i64> = tasks.iter().map(|task| task.id.unwrap()).collect();
        ids.sort();
        ids
    };
    assert_eq!(ids(list.list(&Listing::All).unwrap()), vec![a, b]);
    assert_eq!(ids(list.list(&Listing::Todo).unwrap()), vec![a]);
    assert_eq!(ids(list.list(&Listing::Done).unwrap()), vec![b]);
    assert_eq!(ids(list.list(&Listing::Tagged("work".to_string())).unwrap()), vec![a]);
    assert!(list.list(&Listing::Tagged("".to_string())).unwrap().is_empty());
}
