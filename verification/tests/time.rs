use freelist::time::{MAX_SECONDS, MIN_SECONDS, NANOS_PER_SECOND};
use freelist::Timestamp;

fn at(secs: i64, nanos: u32) -> Timestamp {
    Timestamp::new(secs, nanos).unwrap()
}

#[test]
fn a_timestamp_holds_the_parts_it_was_made_of() {
    let t = at(1_431_648_000, 123_456_789);
    assert_eq!(t.secs(), 1_431_648_000);
    assert_eq!(t.nanos(), 123_456_789);
}

#[test]
fn the_range_of_timestamps_is_that_of_chrono() {
    assert_eq!(chrono::DateTime::<chrono::Utc>::MIN_UTC.timestamp(), MIN_SECONDS);
    assert_eq!(chrono::DateTime::<chrono::Utc>::MAX_UTC.timestamp(), MAX_SECONDS);
    assert!(chrono::DateTime::from_timestamp(MIN_SECONDS, 0).is_some());
    assert!(chrono::DateTime::from_timestamp(MAX_SECONDS, 999_999_999).is_some());
    assert!(chrono::DateTime::from_timestamp(MIN_SECONDS - 1, 0).is_none());
    assert!(chrono::DateTime::from_timestamp(MAX_SECONDS + 1, 0).is_none());
    assert_eq!(NANOS_PER_SECOND, 1_000_000_000);
}

#[test]
fn seconds_out_of_range_make_no_timestamp() {
    assert!(Timestamp::new(MIN_SECONDS, 0).is_some());
    assert!(Timestamp::new(MAX_SECONDS, 999_999_999).is_some());
    assert!(Timestamp::new(MIN_SECONDS - 1, 0).is_none());
    assert!(Timestamp::new(MAX_SECONDS + 1, 0).is_none());
    assert!(Timestamp::new(i64::MIN, 0).is_none());
    assert!(Timestamp::new(i64::MAX, 0).is_none());
}

#[test]
fn nanoseconds_pass_one_second_only_in_the_last_second_of_a_minute() {
    assert!(Timestamp::new(59, 1_000_000_000).is_some());
    assert!(Timestamp::new(59, 1_999_999_999).is_some());
    assert!(Timestamp::new(59, 2_000_000_000).is_none());
    assert!(Timestamp::new(60, 1_000_000_000).is_none());
    assert!(Timestamp::new(0, 1_000_000_000).is_none());
    assert!(Timestamp::new(-1, 1_000_000_000).is_some());
    assert!(Timestamp::new(-60, 1_000_000_000).is_none());
    assert!(Timestamp::new(0, u32::MAX).is_none());
    assert!(Timestamp::new(0, 999_999_999).is_some());
}

#[test]
fn whatever_timestamp_can_be_made_chrono_can_hold() {
    for (secs, nanos) in [
        (MIN_SECONDS, 0),
        (MAX_SECONDS, 1_999_999_999),
        (-1, 1_500_000_000),
        (0, 0),
        (1_483_228_799, 1_000_000_000),
    ] {
        let t = at(secs, nanos);
        let held = chrono::DateTime::from_timestamp(t.secs(), t.nanos()).unwrap();
        assert_eq!(held.timestamp(), secs);
        assert_eq!(held.timestamp_subsec_nanos(), nanos);
    }
}

#[test]
fn timestamps_are_ordered_by_seconds_then_nanoseconds() {
    let early = at(100, 999_999_999);
    let late = at(101, 0);
    let later = at(101, 1);
    assert!(early.is_before(&late));
    assert!(late.is_before(&later));
    assert!(early.is_before(&later));
    assert!(!late.is_before(&early));
    assert!(!late.is_before(&late));
    assert!(at(-5, 0).is_before(&at(-4, 0)));
}

#[test]
fn the_later_of_two_timestamps() {
    let early = at(100, 5);
    let late = at(100, 6);
    assert_eq!(early.later_of(late), late);
    assert_eq!(late.later_of(early), late);
    assert_eq!(late.later_of(late), late);
}

#[test]
fn the_clock_reads_a_time_of_this_century() {
    let now = Timestamp::now();
    assert!(at(1_700_000_000, 0).is_before(&now));
    assert!(now.is_before(&at(4_102_444_800, 0)));
    assert!(now.nanos() < NANOS_PER_SECOND);
}

#[test]
fn the_clock_does_not_stand_still() {
    let start = Timestamp::now();
    let mut later = Timestamp::now();
    while later == start {
        later = Timestamp::now();
    }
    assert!(start.is_before(&later));
}

#[test]
fn whole_seconds_are_written_without_a_fraction() {
    assert_eq!(at(1_431_648_000, 0).to_rfc3339(), "2015-05-15T00:00:00+00:00");
    assert_eq!(at(0, 0).to_rfc3339(), "1970-01-01T00:00:00+00:00");
    assert_eq!(at(-1, 0).to_rfc3339(), "1969-12-31T23:59:59+00:00");
}

#[test]
fn fractions_are_written_in_three_six_or_nine_digits() {
    assert_eq!(at(1_431_648_000, 500_000_000).to_rfc3339(), "2015-05-15T00:00:00.500+00:00");
    assert_eq!(at(1_431_648_000, 123_456_000).to_rfc3339(), "2015-05-15T00:00:00.123456+00:00");
    assert_eq!(at(1_431_648_000, 1).to_rfc3339(), "2015-05-15T00:00:00.000000001+00:00");
}

#[test]
fn a_leap_second_is_written_as_second_sixty() {
    assert_eq!(
        at(1_483_228_799, 1_250_000_000).to_rfc3339(),
        "2016-12-31T23:59:60.250+00:00"
    );
}

#[test]
fn the_ends_of_the_range_can_be_written() {
    assert_eq!(at(MIN_SECONDS, 0).to_rfc3339(), "-262143-01-01T00:00:00+00:00");
    assert_eq!(
        at(MAX_SECONDS, 999_999_999).to_rfc3339(),
        "+262142-12-31T23:59:59.999999999+00:00"
    );
}

#[test]
fn text_with_an_offset_is_read_as_its_instant_in_utc() {
    assert_eq!(
        Timestamp::parse_rfc3339("1996-12-19T16:39:57-08:00"),
        Some(at(851_042_397, 0))
    );
    assert_eq!(Timestamp::parse_rfc3339("2015-05-15T00:00:00Z"), Some(at(1_431_648_000, 0)));
    assert_eq!(
        Timestamp::parse_rfc3339("2015-05-15T00:00:00.25+00:00"),
        Some(at(1_431_648_000, 250_000_000))
    );
    assert_eq!(
        Timestamp::parse_rfc3339("2016-12-31T23:59:60Z"),
        Some(at(1_483_228_799, 1_000_000_000))
    );
}

#[test]
fn text_that_is_not_rfc_3339_is_refused() {
    assert_eq!(Timestamp::parse_rfc3339(""), None);
    assert_eq!(Timestamp::parse_rfc3339("yesterday"), None);
    assert_eq!(Timestamp::parse_rfc3339("2015-05-15"), None);
    assert_eq!(Timestamp::parse_rfc3339("2015-05-15T00:00:00"), None);
    assert_eq!(Timestamp::parse_rfc3339("2015-13-15T00:00:00Z"), None);
}

#[test]
fn what_is_written_reads_back_as_the_same_instant() {
    for t in [
        at(0, 0),
        at(1_431_648_000, 123_456_789),
        at(1_483_228_799, 1_000_000_000),
        at(-62_135_596_800, 0),
        at(253_402_300_799, 999_999_999),
        Timestamp::now(),
    ] {
        assert_eq!(Timestamp::parse_rfc3339(&t.to_rfc3339()), Some(t));
    }
}

#[test]
fn a_timestamp_can_be_made_exactly_where_chrono_can_make_one() {
    let seconds = [
        i64::MIN,
        MIN_SECONDS - 1,
        MIN_SECONDS,
        MIN_SECONDS + 59,
        -86_400,
        -61,
        -60,
        -2,
        -1,
        0,
        1,
        58,
        59,
        60,
        119,
        86_399,
        86_400,
        1_483_228_799,
        1_483_228_800,
        MAX_SECONDS - 1,
        MAX_SECONDS,
        MAX_SECONDS + 1,
        i64::MAX,
    ];
    let nanoseconds = [
        0,
        1,
        999_999_999,
        1_000_000_000,
        1_000_000_001,
        1_999_999_999,
        2_000_000_000,
        u32::MAX,
    ];
    for secs in seconds {
        for nanos in nanoseconds {
            assert_eq!(
                Timestamp::new(secs, nanos).is_some(),
                chrono::DateTime::from_timestamp(secs, nanos).is_some(),
                "for {} s and {} ns",
                secs,
                nanos
            );
        }
    }

    let mut state: u64 = 0x2545_F491_4F6C_DD1D;
    for _ in 0..20_000 {
        state ^= state << 13;
        state ^= state >> 7;
        state ^= state << 17;
        let secs = (state % 17_000_000_000_000) as i64 - 8_500_000_000_000;
        let nanos = ((state >> 32) % 2_100_000_000) as u32;
        assert_eq!(
            Timestamp::new(secs, nanos).is_some(),
            chrono::DateTime::from_timestamp(secs, nanos).is_some(),
            "for {} s and {} ns",
            secs,
            nanos
        );
    }
}

#[test]
fn whatever_text_is_read_can_be_written_again() {
    for text in [
        "0000-01-01T00:00:00+23:59",
        "0000-01-01T00:00:00-23:59",
        "9999-12-31T23:59:59.999999999-23:59",
        "9999-12-31T23:59:60+23:59",
        "2016-12-31T23:59:60.5+05:30",
        "2016-06-15T12:30:60-00:45",
        "1970-01-01T00:00:60Z",
        "1969-12-31T23:59:60Z",
        "2015-05-15t00:00:00z",
        "2015-05-15 00:00:00.123456789123+00:00",
    ] {
        let read = Timestamp::parse_rfc3339(text).unwrap();
        let held = chrono::DateTime::parse_from_rfc3339(text).unwrap();
        assert_eq!(read.secs(), held.timestamp());
        assert_eq!(read.nanos(), held.timestamp_subsec_nanos());
        assert!(Timestamp::new(read.secs(), read.nanos()).is_some(), "for {}", text);
        assert_eq!(read.to_rfc3339(), held.with_timezone(&chrono::Utc).to_rfc3339());
    }
}
