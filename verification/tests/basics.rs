use quizbackend::clock::{reading_of, GameClock, Reading, Timestamp, MAX_SECS, MIN_SECS};
use quizbackend::ids::{next_conn_id, next_game_id, next_player_id, IdCounter};
use quizbackend::text::{copy_opt, is_blank, join, number};

#[test]
fn numbers_in_decimal() {
    for n in [0, 7, 9, 10, 99, 100, 1_000_000, 12_345_678_901_234_567_890, u64::MAX] {
        assert_eq!(number(n), format!("{}", n));
    }
}

#[test]
fn strings_are_joined_and_copied() {
    assert_eq!(join("ab", "c\u{fc}"), "abc\u{fc}");
    assert_eq!(copy_opt(&Some("x".to_string())), Some("x".to_string()));
    assert_eq!(copy_opt(&None), None);
}

#[test]
fn blank_strings() {
    assert!(is_blank(""));
    assert!(is_blank(" \t\r\n\u{b}\u{c}\u{85}\u{a0}"));
    assert!(is_blank("\u{1680}\u{2000}\u{200a}\u{2028}\u{2029}\u{202f}\u{205f}\u{3000}"));
    assert!(!is_blank(" a "));
    assert!(!is_blank("\u{200b}"));
    assert!(!is_blank("\u{feff}"));
}

#[test]
fn white_space_is_what_trim_removes() {
    for c in (0..=0x10ffffu32).filter_map(char::from_u32) {
        let n = c as u32;
        let expected = (0x9..=0xd).contains(&n)
            || (0x2000..=0x200a).contains(&n)
            || [0x20, 0x85, 0xa0, 0x1680, 0x2028, 0x2029, 0x202f, 0x205f, 0x3000].contains(&n);
        assert_eq!(is_blank(&c.to_string()), expected);
    }
}

#[test]
fn ids_are_counted() {
    let mut players = IdCounter::new();
    let mut games = IdCounter::new();
    let mut conns = IdCounter::new();
    assert_eq!(next_player_id(&mut players), "player_1");
    assert_eq!(next_player_id(&mut players), "player_2");
    assert_eq!(next_game_id(&mut games), "game_1");
    assert_eq!(next_conn_id(&mut conns), 1);
    assert_eq!(next_conn_id(&mut conns), 2);
    players.last = 9;
    assert_eq!(next_player_id(&mut players), "player_10");
    assert_eq!(players.last, 10);
}

#[test]
fn question_time_is_added() {
    for (secs, nanos) in [
        (1_700_000_000, 0),
        (1_709_251_190, 999_999_999),
        (0, 1),
        (-1, 5),
        (MIN_SECS, 0),
        (MAX_SECS - 15, 999_999_999),
    ] {
        let now = Reading { utc: Timestamp { secs, nanos }, elapsed: 3 };
        assert_eq!(now.ends_at(), Timestamp { secs: secs + 15, nanos });
        assert_eq!(now.deadline(), 15_000_000_003);
    }
}

#[test]
fn calendar_ends_where_chrono_does() {
    assert!(chrono::DateTime::<chrono::Utc>::from_timestamp(MAX_SECS, 0).is_some());
    assert!(chrono::DateTime::<chrono::Utc>::from_timestamp(MAX_SECS + 1, 0).is_none());
    assert!(chrono::DateTime::<chrono::Utc>::from_timestamp(MIN_SECS, 0).is_some());
    assert!(chrono::DateTime::<chrono::Utc>::from_timestamp(MIN_SECS - 1, 0).is_none());
}

#[test]
fn readings_stay_in_range() {
    let utc = Timestamp { secs: MAX_SECS - 15, nanos: 0 };
    assert_eq!(reading_of(utc, 5), Some(Reading { utc, elapsed: 5 }));
    assert_eq!(reading_of(Timestamp { secs: MAX_SECS - 14, nanos: 0 }, 5), None);
    assert_eq!(reading_of(Timestamp { secs: MIN_SECS - 1, nanos: 0 }, 5), None);
    assert_eq!(reading_of(Timestamp { secs: 0, nanos: 1_000_000_000 }, 5), None);
    let last = u128::MAX - 15_000_000_000;
    assert!(reading_of(utc, last).is_some());
    assert_eq!(reading_of(utc, last + 1), None);
}

#[test]
fn timestamps_are_ordered() {
    let a = Timestamp { secs: 5, nanos: 9 };
    let b = Timestamp { secs: 5, nanos: 10 };
    let c = Timestamp { secs: 6, nanos: 0 };
    assert!(a.is_before(&b) && b.is_before(&c) && a.is_before(&c));
    assert!(!a.is_before(&a) && !b.is_before(&a) && !c.is_before(&b));
}

#[test]
fn clock_shows_the_time_of_day() {
    let reading = GameClock::start().read().expect("the clocks can be read");
    let now = std::time::SystemTime::now()
        .duration_since(std::time::SystemTime::UNIX_EPOCH)
        .unwrap()
        .as_secs() as i64;
    assert!(reading.utc.secs <= now && reading.utc.secs >= now - 10);
    assert!(reading.elapsed < 10_000_000_000);
}
