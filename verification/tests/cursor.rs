use ttn_ingest::cursor::Cursor;
use ttn_ingest::time::Timestamp;

fn ts(secs: i64, nanos: u32) -> Timestamp {
    Timestamp { secs, nanos }
}

#[test]
fn a_file_gives_its_cursor() {
    let text = "  2024-01-02T03:04:05.678Z\n";
    assert_eq!(Cursor::load(Some(text)).get(), Some(ts(1_704_164_645, 678_000_000)));
    assert_eq!(Cursor::load(None).get(), None);
    assert_eq!(Cursor::load(Some("")).get(), None);
    assert_eq!(Cursor::load(Some("24h")).get(), None);
}

#[test]
fn the_cursor_moves_forward_only() {
    let mut c = Cursor::load(None);
    assert_eq!(c.update(ts(10, 5)), Some("1970-01-01T00:00:10.000000005+00:00".to_string()));
    assert_eq!(c.update(ts(10, 5)), None);
    assert_eq!(c.update(ts(10, 4)), None);
    assert_eq!(c.update(ts(9, 999_999_999)), None);
    assert_eq!(c.get(), Some(ts(10, 5)));
    assert_eq!(c.update(ts(10, 6)), Some("1970-01-01T00:00:10.000000006+00:00".to_string()));
    assert_eq!(c.update(ts(11, 0)), Some("1970-01-01T00:00:11+00:00".to_string()));
}

#[test]
fn what_was_kept_is_loaded_again() {
    for t in [
        ts(0, 0),
        ts(-1, 999_999_999),
        ts(1_704_164_645, 120_000_000),
        ts(1_704_164_645, 120_450_000),
        ts(1_483_228_799, 1_500_000_000),
        ts(-62_167_219_200, 0),
        ts(253_402_300_799, 999_999_999),
        ts(253_402_300_799, 1_000_000_000),
    ] {
        let text = Cursor { last_received_at: None }.update(t).unwrap();
        assert_eq!(Cursor::load(Some(&text)).get(), Some(t));
        assert_eq!(Cursor::load(Some(&format!("\t{}\r\n", text))).get(), Some(t));
    }
}

#[test]
fn a_leap_second_is_its_own_instant() {
    let t = Cursor::load(Some("2016-12-31T23:59:60.5Z")).get().unwrap();
    assert_eq!(t, ts(1_483_228_799, 1_500_000_000));
    let mut c = Cursor { last_received_at: Some(t) };
    assert_eq!(c.update(ts(1_483_228_799, 999_999_999)), None);
    assert!(c.update(ts(1_483_228_800, 0)).is_some());
}

#[test]
fn a_five_digit_year_is_not_loaded_again() {
    let t = Cursor::load(Some("9999-12-31T23:59:59-01:00")).get().unwrap();
    assert_eq!(t, ts(253_402_304_399, 0));
    let text = Cursor { last_received_at: None }.update(t).unwrap();
    assert_eq!(text, "+10000-01-01T00:59:59+00:00");
    assert_eq!(Cursor::load(Some(&text)).get(), None);
}

#[test]
fn the_calendar_has_an_end() {
    let mut c = Cursor::load(None);
    assert_eq!(c.update(ts(-8_334_601_228_800, 0)), Some("-262143-01-01T00:00:00+00:00".to_string()));
    assert_eq!(
        c.update(ts(8_210_266_876_799, 999_999_999)),
        Some("+262142-12-31T23:59:59.999999999+00:00".to_string())
    );
    assert!(chrono::DateTime::from_timestamp(-8_334_601_228_801, 0).is_none());
    assert!(chrono::DateTime::from_timestamp(8_210_266_876_800, 0).is_none());
}

#[test]
fn order_does_not_matter() {
    let all = [ts(3, 0), ts(1, 7), ts(3, 1), ts(2, 0)];
    for from in 0..all.len() {
        let mut c = Cursor::load(None);
        for k in 0..all.len() {
            c.update(all[(from + k) % all.len()]);
        }
        assert_eq!(c.get(), Some(ts(3, 1)));
    }
}

#[test]
fn stamps_are_nanoseconds() {
    assert_eq!(ts(1, 2).timestamp_nanos(), Some(1_000_000_002));
    assert_eq!(ts(-1, 2).timestamp_nanos(), Some(-999_999_998));
    assert_eq!(ts(9_223_372_036, 854_775_807).timestamp_nanos(), Some(i64::MAX));
    assert_eq!(ts(9_223_372_036, 854_775_808).timestamp_nanos(), None);
    assert_eq!(ts(-9_223_372_037, 145_224_192).timestamp_nanos(), Some(i64::MIN));
    assert_eq!(ts(-9_223_372_037, 145_224_191).timestamp_nanos(), None);
    assert_eq!(ts(-9_223_372_037, 145_224_191).stamp(), 0);
    assert_eq!(ts(59, 1_000_000_000).stamp(), 60_000_000_000);
}

#[test]
fn instants_agree_with_chrono() {
    let texts = [
        "0000-01-01T00:00:00Z",
        "1677-09-21T00:12:43.145224191Z",
        "1969-12-31T23:59:59.5+23:59",
        "2024-02-29t12:00:00.123456789-05:30",
        "2262-04-11T23:47:16.854775807Z",
        "2262-04-11T23:47:16.854775808Z",
        "9999-12-31T23:59:60Z",
    ];
    for a in texts {
        let x = chrono::DateTime::parse_from_rfc3339(a).unwrap().with_timezone(&chrono::Utc);
        let t = Cursor::load(Some(a)).get().unwrap();
        assert_eq!((t.secs, t.nanos), (x.timestamp(), x.timestamp_subsec_nanos()));
        assert_eq!(t.stamp(), x.timestamp_nanos_opt().unwrap_or(0));
        for b in texts {
            let y = chrono::DateTime::parse_from_rfc3339(b).unwrap().with_timezone(&chrono::Utc);
            let u = Cursor::load(Some(b)).get().unwrap();
            assert_eq!(t.not_after(&u), x <= y);
        }
    }
}
