use ttn_ingest::cursor::Cursor;
use ttn_ingest::stream::{
    authorization, payload, query_after, stream_query, stream_url, unreadable_note, StreamAction,
    StreamEvent, StreamSession,
};
use ttn_ingest::time::Timestamp;

fn delivered(session: &mut StreamSession, bytes: &[u8]) -> Vec<String> {
    match session.step(StreamEvent::Chunk { bytes: bytes.to_vec() }) {
        StreamAction::Deliver { payloads } => payloads,
        _ => panic!("not delivered"),
    }
}

#[test]
fn the_address_names_region_and_application() {
    assert_eq!(
        stream_url("eu1", "vanman"),
        "https://eu1.cloud.thethings.network/api/v3/as/applications/vanman/packages/storage/uplink_message"
    );
    assert_eq!(authorization("NNSXS.key"), "Bearer NNSXS.key");
}

#[test]
fn the_query_begins_at_the_cursor() {
    let mask = "up.uplink_message.f_cnt,up.uplink_message.decoded_payload,up.uplink_message.rx_metadata,up.uplink_message.settings";
    let shown = |cursor| -> Vec<(String, String)> {
        stream_query(cursor).into_iter().map(|p| (p.name, p.value)).collect()
    };
    assert_eq!(
        shown(None),
        vec![
            ("last".to_string(), "24h".to_string()),
            ("field_mask".to_string(), mask.to_string()),
        ]
    );
    assert_eq!(
        shown(Some(Timestamp { secs: 1_704_164_645, nanos: 0 })),
        vec![
            ("after".to_string(), "2024-01-02T03:04:05+00:00".to_string()),
            ("field_mask".to_string(), mask.to_string()),
        ]
    );
}

#[test]
fn the_query_hands_its_text_on() {
    let mask = "up.uplink_message.f_cnt,up.uplink_message.decoded_payload,up.uplink_message.rx_metadata,up.uplink_message.settings";
    let shown = |after| -> Vec<(String, String)> {
        query_after(after).into_iter().map(|p| (p.name, p.value)).collect()
    };
    assert_eq!(
        shown(Some("any text")),
        vec![
            ("after".to_string(), "any text".to_string()),
            ("field_mask".to_string(), mask.to_string()),
        ]
    );
    assert_eq!(shown(Some(""))[0], ("after".to_string(), String::new()));
    assert_eq!(
        shown(None),
        vec![
            ("last".to_string(), "24h".to_string()),
            ("field_mask".to_string(), mask.to_string()),
        ]
    );
}

#[test]
fn the_query_denotes_the_cursor() {
    for (secs, nanos) in [(1_704_164_645, 0), (1_483_228_799, 1_500_000_000), (-62_167_219_200, 7)] {
        let query = stream_query(Some(Timestamp { secs, nanos }));
        let loaded = Cursor::load(Some(query[0].value.as_str()));
        assert_eq!(loaded.get(), Some(Timestamp { secs, nanos }));
    }
}

#[test]
fn the_next_stream_resumes_behind_the_latest() {
    let mut cursor = Cursor::load(None);
    for secs in [1_704_164_645, 1_704_164_600, 1_704_164_640] {
        cursor.update(Timestamp { secs, nanos: 0 });
    }
    let query = stream_query(cursor.get());
    assert_eq!(query[0].name, "after");
    assert_eq!(query[0].value, "2024-01-02T03:04:05+00:00");
}

#[test]
fn a_line_carries_its_json() {
    assert_eq!(payload("{\"a\":1}"), Some("{\"a\":1}".to_string()));
    assert_eq!(payload("  data:  {} \r"), Some("{}".to_string()));
    assert_eq!(payload("data:{}"), Some("{}".to_string()));
    assert_eq!(payload("data: data: x"), Some("data: x".to_string()));
    assert_eq!(payload("DATA: x"), Some("DATA: x".to_string()));
    assert_eq!(payload("data"), Some("data".to_string()));
    assert_eq!(payload(": keep-alive"), Some(": keep-alive".to_string()));
    assert_eq!(payload(""), None);
    assert_eq!(payload(" \t\u{3000}"), None);
    assert_eq!(payload("data:"), None);
    assert_eq!(payload(" data: \r"), None);
}

#[test]
fn lines_are_delivered_when_they_are_complete() {
    let mut session = StreamSession::new();
    assert_eq!(delivered(&mut session, b"{\"a\""), Vec::<String>::new());
    assert_eq!(session.pending, "{\"a\"");
    assert_eq!(delivered(&mut session, b":1}\n\ndata: {\"b\":2}\r\n{\"c"), vec!["{\"a\":1}", "{\"b\":2}"]);
    assert_eq!(session.pending, "{\"c");
    assert_eq!(delivered(&mut session, b"\":3}\n"), vec!["{\"c\":3}"]);
    assert_eq!(session.pending, "");
}

#[test]
fn chunks_do_not_matter() {
    let text = "one\n\u{e9}t\u{e9}\n data: two\n\n:\nrest";
    let mut whole = StreamSession::new();
    let expected = whole.receive(text);
    assert_eq!(expected, vec!["one", "\u{e9}t\u{e9}", "two", ":"]);
    let chars: Vec<char> = text.chars().collect();
    for cut in 0..=chars.len() {
        let (a, b): (String, String) =
            (chars[..cut].iter().collect(), chars[cut..].iter().collect());
        let mut session = StreamSession::new();
        let mut got = session.receive(&a);
        got.extend(session.receive(&b));
        assert_eq!(got, expected);
        assert_eq!(session.pending, whole.pending);
    }
    assert_eq!(whole.pending, "rest");
}

#[test]
fn byte_chunks_do_not_matter_between_characters() {
    let text = "one\n\u{e9}t\u{e9} \u{20ac}\u{1f600}\n data: two\nrest";
    let bytes = text.as_bytes();
    let mut whole = StreamSession::new();
    let expected = delivered(&mut whole, bytes);
    assert_eq!(expected, vec!["one", "\u{e9}t\u{e9} \u{20ac}\u{1f600}", "two"]);
    for (cut, _) in text.char_indices() {
        let mut session = StreamSession::new();
        let mut got = delivered(&mut session, &bytes[..cut]);
        got.extend(delivered(&mut session, &bytes[cut..]));
        assert_eq!(got, expected);
        assert_eq!(session.pending, whole.pending);
    }
    let mut session = StreamSession::new();
    assert_eq!(delivered(&mut session, b"\xc3"), Vec::<String>::new());
    assert_eq!(delivered(&mut session, b"\xa9\n"), vec!["\u{fffd}\u{fffd}"]);
}

#[test]
fn bytes_that_are_no_text_are_replaced() {
    let mut session = StreamSession::new();
    assert_eq!(delivered(&mut session, b"a\xffb\n"), vec!["a\u{fffd}b"]);
    assert_eq!(delivered(&mut session, "\u{1f600}\n".as_bytes()), vec!["\u{1f600}"]);
}

#[test]
fn an_accepted_request_starts_the_clock() {
    let mut session = StreamSession::new();
    let event =
        StreamEvent::Answered { success: true, status: "200 OK".to_string(), body: None, now: 77 };
    assert!(matches!(session.step(event), StreamAction::Read));
    assert_eq!(session.connected_at, Some(77));
}

#[test]
fn a_refusal_tells_status_and_body() {
    let mut session = StreamSession::new();
    let refused = |body: Option<&str>| StreamEvent::Answered {
        success: false,
        status: "403 Forbidden".to_string(),
        body: body.map(|b| b.to_string()),
        now: 5,
    };
    match session.step(refused(Some("no key"))) {
        StreamAction::Fail { message } => {
            assert_eq!(message, "TTN API returned status 403 Forbidden: no key")
        }
        _ => panic!("accepted"),
    }
    match session.step(refused(None)) {
        StreamAction::Fail { message } => {
            assert_eq!(message, "TTN API returned status 403 Forbidden: <failed to read body>")
        }
        _ => panic!("accepted"),
    }
    assert_eq!(session.connected_at, None);
}

#[test]
fn a_stream_ends_or_breaks() {
    let mut session = StreamSession::new();
    assert!(matches!(session.step(StreamEvent::Ended), StreamAction::Finish));
    match session.step(StreamEvent::Broken { error: "reset".to_string() }) {
        StreamAction::Fail { message } => assert_eq!(message, "Stream interrupted: reset"),
        _ => panic!("went on"),
    }
}

#[test]
fn an_unreadable_text_is_shown_but_a_comment_is_not() {
    assert_eq!(unreadable_note(": ping"), None);
    assert_eq!(unreadable_note("oops"), Some("oops".to_string()));
    let long: String = "\u{e9}".repeat(150);
    assert_eq!(unreadable_note(&long), Some("\u{e9}".repeat(100)));
}
