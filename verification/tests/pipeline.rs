use tempmail::message::message_to_wire;
use tempmail::message::normalize_message;
use tempmail::message::normalize_raw_message;
use tempmail::message::normalize_raw_messages;
use tempmail::Attachment;
use tempmail::Domain;
use tempmail::FetchAction;
use tempmail::FetchSession;
use tempmail::Message;
use tempmail::MessageWire;
use tempmail::RawMessageWire;
use tempmail::Tempmail;
use tempmail::Timestamp;
use tempmail::TransportError;

fn wire(id: usize, date: &str, html_body: Option<&str>) -> MessageWire {
    MessageWire {
        id,
        from: String::from("alice@example.com"),
        subject: String::from("hello"),
        date: String::from(date),
        attachments: vec![Attachment {
            filename: String::from("a.png"),
            content_type: String::from("image/png"),
            size: 512,
        }],
        body: String::from("<p>x</p>"),
        text_body: String::from("x"),
        html_body: html_body.map(String::from),
    }
}

fn raw_wire(id: usize, date: &str) -> RawMessageWire {
    RawMessageWire {
        id,
        from: String::from("alice@example.com"),
        subject: String::from("hello"),
        date: String::from(date),
    }
}

#[test]
fn empty_html_body_becomes_absent() {
    let m = normalize_message(wire(1, "2024-01-15 09:30:00", Some(""))).unwrap();
    assert_eq!(m.html_body, None);
}

#[test]
fn nonempty_html_body_is_kept() {
    let m = normalize_message(wire(1, "2024-01-15 09:30:00", Some("<p>x</p>"))).unwrap();
    assert_eq!(m.html_body, Some(String::from("<p>x</p>")));
}

#[test]
fn missing_html_body_stays_absent() {
    let m = normalize_message(wire(1, "2024-01-15 09:30:00", None)).unwrap();
    assert_eq!(m.html_body, None);
}

#[test]
fn normalized_message_carries_fields_over() {
    let m = normalize_message(wire(7, "2024-01-15 09:30:00", None)).unwrap();
    assert_eq!(m.id, 7);
    assert_eq!(m.from, "alice@example.com");
    assert_eq!(m.subject, "hello");
    assert_eq!(
        m.timestamp,
        Timestamp { year: 2024, month: 1, day: 15, hour: 9, minute: 30, second: 0 }
    );
    assert_eq!(m.attachments.len(), 1);
    assert_eq!(m.attachments[0].filename, "a.png");
    assert_eq!(m.attachments[0].content_type, "image/png");
    assert_eq!(m.attachments[0].size, 512);
    assert_eq!(m.body, "<p>x</p>");
    assert_eq!(m.text_body, "x");
}

#[test]
fn malformed_timestamp_is_a_decode_error() {
    assert_eq!(
        normalize_message(wire(1, "not-a-date", None)),
        Err(TransportError::Decode)
    );
    assert_eq!(
        normalize_raw_message(&raw_wire(1, "not-a-date")),
        Err(TransportError::Decode)
    );
}

#[test]
fn message_round_trips_through_wire_shape() {
    let m = Message {
        id: 3,
        from: String::from("bob@example.org"),
        subject: String::from("report"),
        timestamp: Timestamp { year: 2023, month: 12, day: 31, hour: 23, minute: 59, second: 59 },
        attachments: vec![Attachment {
            filename: String::from("r.pdf"),
            content_type: String::from("application/pdf"),
            size: 1024,
        }],
        body: String::from("full"),
        text_body: String::from("text"),
        html_body: Some(String::from("<b>h</b>")),
    };
    let back = normalize_message(message_to_wire(m.clone())).unwrap();
    assert_eq!(back, m);
    let plain = Message { html_body: None, ..m };
    let back2 = normalize_message(message_to_wire(plain.clone())).unwrap();
    assert_eq!(back2, plain);
}

#[test]
fn listing_normalization_keeps_order() {
    let ws = vec![raw_wire(1, "2024-01-15 09:30:00"), raw_wire(2, "2024-01-16 10:00:00")];
    let rs = normalize_raw_messages(&ws).unwrap();
    assert_eq!(rs.len(), 2);
    assert_eq!(rs[0].id, 1);
    assert_eq!(rs[1].id, 2);
    assert_eq!(rs[0].from, "alice@example.com");
}

#[test]
fn listing_normalization_fails_on_first_bad_entry() {
    let ws = vec![raw_wire(1, "2024-01-15 09:30:00"), raw_wire(2, "nope")];
    assert_eq!(normalize_raw_messages(&ws), Err(TransportError::Decode));
}

#[test]
fn fetch_reads_each_entry_in_listing_order() {
    let mailbox = Tempmail::new(String::from("bob"), Some(Domain::SecMailCom));
    let (mut s, query) = FetchSession::start(mailbox);
    assert_eq!(query, "action=getMessages&login=bob&domain=1secmail.com");

    let listing = vec![raw_wire(1, "2024-01-15 09:30:00"), raw_wire(2, "2024-01-16 10:00:00")];
    let a = s.on_list(Ok(listing));
    match a {
        FetchAction::RequestRead { query } => {
            assert_eq!(query, "action=readMessage&login=bob&domain=1secmail.com&id=1");
        }
        _ => panic!("expected the read of the first entry"),
    }

    let a = s.on_read(Ok(wire(1, "2024-01-15 09:30:00", Some(""))));
    match a {
        FetchAction::RequestRead { query } => {
            assert_eq!(query, "action=readMessage&login=bob&domain=1secmail.com&id=2");
        }
        _ => panic!("expected the read of the second entry"),
    }

    let a = s.on_read(Ok(wire(2, "2024-01-16 10:00:00", Some("<p>x</p>"))));
    match a {
        FetchAction::Done { result } => {
            let msgs = result.expect("fetch must succeed");
            assert_eq!(msgs.len(), 2);
            assert_eq!(msgs[0].id, 1);
            assert_eq!(msgs[1].id, 2);
            assert_eq!(msgs[0].html_body, None);
            assert_eq!(msgs[1].html_body, Some(String::from("<p>x</p>")));
        }
        _ => panic!("expected the fetch to be over"),
    }
}

#[test]
fn fetch_aborts_before_second_read_on_failure() {
    let mailbox = Tempmail::new(String::from("bob"), Some(Domain::SecMailCom));
    let (mut s, _query) = FetchSession::start(mailbox);
    let listing = vec![raw_wire(1, "2024-01-15 09:30:00"), raw_wire(2, "2024-01-16 10:00:00")];
    match s.on_list(Ok(listing)) {
        FetchAction::RequestRead { query } => {
            assert_eq!(query, "action=readMessage&login=bob&domain=1secmail.com&id=1");
        }
        _ => panic!("expected the read of the first entry"),
    }
    match s.on_read(Err(TransportError::Network)) {
        FetchAction::Done { result } => assert_eq!(result, Err(TransportError::Network)),
        _ => panic!("a failed read must end the whole fetch at once"),
    }
}

#[test]
fn fetch_fails_on_undecodable_read_response() {
    let mailbox = Tempmail::new(String::from("bob"), Some(Domain::SecMailCom));
    let (mut s, _query) = FetchSession::start(mailbox);
    let listing = vec![raw_wire(1, "2024-01-15 09:30:00"), raw_wire(2, "2024-01-16 10:00:00")];
    let _ = s.on_list(Ok(listing));
    match s.on_read(Ok(wire(1, "broken", None))) {
        FetchAction::Done { result } => assert_eq!(result, Err(TransportError::Decode)),
        _ => panic!("an undecodable read must end the whole fetch at once"),
    }
}

#[test]
fn fetch_of_empty_mailbox_is_empty() {
    let mailbox = Tempmail::new(String::from("bob"), Some(Domain::SecMailCom));
    let (mut s, _query) = FetchSession::start(mailbox);
    match s.on_list(Ok(Vec::new())) {
        FetchAction::Done { result } => assert_eq!(result, Ok(Vec::new())),
        _ => panic!("an empty listing must end the fetch"),
    }
}

#[test]
fn fetch_propagates_listing_failures() {
    let mailbox = Tempmail::new(String::from("bob"), Some(Domain::SecMailCom));
    let (mut s, _query) = FetchSession::start(mailbox);
    match s.on_list(Err(TransportError::Network)) {
        FetchAction::Done { result } => assert_eq!(result, Err(TransportError::Network)),
        _ => panic!("a failed listing must end the fetch"),
    }

    let (mut s2, _query) = FetchSession::start(Tempmail::new(String::from("bob"), None));
    let listing = vec![raw_wire(1, "bad date")];
    match s2.on_list(Ok(listing)) {
        FetchAction::Done { result } => assert_eq!(result, Err(TransportError::Decode)),
        _ => panic!("an undecodable listing must end the fetch"),
    }
}
