use tempmail::digits::dec_string;
use tempmail::domain::all_domains;
use tempmail::query::api_url;
use tempmail::query::request_url;
use tempmail::randgen::username_from_indices;
use tempmail::Domain;
use tempmail::Tempmail;
use tempmail::timestamp::parse_timestamp;
use tempmail::Timestamp;
use tempmail::TransportError;

fn is_alnum(c: char) -> bool {
    c.is_ascii_lowercase() || c.is_ascii_uppercase() || c.is_ascii_digit()
}

#[test]
fn render_canonical_hostnames() {
    assert_eq!(Domain::SecMailCom.render(), "1secmail.com");
    assert_eq!(Domain::SecMailOrg.render(), "1secmail.org");
    assert_eq!(Domain::SecMailNet.render(), "1secmail.net");
    assert_eq!(Domain::WwjmpCom.render(), "wwjmp.com");
    assert_eq!(Domain::EsiixCom.render(), "esiix.com");
    assert_eq!(Domain::XojxeCom.render(), "xojxe.com");
    assert_eq!(Domain::YoggmCom.render(), "yoggm.com");
}

#[test]
fn registry_has_seven_entries_in_order() {
    let all = all_domains();
    assert_eq!(all.len(), 7);
    assert_eq!(all[0], Domain::SecMailCom);
    assert_eq!(all[6], Domain::YoggmCom);
    for i in 0..7 {
        assert_eq!(all[i], Domain::from_index(i));
    }
}

#[test]
fn default_domain_is_first_registry_entry() {
    assert_eq!(Domain::default(), Domain::SecMailCom);
}

#[test]
fn random_domain_stays_in_registry_and_varies() {
    let hosts = [
        "1secmail.com",
        "1secmail.org",
        "1secmail.net",
        "wwjmp.com",
        "esiix.com",
        "xojxe.com",
        "yoggm.com",
    ];
    let mut counts = [0usize; 7];
    for _ in 0..7000 {
        let d = Domain::random();
        let r = d.render();
        let idx = hosts.iter().position(|h| *h == r).expect("not a canonical hostname");
        counts[idx] += 1;
    }
    for c in counts.iter() {
        assert!(*c > 0, "a registry entry was never drawn in 7000 tries");
        assert!(*c < 6300, "one registry entry dominates the draw");
    }
}

#[test]
fn new_keeps_username_and_domain() {
    let t = Tempmail::new(String::from("example"), Some(Domain::SecMailOrg));
    assert_eq!(t.username, "example");
    assert_eq!(t.domain, Domain::SecMailOrg);
}

#[test]
fn new_defaults_to_first_domain() {
    let t = Tempmail::new(String::from("someone"), None);
    assert_eq!(t.domain, Domain::SecMailCom);
}

#[test]
fn new_accepts_empty_username() {
    let t = Tempmail::new(String::new(), None);
    assert_eq!(t.username, "");
}

#[test]
fn random_mailbox_username_shape() {
    for _ in 0..200 {
        let t = Tempmail::random();
        let n = t.username.chars().count();
        assert!((10..50).contains(&n), "username length {} out of [10, 50)", n);
        assert!(t.username.chars().all(is_alnum), "username {:?} not alphanumeric", t.username);
    }
}

#[test]
fn username_construction_is_deterministic() {
    let s = username_from_indices(&vec![0, 25, 26, 51, 52, 61]);
    assert_eq!(s, "azAZ09");
}

#[test]
fn successive_random_usernames_differ() {
    let a = Tempmail::random();
    let b = Tempmail::random();
    assert_ne!(a.username, b.username);
}

#[test]
fn parse_exact_wire_timestamp() {
    let t = parse_timestamp("2024-01-15 09:30:00").expect("must parse");
    assert_eq!(
        t,
        Timestamp { year: 2024, month: 1, day: 15, hour: 9, minute: 30, second: 0 }
    );
    assert_eq!(t.unix_seconds(), 1705311000);
}

#[test]
fn parse_rejects_malformed_timestamp() {
    assert_eq!(parse_timestamp("not-a-date"), Err(TransportError::Decode));
    assert_eq!(parse_timestamp(""), Err(TransportError::Decode));
    assert_eq!(parse_timestamp("2024-01-15T09:30:00"), Err(TransportError::Decode));
    assert_eq!(parse_timestamp("2024-1-15 09:30:00"), Err(TransportError::Decode));
    assert_eq!(parse_timestamp("2024-01-15 09:30:00 "), Err(TransportError::Decode));
    assert_eq!(parse_timestamp("2024-13-01 00:00:00"), Err(TransportError::Decode));
    assert_eq!(parse_timestamp("2024-00-01 00:00:00"), Err(TransportError::Decode));
    assert_eq!(parse_timestamp("2024-02-30 00:00:00"), Err(TransportError::Decode));
    assert_eq!(parse_timestamp("2024-01-15 24:00:00"), Err(TransportError::Decode));
    assert_eq!(parse_timestamp("2024-01-15 09:60:00"), Err(TransportError::Decode));
    assert_eq!(parse_timestamp("2024-01-15 09:30:60"), Err(TransportError::Decode));
}

#[test]
fn leap_year_rules() {
    assert!(parse_timestamp("2024-02-29 00:00:00").is_ok());
    assert!(parse_timestamp("2000-02-29 00:00:00").is_ok());
    assert_eq!(parse_timestamp("2023-02-29 00:00:00"), Err(TransportError::Decode));
    assert_eq!(parse_timestamp("1900-02-29 00:00:00"), Err(TransportError::Decode));
}

#[test]
fn unix_seconds_around_epoch() {
    let epoch = parse_timestamp("1970-01-01 00:00:00").unwrap();
    assert_eq!(epoch.unix_seconds(), 0);
    let before = parse_timestamp("1969-12-31 23:59:59").unwrap();
    assert_eq!(before.unix_seconds(), -1);
    let y2k = parse_timestamp("2000-01-01 00:00:00").unwrap();
    assert_eq!(y2k.unix_seconds(), 946684800);
}

#[test]
fn timestamp_renders_back_to_wire_text() {
    let t = Timestamp { year: 2024, month: 1, day: 15, hour: 9, minute: 30, second: 0 };
    assert_eq!(t.render(), "2024-01-15 09:30:00");
    assert_eq!(parse_timestamp(t.render().as_str()), Ok(t));
    let edge = Timestamp { year: 9999, month: 12, day: 31, hour: 23, minute: 59, second: 59 };
    assert_eq!(parse_timestamp(edge.render().as_str()), Ok(edge));
}

#[test]
fn decimal_text_of_ids() {
    assert_eq!(dec_string(0), "0");
    assert_eq!(dec_string(7), "7");
    assert_eq!(dec_string(12345), "12345");
    assert_eq!(dec_string(u64::MAX), "18446744073709551615");
}

#[test]
fn query_strings_are_exact() {
    let t = Tempmail::new(String::from("bob"), Some(Domain::EsiixCom));
    assert_eq!(t.list_query(), "action=getMessages&login=bob&domain=esiix.com");
    assert_eq!(t.read_query(1), "action=readMessage&login=bob&domain=esiix.com&id=1");
    assert_eq!(
        t.download_query(12345, "a.png"),
        "action=download&login=bob&domain=esiix.com&id=12345&file=a.png"
    );
}

#[test]
fn request_urls_use_fixed_base() {
    assert_eq!(api_url(), "https://www.1secmail.com/api/v1/");
    assert_eq!(
        request_url("action=getMessages&login=x&domain=1secmail.com"),
        "https://www.1secmail.com/api/v1/?action=getMessages&login=x&domain=1secmail.com"
    );
}

#[test]
fn domains_are_totally_ordered_in_registry_order() {
    let all = all_domains();
    for i in 0..all.len() {
        for j in 0..all.len() {
            assert_eq!(all[i] < all[j], i < j);
            assert_eq!(all[i] == all[j], i == j);
        }
    }
}

#[test]
fn attachments_compare_by_natural_field_order() {
    let a = tempmail::Attachment {
        filename: String::from("a.png"),
        content_type: String::from("image/png"),
        size: 10,
    };
    let b = tempmail::Attachment {
        filename: String::from("b.png"),
        content_type: String::from("image/png"),
        size: 5,
    };
    let a2 = tempmail::Attachment { size: 11, ..a.clone() };
    assert!(a < b, "filename decides first");
    assert!(a < a2, "size decides last, on equal names and types");
    assert_eq!(a, a.clone());
}

#[test]
fn error_kinds_are_distinguishable() {
    assert_ne!(TransportError::Network, TransportError::Decode);
    assert_eq!(TransportError::Network.describe(), "network error");
    assert_eq!(TransportError::Decode.describe(), "decode error");
}
