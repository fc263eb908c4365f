use iam_core::models::SessionUser;
use iam_core::payload::{decode_session_user, encode_session_user};
use iam_core::text::u64_to_dec;

fn sample(session_id: &str, pid: &str, first: &str, last: &str, email: &str) -> SessionUser {
    SessionUser {
        session_id: String::from(session_id),
        pid: String::from(pid),
        first_name: String::from(first),
        last_name: String::from(last),
        email: String::from(email),
    }
}

fn assert_round_trip(su: &SessionUser) {
    let encoded = encode_session_user(su);
    let decoded = decode_session_user(encoded.as_str()).expect("a well-formed payload decodes");
    assert_eq!(decoded.session_id, su.session_id);
    assert_eq!(decoded.pid, su.pid);
    assert_eq!(decoded.first_name, su.first_name);
    assert_eq!(decoded.last_name, su.last_name);
    assert_eq!(decoded.email, su.email);
}

#[test]
fn plain_fields_round_trip() {
    assert_round_trip(&sample("sid-1", "pid-1", "Ada", "Lovelace", "ada@example.org"));
}

#[test]
fn empty_fields_round_trip() {
    assert_round_trip(&sample("", "", "", "", ""));
}

#[test]
fn separator_and_escape_characters_round_trip() {
    assert_round_trip(&sample("s|d", "p\\d", "A|\\|B", "\\\\", "odd|mail\\@example.org"));
}

#[test]
fn unicode_fields_round_trip() {
    assert_round_trip(&sample("sid", "pid", "Grâce", "Höpper", "grâce@exämple.org"));
}

#[test]
fn truncated_payload_is_rejected() {
    let su = sample("sid-1", "pid-1", "Ada", "Lovelace", "ada@example.org");
    let encoded = encode_session_user(&su);
    let truncated: String = encoded.chars().take(encoded.chars().count() - 1).collect();
    assert!(decode_session_user(truncated.as_str()).is_none());
}

#[test]
fn trailing_garbage_is_rejected() {
    let su = sample("sid-1", "pid-1", "Ada", "Lovelace", "ada@example.org");
    let mut encoded = encode_session_user(&su);
    encoded.push_str("extra");
    assert!(decode_session_user(encoded.as_str()).is_none());
}

#[test]
fn arbitrary_text_is_rejected() {
    assert!(decode_session_user("no field terminators here").is_none());
    assert!(decode_session_user("").is_none());
    assert!(decode_session_user("a|b|c").is_none());
    assert!(decode_session_user("dangling escape \\").is_none());
}

#[test]
fn decimal_printing_exact_values() {
    assert_eq!(u64_to_dec(0), "0");
    assert_eq!(u64_to_dec(7), "7");
    assert_eq!(u64_to_dec(907), "907");
    assert_eq!(u64_to_dec(1000000), "1000000");
    assert_eq!(u64_to_dec(u64::MAX), "18446744073709551615");
}
