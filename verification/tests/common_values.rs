use loanme_webapi::errors::{redisRejection, rowsAffectedOutcome, DbFailure, RedisFailure};
use loanme_webapi::misc::{decimalText, deserializeNaiveDateTime, generateRnd, serializeNaiveDateTime, startsWith, toHexUpper};
use loanme_webapi::redis_server::{
    confirmationKey, restoreKey, sessionIdKey, sessionUserKey, DEFAULT_MAILCONF_EXPIRATION,
    DEFAULT_PWDRESTORE_EXPIRATION, DEFAULT_SESSION_EXPIRATION,
};
use loanme_webapi::session::Session;

#[test]
fn hex_is_upper_case_two_digits_per_byte() {
    assert_eq!(toHexUpper(&vec![0x00, 0xAB, 0x1F, 0x9c]), "00AB1F9C");
    assert_eq!(toHexUpper(&vec![]), "");
}

#[test]
fn random_ids_are_56_hex_digits() {
    let a = generateRnd(64);
    let b = generateRnd(64);
    assert_eq!(a.len(), 56);
    assert!(a.chars().all(|c| c.is_ascii_digit() || ('A'..='F').contains(&c)));
    assert_ne!(a, b);
    assert_eq!(generateRnd(0).len(), 56);
}

#[test]
fn loan_dates_read_and_write() {
    assert_eq!(deserializeNaiveDateTime("2024-01-02 03:04:05"), Some(1704164645));
    assert_eq!(deserializeNaiveDateTime("1970-01-01 00:00:00"), Some(0));
    assert_eq!(deserializeNaiveDateTime("2024-01-02T03:04:05"), None);
    assert_eq!(deserializeNaiveDateTime("not a date"), None);
    assert_eq!(serializeNaiveDateTime(1704164645).as_deref(), Some("2024-01-02 03:04:05"));
    assert_eq!(serializeNaiveDateTime(i64::MAX), None);
}

#[test]
fn prefixes() {
    assert!(startsWith("/auth/login/x", "/auth/login"));
    assert!(startsWith("abc", ""));
    assert!(!startsWith("/auth", "/auth/login"));
    assert!(!startsWith("/profile/x", "/auth"));
}

#[test]
fn redis_keys() {
    assert_eq!(sessionIdKey("ABC"), "sessionIdABC");
    assert_eq!(sessionUserKey("bob"), "sessionUserbob");
    assert_eq!(confirmationKey("12"), "confirmationId12");
    assert_eq!(restoreKey("34"), "restoreId34");
    assert_eq!(DEFAULT_SESSION_EXPIRATION, 600);
    assert_eq!(DEFAULT_MAILCONF_EXPIRATION, 3600);
    assert_eq!(DEFAULT_PWDRESTORE_EXPIRATION, 900);
}

#[test]
fn key_namespaces_do_not_collide() {
    assert_ne!(sessionIdKey("User"), sessionUserKey(""));
    assert_ne!(sessionIdKey("x"), confirmationKey("x"));
    assert_ne!(confirmationKey("x"), restoreKey("x"));
}

#[test]
fn new_session_and_its_entries() {
    let s = Session::new(String::from("bob"));
    assert_eq!(s.username, "bob");
    assert_eq!(s.id.len(), 56);
    assert!(s.creationDate.is_some());
    let entries = s.createSession();
    assert_eq!(entries.len(), 2);
    assert_eq!(entries[0].key, format!("sessionId{}", s.id));
    assert_eq!(entries[0].value, "bob");
    assert_eq!(entries[0].ttl, 600);
    assert_eq!(entries[1].key, "sessionUserbob");
    assert_eq!(entries[1].value, s.id);
    assert_eq!(entries[1].ttl, 600);
    let keys = Session::sessionKeys(&s.id, "bob");
    assert_eq!(keys, vec![format!("sessionId{}", s.id), String::from("sessionUserbob")]);
}

#[test]
fn created_session_reads_back() {
    let s = Session { username: String::from("ann"), id: String::from("77"), creationDate: None };
    let mut store = std::collections::HashMap::new();
    store.insert(String::from("other"), String::from("kept"));
    for e in s.createSession() {
        store.insert(e.key, e.value);
    }
    assert_eq!(store.get("sessionId77").map(String::as_str), Some("ann"));
    assert_eq!(store.get("sessionUserann").map(String::as_str), Some("77"));
    assert_eq!(store.get("other").map(String::as_str), Some("kept"));
    for k in Session::sessionKeys("77", "ann") {
        store.remove(&k);
    }
    assert_eq!(store.len(), 1);
}

#[test]
fn rows_affected() {
    let r = rowsAffectedOutcome(0, "nothing").unwrap_err();
    assert_eq!((r.status, r.message.as_str()), (400, "nothing"));
    assert!(rowsAffectedOutcome(1, "nothing").is_ok());
    let r = rowsAffectedOutcome(2, "nothing").unwrap_err();
    assert_eq!((r.status, r.message.as_str()), (500, "This should not have happened."));
}

#[test]
fn redis_failures() {
    let r = redisRejection(&RedisFailure { kind: String::from("IoError"), detail: Some(String::from("down")) });
    assert_eq!((r.status, r.message.as_str()), (500, "IoError: down"));
    let r = redisRejection(&RedisFailure { kind: String::from("TypeError"), detail: None });
    assert_eq!(r.message, "TypeError: No further detail provided");
}

#[test]
fn db_failure_text() {
    let f = DbFailure::Database { message: String::from("dup"), text: String::from("error returned from database: dup") };
    assert_eq!(f.text(), "error returned from database: dup");
    assert_eq!(DbFailure::Other { text: String::from("x") }.text(), "x");
}

#[test]
fn decimal_text_matches_display() {
    for n in [0i64, 7, 10, 1234, -5, -1000, i64::MAX, i64::MIN] {
        assert_eq!(decimalText(n), n.to_string());
    }
}
