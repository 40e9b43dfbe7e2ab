use sessions::attribute::{AsAny, AttributeKind, AttributeValue};
use sessions::config::{CookieSessionConfig, SessionConfig, ID_LENGTH};
use sessions::record::SessionInner;
use sessions::time::{Expiry, Instant, Span};

fn at(secs: i64, nanos: u32) -> Instant {
    Instant::new(secs, nanos).unwrap()
}

fn never() -> CookieSessionConfig {
    CookieSessionConfig::new("session", Span::zero())
}

fn seconds(n: i64) -> CookieSessionConfig {
    CookieSessionConfig::new("session", Span::new(n, 0).unwrap())
}

#[test]
fn it_works() {
    assert_eq!(2 + 2, 4);
}

#[test]
fn session_without_duration_never_expires_and_holds_typed_attributes() {
    let mut session = SessionInner::new("abc", &never());
    assert_eq!(session.id(), "abc");
    assert_eq!(*session.expires(), Expiry::Never);
    session.insert("user", String::from("alice"));
    assert_eq!(session.get_attribute::<String>("user"), Some(&String::from("alice")));
    assert_eq!(session.get_attribute::<u32>("user"), None);
    assert!(!session.is_expired());
}

#[test]
fn new_record_starts_at_the_clock_reading() {
    let session = SessionInner::new("abc", &seconds(60));
    let created = *session.creation_time();
    assert!(created.secs() > 1_600_000_000);
    assert!(created.secs() < 185_604_722_870_400);
    assert!(created.subsec_nanos() < 1_000_000_000);
    assert_eq!(*session.last_accessed(), created);
    assert_eq!(*session.expires(), Expiry::At(at(created.secs() + 60, created.subsec_nanos())));
    assert!(!session.is_expired());
}

#[test]
fn new_at_sets_times_and_expiry() {
    let session = SessionInner::new_at("abc", &seconds(30), at(1_000, 500));
    assert_eq!(session.id(), "abc");
    assert_eq!(*session.creation_time(), at(1_000, 500));
    assert_eq!(*session.last_accessed(), at(1_000, 500));
    assert_eq!(*session.expires(), Expiry::At(at(1_030, 500)));
    assert_eq!(session.get_attribute::<bool>("anything"), None);
}

#[test]
fn is_expired_at_turns_at_the_instant_of_expiry() {
    let session = SessionInner::new_at("abc", &seconds(1), at(100, 0));
    assert!(!session.is_expired_at(&at(100, 0)));
    assert!(!session.is_expired_at(&at(100, 999_999_999)));
    assert!(session.is_expired_at(&at(101, 0)));
    assert!(session.is_expired_at(&at(101, 1)));
    assert!(session.is_expired_at(&at(5_000, 0)));
}

#[test]
fn never_expiring_session_is_never_expired_by_time() {
    let mut session = SessionInner::new_at("abc", &never(), at(100, 0));
    assert!(!session.is_expired_at(&at(100, 0)));
    assert!(!session.is_expired_at(&at(i64::MAX, 999_999_999)));
    assert!(!session.is_expired_at(&at(i64::MIN, 0)));
    session.update_time_at(at(200, 0));
    assert_eq!(*session.expires(), Expiry::Never);
    assert!(!session.is_expired_at(&at(i64::MAX, 0)));
}

#[test]
fn insert_overwrites_silently() {
    let mut session = SessionInner::new_at("abc", &never(), at(0, 0));
    session.insert("n", 1u32);
    session.insert("n", 2u64);
    assert_eq!(session.get_attribute::<u32>("n"), None);
    assert_eq!(session.get_attribute::<u64>("n"), Some(&2u64));
}

#[test]
fn get_attribute_checks_key_and_type() {
    let mut session = SessionInner::new_at("abc", &never(), at(0, 0));
    session.insert("flag", true);
    session.insert("count", -5i64);
    session.insert("blob", vec![1u8, 2, 3]);
    assert_eq!(session.get_attribute::<bool>("flag"), Some(&true));
    assert_eq!(session.get_attribute::<i64>("count"), Some(&-5i64));
    assert_eq!(session.get_attribute::<Vec<u8>>("blob"), Some(&vec![1u8, 2, 3]));
    assert_eq!(session.get_attribute::<i64>("flag"), None);
    assert_eq!(session.get_attribute::<String>("blob"), None);
    assert_eq!(session.get_attribute::<bool>("unused"), None);
    assert_eq!(session.get_attribute::<bool>(""), None);
}

#[test]
fn remove_returns_the_value_once() {
    let mut session = SessionInner::new_at("abc", &never(), at(0, 0));
    session.insert("user", String::from("alice"));
    session.insert("other", 9u32);
    assert_eq!(session.remove("user"), Some(AttributeValue::Text(String::from("alice"))));
    assert_eq!(session.remove("user"), None);
    assert_eq!(session.get_attribute::<String>("user"), None);
    assert_eq!(session.get_attribute::<u32>("other"), Some(&9u32));
    assert_eq!(session.remove("missing"), None);
}

#[test]
fn update_time_at_moves_last_access_and_expiry() {
    let mut session = SessionInner::new_at("abc", &seconds(10), at(100, 0));
    session.update_time_at(at(105, 250));
    assert_eq!(*session.creation_time(), at(100, 0));
    assert_eq!(*session.last_accessed(), at(105, 250));
    assert_eq!(*session.expires(), Expiry::At(at(115, 250)));
    assert!(!session.is_expired_at(&at(115, 249)));
    assert!(session.is_expired_at(&at(115, 250)));
}

#[test]
fn update_time_reads_the_clock() {
    let mut session = SessionInner::new_at("abc", &seconds(10), at(100, 0));
    session.update_time();
    let touched = *session.last_accessed();
    assert!(touched.secs() > 1_600_000_000);
    assert_eq!(*session.expires(), Expiry::At(at(touched.secs() + 10, touched.subsec_nanos())));
    assert_eq!(*session.creation_time(), at(100, 0));
}

#[test]
fn invalidate_expires_at_once() {
    let mut session = SessionInner::new_at("abc", &seconds(3_600), at(100, 0));
    assert!(!session.is_expired_at(&at(100, 0)));
    session.invalidate();
    assert_eq!(*session.expires(), Expiry::At(at(100, 0)));
    assert!(session.is_expired_at(&at(100, 0)));
    assert!(session.is_expired_at(&at(101, 0)));

    let mut forever = SessionInner::new("abc", &never());
    assert!(!forever.is_expired());
    forever.invalidate();
    assert!(forever.is_expired());
}

#[test]
fn invalidated_session_is_not_expired_before_its_creation() {
    let mut session = SessionInner::new_at("abc", &never(), at(100, 0));
    session.invalidate();
    assert!(!session.is_expired_at(&at(99, 999_999_999)));
}

#[test]
fn set_id_changes_only_the_id() {
    let mut session = SessionInner::new_at("abc", &seconds(5), at(100, 0));
    session.insert("n", 1u32);
    session.set_id("rotated");
    assert_eq!(session.id(), "rotated");
    assert_eq!(*session.creation_time(), at(100, 0));
    assert_eq!(*session.expires(), Expiry::At(at(105, 0)));
    assert_eq!(session.get_attribute::<u32>("n"), Some(&1u32));
}

#[test]
fn negative_duration_expires_before_creation() {
    let past = CookieSessionConfig::new("session", Span::new(-2, 500_000_000).unwrap());
    let session = SessionInner::new_at("abc", &past, at(100, 700_000_000));
    assert_eq!(*session.expires(), Expiry::At(at(99, 200_000_000)));
    assert!(session.is_expired_at(&at(100, 700_000_000)));
}

#[test]
fn attribute_kinds_match_their_types() {
    assert_eq!(true.into_any(), AttributeValue::Bool(true));
    assert_eq!(7u32.into_any().kind_of(), AttributeKind::U32);
    assert_eq!(7u64.into_any().kind_of(), AttributeKind::U64);
    assert_eq!((-7i64).into_any().kind_of(), AttributeKind::I64);
    assert_eq!(String::from("x").into_any().kind_of(), AttributeKind::Text);
    assert_eq!(vec![0u8].into_any().kind_of(), AttributeKind::Bytes);
    let stored = String::from("x").into_any();
    assert_eq!(String::downcast_ref(&stored), Some(&String::from("x")));
    assert_eq!(u32::downcast_ref(&stored), None);
    assert_eq!(<Vec<u8>>::downcast_ref(&stored), None);
}

#[test]
fn cookie_config_maps_zero_to_never() {
    assert_eq!(never().expiration_duration(), None);
    assert_eq!(seconds(1).expiration_duration(), Some(Span::new(1, 0).unwrap()));
    let config = CookieSessionConfig::default();
    assert_eq!(config.cookie_name(), "session");
    assert_eq!(config.expiration_duration(), Some(Span::hours(1)));
    assert_eq!(Span::hours(1).secs(), 3_600);
    assert_eq!(CookieSessionConfig::new("sid", Span::zero()).cookie_name(), "sid");
}

#[test]
fn generated_ids_are_alphanumeric() {
    let config = CookieSessionConfig::default();
    let first = config.id_gen();
    let second = config.id_gen();
    assert_eq!(ID_LENGTH, 24);
    assert_eq!(first.chars().count(), 24);
    assert_eq!(second.len(), 24);
    assert!(first.chars().all(|c| c.is_ascii_alphanumeric()));
    assert!(second.chars().all(|c| c.is_ascii_alphanumeric()));
    assert_ne!(first, second);
}
