use sessions::backend::{LocalSessionMap, SessionMap};
use sessions::config::CookieSessionConfig;
use sessions::pool::{SessionData, SessionPool};
use sessions::record::SessionInner;
use sessions::session::{CookieSession, Session};
use sessions::store::SessionStore;
use sessions::time::{Expiry, Instant, Span};

fn at(secs: i64, nanos: u32) -> Instant {
    Instant::new(secs, nanos).unwrap()
}

fn seconds(n: i64) -> CookieSessionConfig {
    CookieSessionConfig::new("session", Span::new(n, 0).unwrap())
}

fn never() -> CookieSessionConfig {
    CookieSessionConfig::new("session", Span::zero())
}

fn share(pool: &mut SessionPool, id: &str, config: &CookieSessionConfig, now: Instant) -> SessionData {
    pool.share(SessionInner::new_at(id, config, now))
}

#[test]
fn expired_session_is_absent_from_the_store_but_kept_by_the_backend() {
    let mut pool = SessionPool::new();
    let mut store = SessionStore::new(LocalSessionMap::new());
    let data = share(&mut pool, "x", &seconds(1), at(100, 0));
    store.insert("x", &CookieSession::from_data(data));
    let early = store.get_at::<CookieSession>(&pool, "x", &at(100, 500_000_000));
    assert_eq!(early, Some(CookieSession::from_data(data)));
    let late = store.get_at::<CookieSession>(&pool, "x", &at(102, 0));
    assert_eq!(late, None);
    assert_eq!(store.list(), vec![data]);

    let mut backend = LocalSessionMap::new();
    backend.insert("x", data);
    assert_eq!(backend.get("x"), Some(data));
    assert!(pool.is_expired_at(&data, &at(102, 0)));
}

#[test]
fn store_get_reads_the_clock() {
    let mut pool = SessionPool::new();
    let mut store: SessionStore<LocalSessionMap> = SessionStore::default();
    let stale = share(&mut pool, "old", &seconds(1), at(100, 0));
    let fresh = pool.share(SessionInner::new("new", &seconds(3_600)));
    let forever = share(&mut pool, "ever", &never(), at(100, 0));
    store.insert("old", &CookieSession::from_data(stale));
    store.insert("new", &CookieSession::from_data(fresh));
    store.insert("ever", &CookieSession::from_data(forever));
    assert_eq!(store.get::<CookieSession>(&pool, "old"), None);
    assert_eq!(store.get::<CookieSession>(&pool, "new"), Some(CookieSession::from_data(fresh)));
    assert_eq!(store.get::<CookieSession>(&pool, "ever"), Some(CookieSession::from_data(forever)));
    assert_eq!(store.get::<CookieSession>(&pool, "none"), None);
    assert_eq!(store.remove_expired(&pool), 1);
    assert_eq!(store.list(), vec![fresh, forever]);
}

#[test]
fn backend_get_insert_remove() {
    let mut pool = SessionPool::new();
    let a = share(&mut pool, "a", &never(), at(0, 0));
    let b = share(&mut pool, "b", &never(), at(0, 0));
    let mut backend = LocalSessionMap::new();
    assert_eq!(backend.get("a"), None);
    assert!(backend.list().is_empty());
    backend.insert("a", a);
    backend.insert("b", b);
    assert_eq!(backend.get("a"), Some(a));
    assert_eq!(backend.get("b"), Some(b));
    assert_eq!(backend.list(), vec![a, b]);
    backend.insert("a", b);
    assert_eq!(backend.get("a"), Some(b));
    assert_eq!(backend.list(), vec![b, b]);
    assert!(backend.remove("a"));
    assert!(!backend.remove("a"));
    assert_eq!(backend.get("a"), None);
    assert_eq!(backend.list(), vec![b]);
    assert!(pool.read(&a).is_some());
}

#[test]
fn remove_expired_removes_exactly_the_expired() {
    let mut pool = SessionPool::new();
    let mut backend = LocalSessionMap::new();
    let one = share(&mut pool, "one", &seconds(1), at(100, 0));
    let ten = share(&mut pool, "ten", &seconds(10), at(100, 0));
    let two = share(&mut pool, "two", &seconds(2), at(100, 0));
    let ever = share(&mut pool, "ever", &never(), at(100, 0));
    backend.insert("one", one);
    backend.insert("ten", ten);
    backend.insert("two", two);
    backend.insert("ever", ever);
    assert_eq!(backend.remove_expired_at(&pool, &at(100, 999_999_999)), 0);
    assert_eq!(backend.list(), vec![one, ten, two, ever]);
    assert_eq!(backend.remove_expired_at(&pool, &at(102, 0)), 2);
    assert_eq!(backend.list(), vec![ten, ever]);
    assert_eq!(backend.get("one"), None);
    assert_eq!(backend.get("two"), None);
    assert_eq!(backend.get("ten"), Some(ten));
    assert_eq!(backend.get("ever"), Some(ever));
    assert_eq!(backend.remove_expired_at(&pool, &at(102, 0)), 0);
    assert_eq!(backend.remove_expired_at(&pool, &at(1_000_000, 0)), 1);
    assert_eq!(backend.list(), vec![ever]);
}

#[test]
fn remove_expired_on_an_empty_backend() {
    let pool = SessionPool::new();
    let mut backend = LocalSessionMap::new();
    assert_eq!(backend.remove_expired_at(&pool, &at(0, 0)), 0);
    assert_eq!(backend.remove_expired(&pool), 0);
}

#[test]
fn remove_expired_keeps_handles_without_a_record() {
    let mut other = SessionPool::new();
    let stray = share(&mut other, "stray", &seconds(1), at(0, 0));
    let pool = SessionPool::new();
    let mut backend = LocalSessionMap::new();
    backend.insert("stray", stray);
    assert_eq!(backend.remove_expired_at(&pool, &at(100, 0)), 0);
    assert_eq!(backend.get("stray"), Some(stray));
    let store = SessionStore::new(backend);
    assert_eq!(store.get_at::<CookieSession>(&pool, "stray", &at(0, 0)), None);
}

#[test]
fn clear_invalidates_every_session_and_empties_the_store() {
    let mut pool = SessionPool::new();
    let mut store = SessionStore::new(LocalSessionMap::new());
    let kept = share(&mut pool, "kept", &never(), at(100, 0));
    let timed = share(&mut pool, "timed", &seconds(3_600), at(200, 0));
    let outside = share(&mut pool, "outside", &never(), at(300, 0));
    store.insert("kept", &CookieSession::from_data(kept));
    store.insert("timed", &CookieSession::from_data(timed));
    store.clear(&mut pool);
    assert!(store.list().is_empty());
    assert_eq!(store.get_at::<CookieSession>(&pool, "kept", &at(100, 0)), None);
    assert!(pool.is_expired_at(&kept, &at(100, 0)));
    assert!(pool.is_expired_at(&timed, &at(200, 0)));
    assert_eq!(*pool.read(&kept).unwrap().expires(), Expiry::At(at(100, 0)));
    assert_eq!(*pool.read(&timed).unwrap().expires(), Expiry::At(at(200, 0)));
    assert!(!pool.is_expired_at(&outside, &at(1_000_000, 0)));
    assert_eq!(*pool.read(&outside).unwrap().expires(), Expiry::Never);
}

#[test]
fn handles_share_one_record() {
    let mut pool = SessionPool::new();
    let first = share(&mut pool, "abc", &never(), at(0, 0));
    let second = first;
    let session = CookieSession::from_data(first);
    session.access(&mut pool).unwrap().insert("n", 5u32);
    assert_eq!(pool.read(&second).unwrap().get_attribute::<u32>("n"), Some(&5u32));
    let mut other = CookieSession::from_data(second);
    other.invalidate(&mut pool);
    assert!(pool.is_expired_at(&first, &at(0, 0)));
    assert_eq!(session.data_ref(), other.data_ref());
}

#[test]
fn many_insertions_under_distinct_keys_are_all_visible() {
    let mut pool = SessionPool::new();
    let data = share(&mut pool, "abc", &never(), at(0, 0));
    let holders = vec![CookieSession::from_data(data); 50];
    for (n, holder) in holders.iter().enumerate() {
        let key = format!("key{}", n);
        holder.access(&mut pool).unwrap().insert(key.as_str(), n as u64);
    }
    for n in 0..50usize {
        let key = format!("key{}", n);
        let record = pool.read(&data).unwrap();
        assert_eq!(record.get_attribute::<u64>(key.as_str()), Some(&(n as u64)));
    }
}

#[test]
fn pool_gives_nothing_for_a_handle_of_another_pool() {
    let mut big = SessionPool::new();
    share(&mut big, "a", &never(), at(0, 0));
    let second = share(&mut big, "b", &never(), at(0, 0));
    let mut small = SessionPool::new();
    assert_eq!(small.len(), 0);
    assert_eq!(big.len(), 2);
    assert!(big.contains(&second));
    assert!(!small.contains(&second));
    assert!(small.read(&second).is_none());
    assert!(small.access(&second).is_none());
    assert!(!small.is_expired_at(&second, &at(i64::MAX, 0)));
    small.invalidate(&second);
    assert_eq!(small.len(), 0);
}

#[test]
fn store_insert_and_remove() {
    let mut pool = SessionPool::new();
    let mut store = SessionStore::new(LocalSessionMap::new());
    let a = share(&mut pool, "a", &never(), at(0, 0));
    store.insert("a", &CookieSession::from_data(a));
    assert!(store.remove("a"));
    assert!(!store.remove("a"));
    assert_eq!(store.get_at::<CookieSession>(&pool, "a", &at(0, 0)), None);
    assert_eq!(store.remove_expired_at(&pool, &at(0, 0)), 0);
}

#[test]
fn request_without_cookie_opens_a_session() {
    let mut pool = SessionPool::new();
    let mut store = SessionStore::new(LocalSessionMap::new());
    let config = seconds(60);
    let (session, issued) =
        CookieSession::from_cookie_at(&mut store, &mut pool, &config, None, at(100, 0));
    let id = issued.unwrap();
    assert_eq!(id.len(), 24);
    assert_eq!(pool.len(), 1);
    assert_eq!(store.list(), vec![*session.data_ref()]);
    let record = pool.read(session.data_ref()).unwrap();
    assert_eq!(record.id(), id.as_str());
    assert_eq!(*record.creation_time(), at(100, 0));
    assert_eq!(*record.expires(), Expiry::At(at(160, 0)));
    assert_eq!(
        store.get_at::<CookieSession>(&pool, id.as_str(), &at(100, 0)),
        Some(session)
    );
}

#[test]
fn request_with_a_live_cookie_resumes_its_session() {
    let mut pool = SessionPool::new();
    let mut store = SessionStore::new(LocalSessionMap::new());
    let config = seconds(60);
    let (first, issued) =
        CookieSession::from_cookie_at(&mut store, &mut pool, &config, None, at(100, 0));
    let id = issued.unwrap();
    let (again, none) = CookieSession::from_cookie_at(
        &mut store,
        &mut pool,
        &config,
        Some(id.as_str()),
        at(159, 999_999_999),
    );
    assert_eq!(again, first);
    assert_eq!(none, None);
    assert_eq!(pool.len(), 1);
}

#[test]
fn request_with_a_stale_or_unknown_cookie_opens_a_new_session() {
    let mut pool = SessionPool::new();
    let mut store = SessionStore::new(LocalSessionMap::new());
    let config = seconds(60);
    let (first, issued) =
        CookieSession::from_cookie_at(&mut store, &mut pool, &config, None, at(100, 0));
    let id = issued.unwrap();
    let (second, reissued) =
        CookieSession::from_cookie_at(&mut store, &mut pool, &config, Some(id.as_str()), at(160, 0));
    let new_id = reissued.unwrap();
    assert_ne!(second, first);
    assert_ne!(new_id, id);
    assert_eq!(pool.len(), 2);
    assert_eq!(store.list(), vec![*first.data_ref(), *second.data_ref()]);
    let (third, fresh) =
        CookieSession::from_cookie_at(&mut store, &mut pool, &config, Some("unknown"), at(160, 0));
    assert!(fresh.is_some());
    assert_eq!(pool.len(), 3);
    assert_eq!(pool.read(third.data_ref()).unwrap().id(), fresh.unwrap().as_str());
}

#[test]
fn request_reads_the_clock() {
    let mut pool = SessionPool::new();
    let mut store = SessionStore::new(LocalSessionMap::new());
    let config = CookieSessionConfig::default();
    let (first, issued) = CookieSession::from_cookie(&mut store, &mut pool, &config, None);
    let id = issued.unwrap();
    let (again, none) =
        CookieSession::from_cookie(&mut store, &mut pool, &config, Some(id.as_str()));
    assert_eq!(again, first);
    assert_eq!(none, None);
    assert!(pool.read(first.data_ref()).unwrap().creation_time().secs() > 1_600_000_000);
}
