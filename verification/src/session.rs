//! What a collaborator holds of a session: a wrapper around its handle.

use crate::backend::SessionMap;
use crate::clock::utc_now;
use crate::config::SessionConfig;
use crate::pool::{holds, SessionData, SessionPool};
use crate::record::{lifetime_of, SessionInner, SessionView};
use crate::store::{live, SessionStore};
use crate::time::Instant;
use vstd::prelude::*;

verus! {

/// A wrapper around the handle of a session, as a collaborator hands it to
/// its callers. The store makes one from a handle and takes the handle back
/// out of one; the wrapper gives access to the record for the time of a
/// borrow, and ends the session.
pub trait Session: Sized {
    /// The handle inside.
    spec fn data(&self) -> SessionData;

    /// Wraps a handle.
    fn from_data(data: SessionData) -> (r: Self)
        ensures
            r.data() == data,
    ;

    /// The handle inside.
    fn data_ref(&self) -> (r: &SessionData)
        ensures
            *r == self.data(),
    ;

    /// The record of the session, alone and to change, for as long as the
    /// pool stays borrowed; none where the pool has no record for it.
    fn access<'a>(&self, pool: &'a mut SessionPool) -> (r: Option<&'a mut SessionInner>)
        ensures
            match r {
                Some(record) => holds(old(pool)@, self.data()) && record@ == old(pool)@[self.data().slot()]
                    && final(pool)@ == old(pool)@.update(self.data().slot(), final(record)@),
                None => !holds(old(pool)@, self.data()) && final(pool)@ == old(pool)@,
            },
    {
        pool.access(self.data_ref())
    }

    /// Ends the session: its record has ended from its creation on.
    fn invalidate(&mut self, pool: &mut SessionPool)
        ensures
            final(self).data() == old(self).data(),
            final(pool)@ == if holds(old(pool)@, old(self).data()) {
                old(pool)@.update(
                    old(self).data().slot(),
                    old(pool)@[old(self).data().slot()].invalidated(),
                )
            } else {
                old(pool)@
            },
    {
        pool.invalidate(self.data_ref());
    }
}

/// The session of a client that names it by a cookie.
#[derive(Clone, Copy, Debug, PartialEq, Eq, Structural)]
pub struct CookieSession {
    data: SessionData,
}

impl Session for CookieSession {
    closed spec fn data(&self) -> SessionData {
        self.data
    }

    fn from_data(data: SessionData) -> (r: CookieSession) {
        CookieSession { data }
    }

    fn data_ref(&self) -> (r: &SessionData) {
        &self.data
    }
}

/// Whether a request that came with `cookie` goes on with the session that
/// the cookie names: there is a cookie, and the session under its value is
/// live at `now`.
pub open spec fn resumes(
    cookie: Option<&str>,
    sessions: Map<Seq<char>, SessionData>,
    pool: Seq<SessionView>,
    now: int,
) -> bool {
    match cookie {
        Some(id) => live(sessions, pool, id@, now),
        None => false,
    }
}

/// Whether `found` and the store and pool after it are what a request with
/// `cookie` at `now` gives. Where the cookie names a live session, that
/// session is found and nothing changes. Otherwise a session is made at `now`
/// under a new identifier, which is handed back for a cookie to carry: its
/// record is the last of the pool, and the store keeps its handle under the
/// new identifier.
pub open spec fn serves(
    found: (CookieSession, Option<String>),
    cookie: Option<&str>,
    expiration: Option<int>,
    now: int,
    sessions: Map<Seq<char>, SessionData>,
    pool: Seq<SessionView>,
    sessions_after: Map<Seq<char>, SessionData>,
    pool_after: Seq<SessionView>,
) -> bool {
    if resumes(cookie, sessions, pool, now) {
        &&& found.1 is None
        &&& found.0.data() == sessions[cookie->0@]
        &&& sessions_after == sessions
        &&& pool_after == pool
    } else {
        &&& found.1 is Some
        &&& found.0.data().slot() == pool.len()
        &&& pool_after == pool.push(SessionView::opened(found.1->0@, expiration, now))
        &&& sessions_after == sessions.insert(found.1->0@, found.0.data())
    }
}

impl CookieSession {
    /// The session of a request that came with `cookie`, at `now`: the one
    /// that the cookie names if it is live, else a new one under an
    /// identifier that the policy makes.
    pub fn from_cookie_at<M: SessionMap, C: SessionConfig>(
        store: &mut SessionStore<M>,
        pool: &mut SessionPool,
        config: &C,
        cookie: Option<&str>,
        now: Instant,
    ) -> (r: (CookieSession, Option<String>))
        requires
            config.expiration() matches Some(d) ==> Instant::representable(now@ + d@)
                || Instant::in_clock_range(now@),
        ensures
            serves(
                r,
                cookie,
                lifetime_of(config.expiration()),
                now@,
                old(store)@,
                old(pool)@,
                final(store)@,
                final(pool)@,
            ),
    {
        if let Some(id) = cookie {
            if let Some(session) = store.get_at::<CookieSession>(pool, id, &now) {
                return (session, None);
            }
        }
        let id = config.id_gen();
        let record = SessionInner::new_at(id.as_str(), config, now);
        let session = CookieSession { data: pool.share(record) };
        store.insert(id.as_str(), &session);
        (session, Some(id))
    }

    /// The session of a request that came with `cookie`, at the present
    /// reading of the clock.
    pub fn from_cookie<M: SessionMap, C: SessionConfig>(
        store: &mut SessionStore<M>,
        pool: &mut SessionPool,
        config: &C,
        cookie: Option<&str>,
    ) -> (r: (CookieSession, Option<String>))
        ensures
            exists|now: int|
                Instant::in_clock_range(now) && serves(
                    r,
                    cookie,
                    lifetime_of(config.expiration()),
                    now,
                    old(store)@,
                    old(pool)@,
                    final(store)@,
                    final(pool)@,
                ),
    {
        let now = utc_now();
        let r = CookieSession::from_cookie_at(store, pool, config, cookie, now);
        assert(Instant::in_clock_range(now@) && serves(
            r,
            cookie,
            lifetime_of(config.expiration()),
            now@,
            old(store)@,
            old(pool)@,
            store@,
            pool@,
        ));
        r
    }
}

} // verus!
