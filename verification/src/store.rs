//! The one door through which collaborators reach sessions.

use crate::backend::{ended_behind, expired_ids, lists, swept, LocalSessionMap, SessionMap};
use crate::clock::utc_now;
use crate::pool::{holds, SessionData, SessionPool};
use crate::record::SessionView;
use crate::session::Session;
use crate::time::Instant;
use vstd::prelude::*;

verus! {

/// Whether a session is kept under `id` whose record is in `pool` and has
/// not ended at `now`.
pub open spec fn live(
    sessions: Map<Seq<char>, SessionData>,
    pool: Seq<SessionView>,
    id: Seq<char>,
    now: int,
) -> bool {
    &&& sessions.contains_key(id)
    &&& holds(pool, sessions[id])
    &&& !pool[sessions[id].slot()].is_expired_at(now)
}

/// Whether `found` is what asking for `id` at `now` gives: the wrapped
/// handle of a live session, and nothing otherwise.
pub open spec fn answers<T: Session>(
    found: Option<T>,
    sessions: Map<Seq<char>, SessionData>,
    pool: Seq<SessionView>,
    id: Seq<char>,
    now: int,
) -> bool {
    match found {
        Some(session) => live(sessions, pool, id, now) && session.data() == sessions[id],
        None => !live(sessions, pool, id, now),
    }
}

/// A store of sessions over the backend `M`. Its view is that of the backend:
/// the map from each identifier to the handle kept under it.
pub struct SessionStore<M: SessionMap> {
    inner: M,
}

impl<M: SessionMap> View for SessionStore<M> {
    type V = Map<Seq<char>, SessionData>;

    closed spec fn view(&self) -> Map<Seq<char>, SessionData> {
        self.inner@
    }
}

impl<M: SessionMap> SessionStore<M> {
    /// A store that keeps its sessions in `map`.
    pub fn new(map: M) -> (r: SessionStore<M>)
        ensures
            r@ == map@,
    {
        SessionStore { inner: map }
    }

    /// The handles of all sessions, as they are at the time of the call.
    pub fn list(&self) -> (r: Vec<SessionData>)
        ensures
            lists(r@, self@),
    {
        self.inner.list()
    }

    /// The session kept under `id`, wrapped for the caller, unless it has
    /// ended at the present reading of the clock.
    pub fn get<T: Session>(&self, pool: &SessionPool, id: &str) -> (r: Option<T>)
        ensures
            exists|now: int| Instant::in_clock_range(now) && answers(r, self@, pool@, id@, now),
    {
        let now = utc_now();
        let r = self.get_at::<T>(pool, id, &now);
        assert(Instant::in_clock_range(now@) && answers(r, self@, pool@, id@, now@));
        r
    }

    /// The session kept under `id`, wrapped for the caller, unless it has
    /// ended at `now`. A session that has ended is not found, though the
    /// backend still keeps its handle.
    pub fn get_at<T: Session>(&self, pool: &SessionPool, id: &str, now: &Instant) -> (r: Option<T>)
        ensures
            answers(r, self@, pool@, id@, now@),
    {
        match self.inner.get(id) {
            Some(data) => match pool.read(&data) {
                Some(record) => {
                    if record.is_expired_at(now) {
                        None
                    } else {
                        Some(T::from_data(data))
                    }
                },
                None => None,
            },
            None => None,
        }
    }

    /// Keeps the session under `id`, in place of the one that was there.
    pub fn insert<T: Session>(&mut self, id: &str, session: &T)
        ensures
            final(self)@ == old(self)@.insert(id@, session.data()),
    {
        self.inner.insert(id, *session.data_ref());
    }

    /// Drops the session under `id` and says whether there was one.
    pub fn remove(&mut self, id: &str) -> (r: bool)
        ensures
            final(self)@ == old(self)@.remove(id@),
            r == old(self)@.contains_key(id@),
    {
        self.inner.remove(id)
    }

    /// Drops the sessions that have ended at `now` and says how many they were.
    pub fn remove_expired_at(&mut self, pool: &SessionPool, now: &Instant) -> (r: usize)
        ensures
            final(self)@ == swept(old(self)@, pool@, now@),
            expired_ids(old(self)@, pool@, now@).finite(),
            r == expired_ids(old(self)@, pool@, now@).len(),
    {
        self.inner.remove_expired_at(pool, now)
    }

    /// Drops the sessions that have ended at the present reading of the
    /// clock and says how many they were.
    pub fn remove_expired(&mut self, pool: &SessionPool) -> (r: usize)
        ensures
            exists|now: int|
                Instant::in_clock_range(now) && final(self)@ == swept(old(self)@, pool@, now)
                    && expired_ids(old(self)@, pool@, now).finite() && r == expired_ids(
                    old(self)@,
                    pool@,
                    now,
                ).len(),
    {
        self.inner.remove_expired(pool)
    }

    /// Ends every session of the store, then drops them all.
    pub fn clear(&mut self, pool: &mut SessionPool)
        ensures
            final(self)@ == Map::<Seq<char>, SessionData>::empty(),
            final(pool)@ == ended_behind(old(pool)@, old(self)@.values()),
    {
        self.inner.clear(pool);
    }
}

impl Default for SessionStore<LocalSessionMap> {
    /// A store that keeps its sessions in memory.
    fn default() -> (r: SessionStore<LocalSessionMap>)
        ensures
            r@ == Map::<Seq<char>, SessionData>::empty(),
    {
        SessionStore::new(LocalSessionMap::new())
    }
}

} // verus!
