//! Where the handles of a store are kept: the contract of every backend, and
//! the backend that keeps them in memory.

use crate::clock::utc_now;
use crate::dictionary::Dictionary;
use crate::pool::{expired_in, holds, SessionData, SessionPool};
use crate::record::SessionView;
use crate::time::Instant;
use vstd::prelude::*;

verus! {

/// The identifiers of `sessions` whose record in `pool` has ended at `now`.
pub open spec fn expired_ids(
    sessions: Map<Seq<char>, SessionData>,
    pool: Seq<SessionView>,
    now: int,
) -> Set<Seq<char>> {
    Set::new(|id: Seq<char>| sessions.contains_key(id) && expired_in(pool, sessions[id], now))
}

/// What is left of `sessions` after a sweep at `now`: all but the
/// identifiers whose record has ended, each with its handle.
pub open spec fn swept(
    sessions: Map<Seq<char>, SessionData>,
    pool: Seq<SessionView>,
    now: int,
) -> Map<Seq<char>, SessionData> {
    sessions.remove_keys(expired_ids(sessions, pool, now))
}

/// A sweep parts the identifiers in two: those that have ended, which leave,
/// and the others, which stay with their handles. So the sessions that stay
/// and those that leave together are as many as there were.
pub proof fn lemma_sweep(sessions: Map<Seq<char>, SessionData>, pool: Seq<SessionView>, now: int)
    requires
        sessions.dom().finite(),
    ensures
        forall|id: Seq<char>| #[trigger]
            swept(sessions, pool, now).contains_key(id) <==> sessions.contains_key(id)
                && !expired_in(pool, sessions[id], now),
        forall|id: Seq<char>| #[trigger]
            swept(sessions, pool, now).contains_key(id) ==> swept(sessions, pool, now)[id]
                == sessions[id],
        expired_ids(sessions, pool, now).finite(),
        swept(sessions, pool, now).dom().finite(),
        swept(sessions, pool, now).len() + expired_ids(sessions, pool, now).len()
            == sessions.len(),
{
    let gone = expired_ids(sessions, pool, now);
    let kept = swept(sessions, pool, now).dom();
    vstd::set_lib::lemma_len_subset(gone, sessions.dom());
    vstd::set_lib::lemma_len_subset(kept, sessions.dom());
    vstd::set_lib::lemma_set_disjoint_lens(kept, gone);
    assert(kept + gone =~= sessions.dom());
}

/// The pool after every session behind one of `handles` was ended; the
/// other records are as they were.
pub open spec fn ended_behind(pool: Seq<SessionView>, handles: Set<SessionData>) -> Seq<
    SessionView,
> {
    Seq::new(
        pool.len(),
        |i: int|
            if exists|h: SessionData| handles.contains(h) && h.slot() == i {
                pool[i].invalidated()
            } else {
                pool[i]
            },
    )
}

/// After every session behind one of `handles` was ended, a holder of one
/// of those handles finds its session ended at every time from the record's
/// creation on, and the records behind other handles are as they were.
pub proof fn lemma_ended_behind(
    pool: Seq<SessionView>,
    handles: Set<SessionData>,
    kept: SessionData,
    now: int,
)
    requires
        holds(pool, kept),
    ensures
        ended_behind(pool, handles).len() == pool.len(),
        handles.contains(kept) && now >= pool[kept.slot()].created ==> expired_in(
            ended_behind(pool, handles),
            kept,
            now,
        ),
        (forall|h: SessionData| handles.contains(h) ==> h.slot() != kept.slot()) ==> ended_behind(
            pool,
            handles,
        )[kept.slot()] == pool[kept.slot()],
{
}

/// Whether `handles` holds the handle of each identifier of `sessions`, once
/// for each identifier.
pub open spec fn lists(handles: Seq<SessionData>, sessions: Map<Seq<char>, SessionData>) -> bool {
    exists|ids: Seq<Seq<char>>|
        ids.no_duplicates() && ids.to_set() == sessions.dom() && ids.len() == handles.len()
            && forall|i: int| 0 <= i < ids.len() ==> handles[i] == sessions[#[trigger] ids[i]]
}

/// A store of session handles by identifier. Its view is the map from each
/// identifier to the handle kept under it.
pub trait SessionMap: View<V = Map<Seq<char>, SessionData>> + Send + Sync + 'static {
    /// The handles of all sessions, as they are at the time of the call.
    fn list(&self) -> (r: Vec<SessionData>)
        ensures
            lists(r@, self@),
    ;

    /// The handle kept under `id`, whether or not its session has ended.
    fn get(&self, id: &str) -> (r: Option<SessionData>)
        ensures
            r == if self@.contains_key(id@) {
                Some(self@[id@])
            } else {
                None
            },
    ;

    /// Keeps `session` under `id`, in place of the handle that was there.
    fn insert(&mut self, id: &str, session: SessionData)
        ensures
            final(self)@ == old(self)@.insert(id@, session),
    ;

    /// Drops the handle under `id` and says whether there was one.
    fn remove(&mut self, id: &str) -> (r: bool)
        ensures
            final(self)@ == old(self)@.remove(id@),
            r == old(self)@.contains_key(id@),
    ;

    /// Drops the handles of the sessions that have ended at `now` and says
    /// how many they were.
    fn remove_expired_at(&mut self, pool: &SessionPool, now: &Instant) -> (r: usize)
        ensures
            final(self)@ == swept(old(self)@, pool@, now@),
            expired_ids(old(self)@, pool@, now@).finite(),
            r == expired_ids(old(self)@, pool@, now@).len(),
    ;

    /// Drops the handles of the sessions that have ended at the present
    /// reading of the clock and says how many they were.
    fn remove_expired(&mut self, pool: &SessionPool) -> (r: usize)
        ensures
            exists|now: int|
                Instant::in_clock_range(now) && final(self)@ == swept(old(self)@, pool@, now)
                    && expired_ids(old(self)@, pool@, now).finite() && r == expired_ids(
                    old(self)@,
                    pool@,
                    now,
                ).len(),
    ;

    /// Ends every session kept here, then drops all handles.
    fn clear(&mut self, pool: &mut SessionPool)
        ensures
            final(self)@ == Map::<Seq<char>, SessionData>::empty(),
            final(pool)@ == ended_behind(old(pool)@, old(self)@.values()),
    ;
}

/// The backend that keeps its handles in memory.
pub struct LocalSessionMap {
    sessions: Dictionary<SessionData>,
}

impl View for LocalSessionMap {
    type V = Map<Seq<char>, SessionData>;

    closed spec fn view(&self) -> Map<Seq<char>, SessionData> {
        self.sessions@
    }
}

impl LocalSessionMap {
    #[verifier::type_invariant]
    spec fn inv(self) -> bool {
        self.sessions.wf()
    }

    /// A backend without sessions.
    pub fn new() -> (r: LocalSessionMap)
        ensures
            r@ == Map::<Seq<char>, SessionData>::empty(),
    {
        LocalSessionMap { sessions: Dictionary::new() }
    }
}

/// Ending the session behind one more handle ends what `ended_behind` ends
/// for the larger set.
proof fn lemma_end_one_more(pool: Seq<SessionView>, handles: Set<SessionData>, next: SessionData)
    ensures
        ended_behind(pool, handles.insert(next)) == if holds(pool, next) {
            ended_behind(pool, handles).update(
                next.slot(),
                ended_behind(pool, handles)[next.slot()].invalidated(),
            )
        } else {
            ended_behind(pool, handles)
        },
{
    let before = ended_behind(pool, handles);
    let after = ended_behind(pool, handles.insert(next));
    let wanted = if holds(pool, next) {
        before.update(next.slot(), before[next.slot()].invalidated())
    } else {
        before
    };
    assert forall|i: int| 0 <= i < pool.len() implies after[i] == wanted[i] by {
        if i == next.slot() {
            assert(handles.insert(next).contains(next));
        } else {
            if exists|h: SessionData| handles.insert(next).contains(h) && h.slot() == i {
                let h = choose|h: SessionData| handles.insert(next).contains(h) && h.slot() == i;
                assert(handles.contains(h));
            }
            if exists|h: SessionData| handles.contains(h) && h.slot() == i {
                let h = choose|h: SessionData| handles.contains(h) && h.slot() == i;
                assert(handles.insert(next).contains(h));
            }
        }
    }
    assert(after =~= wanted);
}

impl SessionMap for LocalSessionMap {
    fn list(&self) -> (r: Vec<SessionData>) {
        proof {
            use_type_invariant(self);
            self.sessions.lemma_places();
        }
        let mut handles: Vec<SessionData> = Vec::new();
        let mut i: usize = 0;
        while i < self.sessions.len()
            invariant
                self.sessions.wf(),
                i <= self.sessions.keys().len(),
                handles@ == self.sessions.values().take(i as int),
            decreases self.sessions.keys().len() - i,
        {
            handles.push(*self.sessions.value_at(i));
            assert(handles@ =~= self.sessions.values().take(i + 1));
            i += 1;
        }
        proof {
            let ids = self.sessions.keys();
            assert(handles@ =~= self.sessions.values());
            assert(ids.to_set() == self@.dom());
            assert forall|j: int| 0 <= j < ids.len() implies handles@[j] == self@[#[trigger] ids[j]] by {}
        }
        handles
    }

    fn get(&self, id: &str) -> (r: Option<SessionData>) {
        proof {
            use_type_invariant(self);
        }
        match self.sessions.get(id) {
            Some(data) => Some(*data),
            None => None,
        }
    }

    fn insert(&mut self, id: &str, session: SessionData) {
        proof {
            use_type_invariant(&*self);
        }
        let mut sessions = Dictionary::new();
        std::mem::swap(&mut sessions, &mut self.sessions);
        sessions.insert(id, session);
        self.sessions = sessions;
    }

    fn remove(&mut self, id: &str) -> (r: bool) {
        proof {
            use_type_invariant(&*self);
        }
        let mut sessions = Dictionary::new();
        std::mem::swap(&mut sessions, &mut self.sessions);
        let removed = sessions.remove(id);
        self.sessions = sessions;
        removed.is_some()
    }

    fn remove_expired_at(&mut self, pool: &SessionPool, now: &Instant) -> (r: usize) {
        proof {
            use_type_invariant(&*self);
            self.sessions.lemma_places();
        }
        let mut sessions = Dictionary::new();
        std::mem::swap(&mut sessions, &mut self.sessions);
        let ghost before = sessions@;
        let total = sessions.len();
        let mut removed: usize = 0;
        let mut i: usize = 0;
        while i < sessions.len()
            invariant
                sessions.wf(),
                before.dom().finite(),
                before.len() == total,
                i <= sessions.keys().len(),
                removed + sessions.keys().len() == before.len(),
                forall|id: Seq<char>| #[trigger]
                    sessions@.contains_key(id) ==> before.contains_key(id) && sessions@[id]
                        == before[id],
                forall|id: Seq<char>| #[trigger]
                    before.contains_key(id) && !expired_in(pool@, before[id], now@)
                        ==> sessions@.contains_key(id),
                forall|j: int|
                    0 <= j < i ==> !expired_in(pool@, #[trigger] sessions.values()[j], now@),
            decreases sessions.keys().len() - i,
        {
            proof {
                sessions.lemma_places();
            }
            if pool.is_expired_at(sessions.value_at(i), now) {
                sessions.remove_at(i);
                removed += 1;
            } else {
                i += 1;
            }
        }
        proof {
            sessions.lemma_places();
            assert forall|id: Seq<char>| #[trigger] sessions@.contains_key(id) implies !expired_in(
                pool@,
                before[id],
                now@,
            ) by {
                let j = sessions.keys().index_of(id);
                assert(sessions.values()[j] == sessions@[id]);
            }
            assert(sessions@ =~= swept(before, pool@, now@));
            lemma_sweep(before, pool@, now@);
        }
        self.sessions = sessions;
        removed
    }

    fn remove_expired(&mut self, pool: &SessionPool) -> (r: usize) {
        let now = utc_now();
        let r = self.remove_expired_at(pool, &now);
        assert(Instant::in_clock_range(now@) && self@ == swept(old(self)@, pool@, now@)
            && expired_ids(old(self)@, pool@, now@).finite() && r == expired_ids(
            old(self)@,
            pool@,
            now@,
        ).len());
        r
    }

    fn clear(&mut self, pool: &mut SessionPool) {
        proof {
            use_type_invariant(&*self);
            self.sessions.lemma_places();
        }
        let mut i: usize = 0;
        assert(pool@ =~= ended_behind(old(pool)@, Set::<SessionData>::empty()));
        assert(self.sessions.values().take(0).to_set() =~= Set::<SessionData>::empty());
        while i < self.sessions.len()
            invariant
                self.sessions.wf(),
                i <= self.sessions.keys().len(),
                pool@ == ended_behind(old(pool)@, self.sessions.values().take(i as int).to_set()),
            decreases self.sessions.keys().len() - i,
        {
            let ghost done = self.sessions.values().take(i as int).to_set();
            let data = *self.sessions.value_at(i);
            pool.invalidate(&data);
            proof {
                lemma_end_one_more(old(pool)@, done, data);
                assert(self.sessions.values().take(i + 1).to_set() =~= done.insert(data)) by {
                    let shorter = self.sessions.values().take(i as int);
                    let longer = self.sessions.values().take(i + 1);
                    assert(longer =~= shorter.push(data));
                    assert forall|h: SessionData| longer.to_set().contains(h) implies done.insert(
                        data,
                    ).contains(h) by {
                        let j = choose|j: int| 0 <= j < longer.len() && longer[j] == h;
                        if j < i {
                            assert(shorter[j] == h);
                        }
                    }
                    assert forall|h: SessionData| done.insert(data).contains(
                        h,
                    ) implies longer.to_set().contains(h) by {
                        if h == data {
                            assert(longer[i as int] == h);
                        } else {
                            let j = choose|j: int| 0 <= j < shorter.len() && shorter[j] == h;
                            assert(longer[j] == h);
                        }
                    }
                }
            }
            i += 1;
        }
        proof {
            assert(self.sessions.values().take(i as int) =~= self.sessions.values());
        }
        self.sessions = Dictionary::new();
    }
}

} // verus!
