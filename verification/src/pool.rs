//! The records that handles share.
//!
//! A [`SessionPool`] owns session records, and a [`SessionData`] names one of
//! them. Copies of a handle name the same record, so what one holder changes
//! through the pool every other holder sees. To work on a record a holder
//! borrows the pool, which gives it the record alone for that time.

use crate::record::{SessionInner, SessionView};
use crate::time::Instant;
use vstd::prelude::*;

verus! {

/// A handle to a session record. A copy of it is another holder of the same
/// record, not a copy of the record.
#[derive(Clone, Copy, Debug, PartialEq, Eq, Structural)]
pub struct SessionData {
    slot: usize,
}

/// The records of a store and of its callers, each at a place of its own.
pub struct SessionPool {
    records: Vec<SessionInner>,
}

impl SessionData {
    /// The place of the record in its pool.
    pub closed spec fn slot(&self) -> int {
        self.slot as int
    }
}

impl View for SessionPool {
    type V = Seq<SessionView>;

    /// The records, each at its place.
    closed spec fn view(&self) -> Seq<SessionView> {
        self.records@.map_values(|r: SessionInner| r@)
    }
}

/// Whether a record of `pool` stands behind `data`.
pub open spec fn holds(pool: Seq<SessionView>, data: SessionData) -> bool {
    0 <= data.slot() < pool.len()
}

/// Whether the record behind `data` is there and has ended at `now`.
pub open spec fn expired_in(pool: Seq<SessionView>, data: SessionData, now: int) -> bool {
    holds(pool, data) && pool[data.slot()].is_expired_at(now)
}

impl SessionPool {
    /// A pool without records.
    pub fn new() -> (r: SessionPool)
        ensures
            r@ == Seq::<SessionView>::empty(),
    {
        let r = SessionPool { records: Vec::new() };
        assert(r@ =~= Seq::<SessionView>::empty());
        r
    }

    /// The number of records.
    pub fn len(&self) -> (r: usize)
        ensures
            r == self@.len(),
    {
        self.records.len()
    }

    /// Takes `record` into the pool and hands out the first handle to it.
    pub fn share(&mut self, record: SessionInner) -> (r: SessionData)
        ensures
            final(self)@ == old(self)@.push(record@),
            r.slot() == old(self)@.len(),
    {
        let slot = self.records.len();
        self.records.push(record);
        assert(self@ =~= old(self)@.push(record@));
        SessionData { slot }
    }

    /// Whether a record of this pool stands behind `data`.
    pub fn contains(&self, data: &SessionData) -> (r: bool)
        ensures
            r == holds(self@, *data),
    {
        data.slot < self.records.len()
    }

    /// The record behind `data`, to read.
    pub fn read(&self, data: &SessionData) -> (r: Option<&SessionInner>)
        ensures
            match r {
                Some(record) => holds(self@, *data) && record@ == self@[data.slot()],
                None => !holds(self@, *data),
            },
    {
        if data.slot < self.records.len() {
            Some(&self.records[data.slot])
        } else {
            None
        }
    }

    /// The record behind `data`, alone and to change, for as long as the pool
    /// stays borrowed. What the holder leaves in it is what the pool then
    /// holds at that place; no other record changes.
    pub fn access(&mut self, data: &SessionData) -> (r: Option<&mut SessionInner>)
        ensures
            match r {
                Some(record) => holds(old(self)@, *data) && record@ == old(self)@[data.slot()]
                    && final(self)@ == old(self)@.update(data.slot(), final(record)@),
                None => !holds(old(self)@, *data) && final(self)@ == old(self)@,
            },
    {
        if data.slot < self.records.len() {
            Some(&mut self.records[data.slot])
        } else {
            None
        }
    }

    /// Whether the record behind `data` is there and has ended at `now`.
    pub fn is_expired_at(&self, data: &SessionData, now: &Instant) -> (r: bool)
        ensures
            r == expired_in(self@, *data, now@),
    {
        match self.read(data) {
            Some(record) => record.is_expired_at(now),
            None => false,
        }
    }

    /// Ends the session behind `data`, if it is there: its record has ended
    /// from its creation on. No other record changes.
    pub fn invalidate(&mut self, data: &SessionData)
        ensures
            final(self)@ == if holds(old(self)@, *data) {
                old(self)@.update(data.slot(), old(self)@[data.slot()].invalidated())
            } else {
                old(self)@
            },
    {
        match self.access(data) {
            Some(record) => {
                record.invalidate();
            },
            None => {},
        }
    }
}

} // verus!
