//! Points and stretches of time, counted in whole nanoseconds.
//!
//! An [`Instant`] is a point on the UTC time line and a [`Span`] a signed
//! stretch of it. Both are modelled by one mathematical integer, their number
//! of nanoseconds, and every contract in this crate speaks of that integer.
//! An [`Expiry`] says when a session ends, if it ever does.

use vstd::prelude::*;

verus! {

/// Nanoseconds in one second.
pub const NANOS_PER_SEC: u32 = 1_000_000_000;

/// The largest number of whole seconds, in either direction, that a [`Span`] covers.
pub const MAX_SPAN_SECS: i64 = 9_223_372_036_854_775;

/// Every reading of the clock lies less than this many seconds from the epoch.
pub const CLOCK_RANGE_SECS: i64 = 185_604_722_870_400;

/// A point in time: whole seconds since 1970-01-01 00:00:00 UTC and the
/// nanoseconds past that second.
#[derive(Clone, Copy, Debug, PartialEq, Eq, Structural)]
pub struct Instant {
    pub(crate) secs: i64,
    pub(crate) nanos: u32,
}

/// A signed stretch of time: whole seconds, rounded down, and the
/// nanoseconds above them.
#[derive(Clone, Copy, Debug, PartialEq, Eq, Structural)]
pub struct Span {
    secs: i64,
    nanos: u32,
}

/// When a session ends.
#[derive(Clone, Copy, Debug, PartialEq, Eq, Structural)]
pub enum Expiry {
    /// The session does not end by time.
    Never,
    /// The session has ended from this instant on.
    At(Instant),
}

impl View for Instant {
    type V = int;

    /// Nanoseconds since the epoch.
    closed spec fn view(&self) -> int {
        self.secs * 1_000_000_000 + self.nanos
    }
}

impl View for Span {
    type V = int;

    /// Length in nanoseconds.
    closed spec fn view(&self) -> int {
        self.secs * 1_000_000_000 + self.nanos
    }
}

impl View for Expiry {
    type V = Option<int>;

    /// The instant of the end in nanoseconds since the epoch, if there is one.
    open spec fn view(&self) -> Option<int> {
        match *self {
            Expiry::Never => None,
            Expiry::At(t) => Some(t@),
        }
    }
}

/// Whether a session whose end is `expires` has ended at the time `now`:
/// it has an end, and `now` is not before it.
pub open spec fn ended(expires: Option<int>, now: int) -> bool {
    match expires {
        None => false,
        Some(t) => now >= t,
    }
}

impl Instant {
    #[verifier::type_invariant]
    spec fn inv(self) -> bool {
        self.nanos < NANOS_PER_SEC
    }

    /// Whether an [`Instant`] exists that lies `n` nanoseconds from the epoch.
    pub open spec fn representable(n: int) -> bool {
        i64::MIN * 1_000_000_000 <= n < (i64::MAX + 1) * 1_000_000_000
    }

    /// Whether the clock can show the point `n` nanoseconds from the epoch.
    pub open spec fn in_clock_range(n: int) -> bool {
        -CLOCK_RANGE_SECS * 1_000_000_000 <= n < CLOCK_RANGE_SECS * 1_000_000_000
    }

    /// The instant `secs` seconds and `nanos` nanoseconds after the epoch;
    /// none when `nanos` is a whole second or more.
    pub fn new(secs: i64, nanos: u32) -> (r: Option<Instant>)
        ensures
            nanos < NANOS_PER_SEC <==> r is Some,
            r matches Some(t) ==> t@ == secs * 1_000_000_000 + nanos,
    {
        if nanos < NANOS_PER_SEC {
            Some(Instant { secs, nanos })
        } else {
            None
        }
    }

    /// Whole seconds since the epoch, rounded down.
    pub fn secs(&self) -> (r: i64)
        ensures
            r == self@ / 1_000_000_000,
    {
        proof {
            use_type_invariant(self);
        }
        self.secs
    }

    /// Nanoseconds past the whole second.
    pub fn subsec_nanos(&self) -> (r: u32)
        ensures
            r == self@ % 1_000_000_000,
    {
        proof {
            use_type_invariant(self);
        }
        self.nanos
    }

    /// Whether `self` is `other` or later.
    pub fn at_or_after(&self, other: &Instant) -> (r: bool)
        ensures
            r == (self@ >= other@),
    {
        proof {
            use_type_invariant(self);
            use_type_invariant(other);
        }
        self.secs > other.secs || (self.secs == other.secs && self.nanos >= other.nanos)
    }

    /// The instant that lies `span` after `self`. There is one wherever the
    /// sum is representable, and so after every reading of the clock.
    pub fn plus(&self, span: &Span) -> (r: Instant)
        requires
            Instant::representable(self@ + span@) || Instant::in_clock_range(self@),
        ensures
            r@ == self@ + span@,
    {
        proof {
            use_type_invariant(self);
            use_type_invariant(span);
        }
        let nanos: u32 = self.nanos + span.nanos;
        if nanos >= NANOS_PER_SEC {
            Instant { secs: self.secs + (span.secs + 1), nanos: nanos - NANOS_PER_SEC }
        } else {
            Instant { secs: self.secs + span.secs, nanos }
        }
    }
}

impl Span {
    #[verifier::type_invariant]
    spec fn inv(self) -> bool {
        &&& self.nanos < NANOS_PER_SEC
        &&& -MAX_SPAN_SECS <= self.secs <= MAX_SPAN_SECS
    }

    /// Whether a [`Span`] exists that is `n` nanoseconds long.
    pub open spec fn representable(n: int) -> bool {
        -MAX_SPAN_SECS * 1_000_000_000 <= n < (MAX_SPAN_SECS + 1) * 1_000_000_000
    }

    /// The span of `secs` seconds and `nanos` nanoseconds; none when `nanos`
    /// is a whole second or more, or `secs` is beyond [`MAX_SPAN_SECS`].
    pub fn new(secs: i64, nanos: u32) -> (r: Option<Span>)
        ensures
            (nanos < NANOS_PER_SEC && -MAX_SPAN_SECS <= secs <= MAX_SPAN_SECS) <==> r is Some,
            r matches Some(d) ==> d@ == secs * 1_000_000_000 + nanos,
    {
        if nanos < NANOS_PER_SEC && -MAX_SPAN_SECS <= secs && secs <= MAX_SPAN_SECS {
            Some(Span { secs, nanos })
        } else {
            None
        }
    }

    /// The empty span.
    pub fn zero() -> (r: Span)
        ensures
            r@ == 0,
    {
        Span { secs: 0, nanos: 0 }
    }

    /// The span of `hours` hours.
    pub fn hours(hours: u32) -> (r: Span)
        ensures
            r@ == hours * 3_600_000_000_000,
    {
        let secs: i64 = 3600 * (hours as i64);
        Span { secs, nanos: 0 }
    }

    /// Whole seconds, rounded down.
    pub fn secs(&self) -> (r: i64)
        ensures
            r == self@ / 1_000_000_000,
    {
        proof {
            use_type_invariant(self);
        }
        self.secs
    }

    /// Nanoseconds above the whole seconds.
    pub fn subsec_nanos(&self) -> (r: u32)
        ensures
            r == self@ % 1_000_000_000,
    {
        proof {
            use_type_invariant(self);
        }
        self.nanos
    }

    /// Whether the span is empty.
    pub fn is_zero(&self) -> (r: bool)
        ensures
            r == (self@ == 0),
    {
        proof {
            use_type_invariant(self);
        }
        self.secs == 0 && self.nanos == 0
    }
}

impl Expiry {
    /// Whether a session with this end has ended at `now`.
    pub fn is_expired_at(&self, now: &Instant) -> (r: bool)
        ensures
            r == ended(self@, now@),
    {
        match self {
            Expiry::Never => false,
            Expiry::At(t) => now.at_or_after(t),
        }
    }
}

} // verus!
