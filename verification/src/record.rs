//! The session record: who the session is, when it was made, touched and
//! when it ends, and what it holds.

use crate::attribute::{AsAny, Attribute, AttributeValue};
use crate::clock::utc_now;
use crate::config::SessionConfig;
use crate::dictionary::Dictionary;
use crate::time::{ended, Expiry, Instant, Span};
use vstd::prelude::*;

verus! {

/// What a session record is, as mathematics: times are nanoseconds since the
/// epoch, and `expires` is none for a session that never ends by time.
pub struct SessionView {
    /// The identifier.
    pub id: Seq<char>,
    /// When the record was made.
    pub created: int,
    /// When the record was last touched.
    pub last_accessed: int,
    /// From when on the session has ended; none if it never ends by time.
    pub expires: Option<int>,
    /// The stored values by key.
    pub attributes: Map<Seq<char>, AttributeValue>,
    /// The time to live that the policy gives after each touch, in
    /// nanoseconds; none if sessions of this kind never end by time.
    pub expiration: Option<int>,
}

/// The time to live of a policy in nanoseconds.
pub open spec fn lifetime_of(expiration: Option<Span>) -> Option<int> {
    match expiration {
        Some(d) => Some(d@),
        None => None,
    }
}

impl SessionView {
    /// The end of a session that was touched at `now`, under this policy.
    pub open spec fn end_after(expiration: Option<int>, now: int) -> Option<int> {
        match expiration {
            Some(d) => Some(now + d),
            None => None,
        }
    }

    /// The record of a session made at `now`.
    pub open spec fn opened(id: Seq<char>, expiration: Option<int>, now: int) -> SessionView {
        SessionView {
            id,
            created: now,
            last_accessed: now,
            expires: SessionView::end_after(expiration, now),
            attributes: Map::empty(),
            expiration,
        }
    }

    /// Whether the session has ended at `now`.
    pub open spec fn is_expired_at(self, now: int) -> bool {
        ended(self.expires, now)
    }

    /// The record after a touch at `now`: a policy with a time to live moves
    /// the end; without one the end stays as it is.
    pub open spec fn touched(self, now: int) -> SessionView {
        SessionView {
            last_accessed: now,
            expires: match self.expiration {
                Some(d) => Some(now + d),
                None => self.expires,
            },
            ..self
        }
    }

    /// The record, ended from its creation on.
    pub open spec fn invalidated(self) -> SessionView {
        SessionView { expires: Some(self.created), ..self }
    }

    /// The record under another identifier.
    pub open spec fn renamed(self, id: Seq<char>) -> SessionView {
        SessionView { id, ..self }
    }

    /// The record with `value` stored under `key`.
    pub open spec fn with_attribute(self, key: Seq<char>, value: AttributeValue) -> SessionView {
        SessionView { attributes: self.attributes.insert(key, value), ..self }
    }

    /// The record with nothing stored under `key`.
    pub open spec fn without_attribute(self, key: Seq<char>) -> SessionView {
        SessionView { attributes: self.attributes.remove(key), ..self }
    }

    /// The value stored under `key`, whatever its type.
    pub open spec fn stored(self, key: Seq<char>) -> Option<AttributeValue> {
        if self.attributes.contains_key(key) {
            Some(self.attributes[key])
        } else {
            None
        }
    }

    /// The value of type `T` stored under `key`: none where nothing is
    /// stored there, and none where what is stored is of another type.
    pub open spec fn attribute<T: AsAny>(self, key: Seq<char>) -> Option<T> {
        match self.stored(key) {
            Some(value) => T::recovered(value),
            None => None,
        }
    }
}

impl SessionView {
    /// A session with an end has not ended before that instant and has
    /// ended at it and ever after; a session without one has never ended.
    pub proof fn lemma_expiry(self, now: int)
        ensures
            self.expires matches Some(end) ==> (self.is_expired_at(now) <==> now >= end),
            self.expires is None ==> !self.is_expired_at(now),
    {
    }

    /// Under a policy without a time to live a session has no end when it is
    /// made, and a touch of a session without an end gives it none: time
    /// alone never ends it.
    pub proof fn lemma_never_by_time(self, id: Seq<char>, made: int, now: int, later: int)
        requires
            self.expiration is None,
            self.expires is None,
        ensures
            SessionView::opened(id, None, made).expiration is None,
            SessionView::opened(id, None, made).expires is None,
            self.touched(now).expiration is None,
            self.touched(now).expires is None,
            !self.touched(now).is_expired_at(later),
    {
    }

    /// What was stored under a key is found there under its own type and
    /// under no other, and nothing is found under a key that was not used.
    pub proof fn lemma_insert_then_get<T: AsAny, U: AsAny>(
        self,
        key: Seq<char>,
        value: T,
        unused: Seq<char>,
    )
        requires
            !self.attributes.contains_key(unused),
            unused != key,
        ensures
            self.with_attribute(key, value.erased()).attribute::<T>(key) == Some(value),
            U::kind() != T::kind() ==> self.with_attribute(key, value.erased()).attribute::<U>(
                key,
            ) is None,
            self.attribute::<T>(unused) is None,
            self.with_attribute(key, value.erased()).attribute::<T>(unused) is None,
    {
        value.lemma_erased();
        U::lemma_recovered(value.erased());
    }

    /// Taking out a key that is there gives the value stored under it, and
    /// taking it out once more gives nothing.
    pub proof fn lemma_remove_once(self, key: Seq<char>)
        requires
            self.attributes.contains_key(key),
        ensures
            self.stored(key) == Some(self.attributes[key]),
            self.without_attribute(key).stored(key) is None,
            self.without_attribute(key).without_attribute(key) == self.without_attribute(key),
    {
        assert(self.attributes.remove(key).remove(key) =~= self.attributes.remove(key));
    }

    /// A touch sets the time of the last access to the time of the touch,
    /// which moves it forward where the touch is later than the last one;
    /// under a policy with a time to live the session then ends that long
    /// after the touch.
    pub proof fn lemma_touch(self, now: int)
        ensures
            self.touched(now).last_accessed == now,
            now > self.last_accessed ==> self.touched(now).last_accessed > self.last_accessed,
            self.expiration matches Some(d) ==> self.touched(now).expires == Some(
                self.touched(now).last_accessed + d,
            ),
    {
    }

    /// A session that was ended by hand has ended at every time from its
    /// creation on, whatever its policy.
    pub proof fn lemma_invalidated(self, now: int)
        requires
            now >= self.created,
        ensures
            self.invalidated().is_expired_at(now),
    {
    }
}

/// A session record. It keeps no lock of its own: whoever works on it holds
/// it alone. Of its policy it keeps the time to live, as the policy gave it
/// when the record was made.
pub struct SessionInner {
    id: String,
    created: Instant,
    last_accessed: Instant,
    expires: Expiry,
    attributes: Dictionary<AttributeValue>,
    expiration: Option<Span>,
}

impl View for SessionInner {
    type V = SessionView;

    closed spec fn view(&self) -> SessionView {
        SessionView {
            id: self.id@,
            created: self.created@,
            last_accessed: self.last_accessed@,
            expires: self.expires@,
            attributes: self.attributes@,
            expiration: lifetime_of(self.expiration),
        }
    }
}

impl SessionInner {
    #[verifier::type_invariant]
    spec fn inv(self) -> bool {
        self.attributes.wf()
    }

    /// A new record for the session `id` under the policy `config`, made at
    /// the present reading of the clock.
    pub fn new<C: SessionConfig>(id: &str, config: &C) -> (r: SessionInner)
        ensures
            Instant::in_clock_range(r@.created),
            r@ == SessionView::opened(id@, lifetime_of(config.expiration()), r@.created),
    {
        let now = utc_now();
        SessionInner::new_at(id, config, now)
    }

    /// A new record for the session `id` under the policy `config`, made at `now`.
    pub fn new_at<C: SessionConfig>(id: &str, config: &C, now: Instant) -> (r: SessionInner)
        requires
            config.expiration() matches Some(d) ==> Instant::representable(now@ + d@)
                || Instant::in_clock_range(now@),
        ensures
            r@ == SessionView::opened(id@, lifetime_of(config.expiration()), now@),
    {
        let expiration = config.expiration_duration();
        let expires = match expiration {
            Some(duration) => Expiry::At(now.plus(&duration)),
            None => Expiry::Never,
        };
        SessionInner {
            id: id.to_owned(),
            created: now,
            last_accessed: now,
            expires,
            attributes: Dictionary::new(),
            expiration,
        }
    }

    /// The identifier.
    pub fn id(&self) -> (r: &str)
        ensures
            r@ == self@.id,
    {
        self.id.as_str()
    }

    /// Gives the session another identifier.
    pub fn set_id(&mut self, new_id: &str)
        ensures
            final(self)@ == old(self)@.renamed(new_id@),
    {
        proof {
            use_type_invariant(&*self);
        }
        self.id = new_id.to_owned();
    }

    /// When the record was made.
    pub fn creation_time(&self) -> (r: &Instant)
        ensures
            r@ == self@.created,
    {
        &self.created
    }

    /// When the record was last touched.
    pub fn last_accessed(&self) -> (r: &Instant)
        ensures
            r@ == self@.last_accessed,
    {
        &self.last_accessed
    }

    /// From when on the session has ended, if it ever does.
    pub fn expires(&self) -> (r: &Expiry)
        ensures
            r@ == self@.expires,
    {
        &self.expires
    }

    /// Whether the session has ended at the present reading of the clock.
    pub fn is_expired(&self) -> (r: bool)
        ensures
            exists|now: int| Instant::in_clock_range(now) && r == self@.is_expired_at(now),
    {
        let now = utc_now();
        let r = self.is_expired_at(&now);
        assert(Instant::in_clock_range(now@) && r == self@.is_expired_at(now@));
        r
    }

    /// Whether the session has ended at `now`.
    pub fn is_expired_at(&self, now: &Instant) -> (r: bool)
        ensures
            r == self@.is_expired_at(now@),
    {
        self.expires.is_expired_at(now)
    }

    /// Touches the record at the present reading of the clock.
    pub fn update_time(&mut self)
        ensures
            Instant::in_clock_range(final(self)@.last_accessed),
            final(self)@ == old(self)@.touched(final(self)@.last_accessed),
    {
        let now = utc_now();
        self.update_time_at(now);
    }

    /// Touches the record at `now`.
    pub fn update_time_at(&mut self, now: Instant)
        requires
            old(self)@.expiration matches Some(d) ==> Instant::representable(now@ + d)
                || Instant::in_clock_range(now@),
        ensures
            final(self)@ == old(self)@.touched(now@),
    {
        proof {
            use_type_invariant(&*self);
        }
        self.last_accessed = now;
        if let Some(duration) = self.expiration {
            self.expires = Expiry::At(now.plus(&duration));
        }
    }

    /// Ends the session: it has ended from its creation on.
    pub fn invalidate(&mut self)
        ensures
            final(self)@ == old(self)@.invalidated(),
    {
        proof {
            use_type_invariant(&*self);
        }
        self.expires = Expiry::At(self.created);
    }

    /// Stores `attribute` under `key`, in place of what was there.
    pub fn insert<T: Attribute>(&mut self, key: &str, attribute: T)
        ensures
            final(self)@ == old(self)@.with_attribute(key@, attribute.erased()),
    {
        proof {
            use_type_invariant(&*self);
        }
        let mut attributes = Dictionary::new();
        std::mem::swap(&mut attributes, &mut self.attributes);
        attributes.insert(key, attribute.into_any());
        self.attributes = attributes;
    }

    /// Takes out what is stored under `key` and hands it back.
    pub fn remove(&mut self, key: &str) -> (r: Option<AttributeValue>)
        ensures
            final(self)@ == old(self)@.without_attribute(key@),
            r == old(self)@.stored(key@),
    {
        proof {
            use_type_invariant(&*self);
        }
        let mut attributes = Dictionary::new();
        std::mem::swap(&mut attributes, &mut self.attributes);
        let r = attributes.remove(key);
        self.attributes = attributes;
        r
    }

    /// The value of type `T` stored under `key`; none where nothing is stored
    /// there or what is stored is of another type.
    pub fn get_attribute<T: Attribute>(&self, key: &str) -> (r: Option<&T>)
        ensures
            match r {
                Some(x) => self@.attribute::<T>(key@) == Some(*x),
                None => self@.attribute::<T>(key@) is None,
            },
    {
        proof {
            use_type_invariant(self);
        }
        match self.attributes.get(key) {
            Some(data) => T::downcast_ref(data),
            None => None,
        }
    }
}

} // verus!
