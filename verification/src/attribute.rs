//! Values that a session can hold, and the types that they stand for.
//!
//! A session keeps its attributes without their static types, as
//! [`AttributeValue`]s. A type that implements [`AsAny`] can be stored as one
//! and found again, and only under its own [`AttributeKind`].

use vstd::prelude::*;

verus! {

/// The type of a stored value, as it is known at run time.
#[derive(Clone, Copy, Debug, PartialEq, Eq, Structural)]
pub enum AttributeKind {
    Bool,
    I64,
    U32,
    U64,
    Text,
    Bytes,
}

/// A value stored without its static type.
#[derive(Debug, PartialEq, Eq)]
pub enum AttributeValue {
    Bool(bool),
    I64(i64),
    U32(u32),
    U64(u64),
    Text(String),
    Bytes(Vec<u8>),
}

impl AttributeValue {
    /// The type of the value held.
    pub open spec fn kind(&self) -> AttributeKind {
        match self {
            AttributeValue::Bool(_) => AttributeKind::Bool,
            AttributeValue::I64(_) => AttributeKind::I64,
            AttributeValue::U32(_) => AttributeKind::U32,
            AttributeValue::U64(_) => AttributeKind::U64,
            AttributeValue::Text(_) => AttributeKind::Text,
            AttributeValue::Bytes(_) => AttributeKind::Bytes,
        }
    }

    /// The type of the value held.
    pub fn kind_of(&self) -> (r: AttributeKind)
        ensures
            r == self.kind(),
    {
        match self {
            AttributeValue::Bool(_) => AttributeKind::Bool,
            AttributeValue::I64(_) => AttributeKind::I64,
            AttributeValue::U32(_) => AttributeKind::U32,
            AttributeValue::U64(_) => AttributeKind::U64,
            AttributeValue::Text(_) => AttributeKind::Text,
            AttributeValue::Bytes(_) => AttributeKind::Bytes,
        }
    }
}

/// A type whose values can be stored without their static type and told
/// apart again at run time.
///
/// `erased` and `recovered` are inverse to each other on the values of the
/// type's own kind, and `recovered` gives nothing on any other value.
pub trait AsAny: Sized {
    /// The kind under which values of this type are stored.
    spec fn kind() -> AttributeKind;

    /// The value without its static type.
    spec fn erased(self) -> AttributeValue;

    /// The typed value that `value` holds, if it holds one of this type.
    spec fn recovered(value: AttributeValue) -> Option<Self>;

    /// A value is stored under the kind of its type and comes back unchanged.
    proof fn lemma_erased(self)
        ensures
            self.erased().kind() == Self::kind(),
            Self::recovered(self.erased()) == Some(self),
    ;

    /// Exactly the values of this type's kind hold a value of this type, and
    /// erasing what was recovered gives the stored value back.
    proof fn lemma_recovered(value: AttributeValue)
        ensures
            Self::recovered(value) is Some <==> value.kind() == Self::kind(),
            Self::recovered(value) matches Some(x) ==> x.erased() == value,
    ;

    /// Gives up the static type.
    fn into_any(self) -> (r: AttributeValue)
        ensures
            r == self.erased(),
    ;

    /// Looks at `value` as a value of this type.
    fn downcast_ref(value: &AttributeValue) -> (r: Option<&Self>)
        ensures
            match r {
                Some(x) => Self::recovered(*value) == Some(*x),
                None => Self::recovered(*value) is None,
            },
    ;
}

/// What a session stores: a value that can be told apart at run time and
/// shared between threads.
pub trait Attribute: AsAny + Send + Sync + 'static {

}

impl<T: AsAny + Send + Sync + 'static> Attribute for T {

}

impl AsAny for bool {
    open spec fn kind() -> AttributeKind {
        AttributeKind::Bool
    }

    open spec fn erased(self) -> AttributeValue {
        AttributeValue::Bool(self)
    }

    open spec fn recovered(value: AttributeValue) -> Option<bool> {
        match value {
            AttributeValue::Bool(x) => Some(x),
            _ => None,
        }
    }

    proof fn lemma_erased(self) {
    }

    proof fn lemma_recovered(value: AttributeValue) {
    }

    fn into_any(self) -> (r: AttributeValue) {
        AttributeValue::Bool(self)
    }

    fn downcast_ref(value: &AttributeValue) -> (r: Option<&bool>) {
        match value {
            AttributeValue::Bool(x) => Some(x),
            _ => None,
        }
    }
}

impl AsAny for i64 {
    open spec fn kind() -> AttributeKind {
        AttributeKind::I64
    }

    open spec fn erased(self) -> AttributeValue {
        AttributeValue::I64(self)
    }

    open spec fn recovered(value: AttributeValue) -> Option<i64> {
        match value {
            AttributeValue::I64(x) => Some(x),
            _ => None,
        }
    }

    proof fn lemma_erased(self) {
    }

    proof fn lemma_recovered(value: AttributeValue) {
    }

    fn into_any(self) -> (r: AttributeValue) {
        AttributeValue::I64(self)
    }

    fn downcast_ref(value: &AttributeValue) -> (r: Option<&i64>) {
        match value {
            AttributeValue::I64(x) => Some(x),
            _ => None,
        }
    }
}

impl AsAny for u32 {
    open spec fn kind() -> AttributeKind {
        AttributeKind::U32
    }

    open spec fn erased(self) -> AttributeValue {
        AttributeValue::U32(self)
    }

    open spec fn recovered(value: AttributeValue) -> Option<u32> {
        match value {
            AttributeValue::U32(x) => Some(x),
            _ => None,
        }
    }

    proof fn lemma_erased(self) {
    }

    proof fn lemma_recovered(value: AttributeValue) {
    }

    fn into_any(self) -> (r: AttributeValue) {
        AttributeValue::U32(self)
    }

    fn downcast_ref(value: &AttributeValue) -> (r: Option<&u32>) {
        match value {
            AttributeValue::U32(x) => Some(x),
            _ => None,
        }
    }
}

impl AsAny for u64 {
    open spec fn kind() -> AttributeKind {
        AttributeKind::U64
    }

    open spec fn erased(self) -> AttributeValue {
        AttributeValue::U64(self)
    }

    open spec fn recovered(value: AttributeValue) -> Option<u64> {
        match value {
            AttributeValue::U64(x) => Some(x),
            _ => None,
        }
    }

    proof fn lemma_erased(self) {
    }

    proof fn lemma_recovered(value: AttributeValue) {
    }

    fn into_any(self) -> (r: AttributeValue) {
        AttributeValue::U64(self)
    }

    fn downcast_ref(value: &AttributeValue) -> (r: Option<&u64>) {
        match value {
            AttributeValue::U64(x) => Some(x),
            _ => None,
        }
    }
}

impl AsAny for String {
    open spec fn kind() -> AttributeKind {
        AttributeKind::Text
    }

    open spec fn erased(self) -> AttributeValue {
        AttributeValue::Text(self)
    }

    open spec fn recovered(value: AttributeValue) -> Option<String> {
        match value {
            AttributeValue::Text(x) => Some(x),
            _ => None,
        }
    }

    proof fn lemma_erased(self) {
    }

    proof fn lemma_recovered(value: AttributeValue) {
    }

    fn into_any(self) -> (r: AttributeValue) {
        AttributeValue::Text(self)
    }

    fn downcast_ref(value: &AttributeValue) -> (r: Option<&String>) {
        match value {
            AttributeValue::Text(x) => Some(x),
            _ => None,
        }
    }
}

impl AsAny for Vec<u8> {
    open spec fn kind() -> AttributeKind {
        AttributeKind::Bytes
    }

    open spec fn erased(self) -> AttributeValue {
        AttributeValue::Bytes(self)
    }

    open spec fn recovered(value: AttributeValue) -> Option<Vec<u8>> {
        match value {
            AttributeValue::Bytes(x) => Some(x),
            _ => None,
        }
    }

    proof fn lemma_erased(self) {
    }

    proof fn lemma_recovered(value: AttributeValue) {
    }

    fn into_any(self) -> (r: AttributeValue) {
        AttributeValue::Bytes(self)
    }

    fn downcast_ref(value: &AttributeValue) -> (r: Option<&Vec<u8>>) {
        match value {
            AttributeValue::Bytes(x) => Some(x),
            _ => None,
        }
    }
}

} // verus!
