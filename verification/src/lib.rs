//! A server-side session store.
//!
//! A session is a record ([`record::SessionInner`]) with an identifier, the
//! times of its creation and last access, an end ([`time::Expiry`]) and
//! attributes of several types ([`attribute::AttributeValue`]). Records live
//! in a [`pool::SessionPool`]; a [`pool::SessionData`] is a handle to one of
//! them, and every copy of a handle reaches the same record. A backend
//! ([`backend::SessionMap`], in memory [`backend::LocalSessionMap`]) keeps
//! handles by identifier, and the [`store::SessionStore`] in front of it
//! hands them to collaborators wrapped as they wish
//! ([`session::Session`]), leaving out the sessions that have ended.
//!
//! Every function that reads the clock has a twin that takes the time as an
//! argument and whose contract is exact; the one that reads the clock
//! promises what its twin does for some reading.

pub mod attribute;
pub mod backend;
pub mod clock;
pub mod config;
pub mod dictionary;
pub mod pool;
pub mod record;
pub mod session;
pub mod store;
pub mod time;
