//! What a collaborator settles for its sessions: how long they live and how
//! their identifiers are made.

use crate::time::Span;
use rand::Rng;
use vstd::prelude::*;

verus! {

/// The number of characters in an identifier made by [`CookieSessionConfig`].
pub const ID_LENGTH: usize = 24;

/// Whether `c` is an ASCII letter or digit.
pub open spec fn is_alphanumeric(c: char) -> bool {
    ||| 'A' <= c <= 'Z'
    ||| 'a' <= c <= 'z'
    ||| '0' <= c <= '9'
}

/// Whether `id` is `len` ASCII letters and digits.
pub open spec fn is_alphanumeric_id(id: Seq<char>, len: nat) -> bool {
    &&& id.len() == len
    &&& forall|i: int| 0 <= i < id.len() ==> is_alphanumeric(#[trigger] id[i])
}

/// The policy of one kind of session.
pub trait SessionConfig: Send + Sync + 'static {
    /// How long a session lives after it was last touched; none when
    /// sessions of this kind do not end by time.
    spec fn expiration(&self) -> Option<Span>;

    /// How long a session lives after it was last touched; none when
    /// sessions of this kind do not end by time.
    fn expiration_duration(&self) -> (r: Option<Span>)
        ensures
            r == self.expiration(),
    ;

    /// Makes the identifier of a new session.
    fn id_gen(&self) -> String;
}

/// `len` characters drawn by `rand`'s thread-local generator from its
/// `Alphanumeric` distribution.
///
/// Not proved: the distribution picks each character from the upper-case
/// letters, the lower-case letters and the digits of ASCII, and the iterator
/// is cut off after `len` of them. Which characters come is left open. The
/// generator panics where the operating system gives it no seed.
#[verifier::external_body]
fn random_alphanumeric(len: usize) -> (r: String)
    ensures
        is_alphanumeric_id(r@, len as nat),
{
    rand::thread_rng().sample_iter(&rand::distributions::Alphanumeric).take(len).map(
        char::from,
    ).collect::<String>()
}

/// The policy of sessions that a client names by a cookie: the cookie's name
/// and the time a session lives. An empty time means that sessions never end
/// by time.
pub struct CookieSessionConfig {
    cookie_name: String,
    expiration: Span,
}

impl CookieSessionConfig {
    /// The name of the cookie.
    pub closed spec fn name(&self) -> Seq<char> {
        self.cookie_name@
    }

    /// The configured time to live; the empty span stands for "never".
    pub closed spec fn lifetime(&self) -> Span {
        self.expiration
    }

    /// A policy with the given cookie name and time to live.
    pub fn new(cookie_name: &str, expiration_duration: Span) -> (r: CookieSessionConfig)
        ensures
            r.name() == cookie_name@,
            r.lifetime() == expiration_duration,
    {
        CookieSessionConfig { cookie_name: cookie_name.to_owned(), expiration: expiration_duration }
    }

    /// The name of the cookie.
    pub fn cookie_name(&self) -> (r: &str)
        ensures
            r@ == self.name(),
    {
        self.cookie_name.as_str()
    }
}

impl SessionConfig for CookieSessionConfig {
    open spec fn expiration(&self) -> Option<Span> {
        if self.lifetime()@ == 0 {
            None
        } else {
            Some(self.lifetime())
        }
    }

    fn expiration_duration(&self) -> (r: Option<Span>) {
        if self.expiration.is_zero() {
            None
        } else {
            Some(self.expiration)
        }
    }

    /// A fresh identifier of [`ID_LENGTH`] random letters and digits.
    fn id_gen(&self) -> (r: String)
        ensures
            is_alphanumeric_id(r@, ID_LENGTH as nat),
    {
        random_alphanumeric(ID_LENGTH)
    }
}

impl Default for CookieSessionConfig {
    /// The cookie `session`, and sessions that live one hour.
    fn default() -> (r: CookieSessionConfig)
        ensures
            r.name() == "session"@,
            r.lifetime()@ == 3_600_000_000_000,
    {
        CookieSessionConfig { cookie_name: "session".to_owned(), expiration: Span::hours(1) }
    }
}

} // verus!
