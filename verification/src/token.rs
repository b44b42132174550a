//! The cache of OAuth2 access tokens used by the operators that
//! authenticate with short-lived tokens (Orange Money, MTN MoMo).
//!
//! A token is reused until it expires, with a safety margin; a `401` answer
//! from the API drops it so that the next call authenticates again. Time is
//! read on the caller's monotonic clock, in nanoseconds.

use vstd::prelude::*;

use crate::operator::opt_string;

verus! {

/// The token is renewed this long before the expiry the server announced.
pub const TOKEN_EXPIRY_MARGIN_SECS: u64 = 60;

pub const NANOS_PER_SEC: u64 = 1_000_000_000;

/// How long a token announced as valid for `expires_in` seconds is reused,
/// in seconds: the announced lifetime less the margin, never negative.
pub open spec fn usable_lifetime(expires_in: u64) -> nat {
    if expires_in > TOKEN_EXPIRY_MARGIN_SECS {
        (expires_in - TOKEN_EXPIRY_MARGIN_SECS) as nat
    } else {
        0
    }
}

/// The token that a cache holding `cache` serves at instant `now`.
pub open spec fn served(cache: Option<(Seq<char>, int)>, now: int) -> Option<Seq<char>> {
    match cache {
        Some((token, expires_at)) => if expires_at > now {
            Some(token)
        } else {
            None
        },
        None => None,
    }
}

/// What the cache holds after storing `token`, announced valid for
/// `expires_in` seconds, at instant `now`.
pub open spec fn stored(token: Seq<char>, expires_in: u64, now: u64) -> Option<(Seq<char>, int)> {
    Some((token, now + usable_lifetime(expires_in) * NANOS_PER_SEC))
}

/// What the cache holds after an authenticated call answered `status`.
pub open spec fn after_status(cache: Option<(Seq<char>, int)>, status: u16) -> Option<(Seq<char>, int)> {
    if status == 401 {
        None
    } else {
        cache
    }
}

/// An access token and the instant (nanoseconds, caller's clock) at which it
/// stops being served.
pub struct CachedToken {
    pub access_token: String,
    pub expires_at: u128,
}

/// The token cache of one provider.
pub struct TokenCache {
    cached: Option<CachedToken>,
}

impl View for TokenCache {
    type V = Option<(Seq<char>, int)>;

    closed spec fn view(&self) -> Option<(Seq<char>, int)> {
        match self.cached {
            Some(c) => Some((c.access_token@, c.expires_at as int)),
            None => None,
        }
    }
}

impl TokenCache {
    /// An empty cache: the first call authenticates.
    pub fn new() -> (c: TokenCache)
        ensures
            c@ is None,
    {
        TokenCache { cached: None }
    }

    /// The cached token, when there is one that has not expired at `now`.
    pub fn current(&self, now: u64) -> (r: Option<String>)
        ensures
            opt_string(r) == served(self@, now as int),
    {
        match &self.cached {
            Some(c) => {
                if c.expires_at > now as u128 {
                    Some(c.access_token.clone())
                } else {
                    None
                }
            },
            None => None,
        }
    }

    /// Keeps `access_token`, announced by the server as valid for
    /// `expires_in` seconds from `now`, and hands it back.
    pub fn store(&mut self, access_token: String, expires_in: u64, now: u64) -> (r: String)
        ensures
            final(self)@ == stored(access_token@, expires_in, now),
            r@ == access_token@,
    {
        let lifetime: u64 = expires_in.saturating_sub(TOKEN_EXPIRY_MARGIN_SECS);
        assert(lifetime == usable_lifetime(expires_in));
        assert(lifetime as u128 * NANOS_PER_SEC as u128 <= 0xffff_ffff_ffff_ffffu128 * 1_000_000_000u128) by (nonlinear_arith)
            requires
                lifetime <= 0xffff_ffff_ffff_ffffu64,
        ;
        let expires_at: u128 = now as u128 + lifetime as u128 * NANOS_PER_SEC as u128;
        let copy = access_token.clone();
        self.cached = Some(CachedToken { access_token, expires_at });
        copy
    }

    /// Drops the cached token.
    pub fn invalidate(&mut self)
        ensures
            final(self)@ is None,
    {
        self.cached = None;
    }

    /// Takes note of the HTTP status of an authenticated call: a `401`
    /// means the token was revoked, and it is dropped.
    pub fn observe_status(&mut self, status: u16)
        ensures
            final(self)@ == after_status(old(self)@, status),
    {
        if status == 401 {
            self.invalidate();
        }
    }
}

/// A freshly stored token is served exactly until its usable lifetime has
/// elapsed, and never after.
pub proof fn lemma_stored_token_served_until_expiry(token: Seq<char>, expires_in: u64, now: u64, t: int)
    ensures
        served(stored(token, expires_in, now), t) == if t < now + usable_lifetime(expires_in)
            * NANOS_PER_SEC {
            Some(token)
        } else {
            None
        },
{
}

/// A token whose announced lifetime does not exceed the margin is never
/// reused: every later call authenticates again.
pub proof fn lemma_short_lived_token_never_served(token: Seq<char>, expires_in: u64, now: u64, t: int)
    requires
        expires_in <= TOKEN_EXPIRY_MARGIN_SECS,
        t >= now,
    ensures
        served(stored(token, expires_in, now), t) is None,
{
}

/// After a `401` answer, no token is served until a new one is stored;
/// any other status leaves the cache as it was.
pub proof fn lemma_revoked_token_not_served(cache: Option<(Seq<char>, int)>, status: u16, t: int)
    ensures
        status == 401 ==> served(after_status(cache, status), t) is None,
        status != 401 ==> served(after_status(cache, status), t) == served(cache, t),
{
}

} // verus!
