use vstd::prelude::*;
use crate::clock::{system_time_now, unix_seconds};
use crate::text::{chars_of, substring};

verus! {

/// How long a token stays valid: 24 hours.
pub const TOKEN_EXPIRATION_SECS: u64 = 86400;

/// The claims carried by an authentication token.
#[derive(Debug, Clone)]
pub struct Claims {
    pub sub: String,
    pub user_id: String,
    pub exp: u64,
    pub iat: u64,
}

/// The current Unix time in whole seconds, read from the system clock (0
/// when the clock reads a time before the epoch).
fn unix_now() -> u64 {
    let t = system_time_now();
    match unix_seconds(&t) {
        Some(s) => s,
        None => 0,
    }
}

/// Whether a token that expires at `exp` has expired at Unix time `now`:
/// it has once `now` is past `exp`.
pub open spec fn expired_at(exp: u64, now: u64) -> bool {
    now > exp
}

impl Claims {
    /// The claims of a token for `user_id` issued at Unix time `now`: it
    /// expires `TOKEN_EXPIRATION_SECS` later (the sum wrapping around as
    /// unsigned 64-bit arithmetic does).
    pub fn issued_at(user_id: String, now: u64) -> (c: Self)
        ensures
            c.sub@ == user_id@,
            c.user_id@ == user_id@,
            c.iat == now,
            c.exp == (now + TOKEN_EXPIRATION_SECS) % 0x1_0000_0000_0000_0000,
    {
        Claims {
            sub: user_id.clone(),
            user_id,
            exp: now.wrapping_add(TOKEN_EXPIRATION_SECS),
            iat: now,
        }
    }

    /// The claims of a token for `user_id` issued now.
    pub fn new(user_id: String) -> (c: Self)
        ensures
            c.sub@ == user_id@,
            c.user_id@ == user_id@,
            c.exp == (c.iat + TOKEN_EXPIRATION_SECS) % 0x1_0000_0000_0000_0000,
    {
        Self::issued_at(user_id, unix_now())
    }

    /// Whether the token has expired at Unix time `now`: it has once `now`
    /// is past its expiry time.
    pub fn is_expired_at(&self, now: u64) -> (b: bool)
        ensures
            b == (now > self.exp),
    {
        now > self.exp
    }

    /// Whether the token has expired by now: the answer of `is_expired_at`
    /// for the Unix time read from the system clock.
    pub fn is_expired(&self) -> (b: bool)
        ensures
            exists|now: u64| b == #[trigger] expired_at(self.exp, now),
    {
        let now = unix_now();
        let b = self.is_expired_at(now);
        assert(b == expired_at(self.exp, now));
        b
    }
}

/// A token is not expired at the moment it is issued, nor at any moment up
/// to its expiry, and is expired at every later moment.
pub proof fn lemma_token_lifetime(now: u64, later: u64)
    requires
        now + TOKEN_EXPIRATION_SECS <= u64::MAX,
    ensures
        ({
            let exp = (now + TOKEN_EXPIRATION_SECS) % 0x1_0000_0000_0000_0000;
            &&& exp == now + TOKEN_EXPIRATION_SECS
            &&& !(now > exp)
            &&& (later <= now + TOKEN_EXPIRATION_SECS ==> !(later > exp))
            &&& (later > now + TOKEN_EXPIRATION_SECS ==> later > exp)
        }),
{
}

/// The scheme prefix of an `Authorization` header that carries a token.
pub open spec fn bearer_prefix() -> Seq<char> {
    seq!['B', 'e', 'a', 'r', 'e', 'r', ' ']
}

/// The token in an `Authorization` header value: what follows `Bearer `,
/// or `None` when the value does not start with it.
pub open spec fn bearer_token_of(header: Seq<char>) -> Option<Seq<char>> {
    if header.len() >= 7 && header.subrange(0, 7) == bearer_prefix() {
        Some(header.subrange(7, header.len() as int))
    } else {
        None
    }
}

/// Takes the token out of an `Authorization` header value of the form
/// `Bearer <token>`.
pub fn bearer_token(header: &str) -> (r: Option<String>)
    ensures
        r matches Some(t) ==> bearer_token_of(header@) == Some(t@),
        r is None ==> bearer_token_of(header@) is None,
{
    let v = chars_of(header);
    let prefix = vec!['B', 'e', 'a', 'r', 'e', 'r', ' '];
    assert(prefix@ =~= bearer_prefix());
    if v.len() < 7 {
        return None;
    }
    let mut i: usize = 0;
    while i < 7
        invariant
            v@ == header@,
            prefix@ == bearer_prefix(),
            7 <= v@.len(),
            i <= 7,
            forall|k: int| 0 <= k < i ==> v@[k] == prefix@[k],
        decreases 7 - i,
    {
        if v[i] != prefix[i] {
            assert(header@.subrange(0, 7)[i as int] != bearer_prefix()[i as int]);
            return None;
        }
        i = i + 1;
    }
    assert(header@.subrange(0, 7) =~= bearer_prefix());
    Some(substring(header, 7, v.len()))
}

} // verus!
