//! What a session token carries.
use vstd::prelude::*;
use crate::error::ApiError;
use vstd::string::StrSliceExecFns;

verus! {

/// Seconds a session token stays valid.
pub const SESSION_LIFETIME_SECS: u64 = 86400;

/// Claims of a session token: expiry and issue time in unix seconds, and the user id.
#[derive(Clone, Copy, Debug, PartialEq, Eq, Structural)]
pub struct Claims {
    pub exp: u64,
    pub iat: u64,
    pub uuid: u128,
}

impl Claims {
    /// The claims of a token for `uuid` issued at `now`, valid for a day.
    pub fn issue(uuid: u128, now: u64) -> (r: Result<Claims, ApiError>)
        ensures
            match r {
                Ok(c) => now + SESSION_LIFETIME_SECS <= u64::MAX && c == (Claims {
                    exp: (now + SESSION_LIFETIME_SECS) as u64,
                    iat: now,
                    uuid,
                }),
                Err(e) => e == ApiError::Token && now + SESSION_LIFETIME_SECS > u64::MAX,
            },
    {
        match now.checked_add(SESSION_LIFETIME_SECS) {
            Some(exp) => Ok(Claims { exp, iat: now, uuid }),
            None => Err(ApiError::Token),
        }
    }

    /// The token is still valid at `now`.
    pub fn is_current(&self, now: u64) -> (r: bool)
        ensures
            r == (self.iat <= now && now < self.exp),
    {
        self.iat <= now && now < self.exp
    }
}


/// The scheme word, and the space after it, that open an `Authorization` header.
pub open spec fn bearer_prefix() -> Seq<char> {
    seq!['B', 'e', 'a', 'r', 'e', 'r', ' ']
}

/// The token of an `Authorization: Bearer <token>` header; any other header, or none,
/// leaves the request unauthorized.
pub fn bearer_token<'a>(header: Option<&'a str>) -> (r: Result<&'a str, ApiError>)
    ensures
        match header {
            Some(h) => if h@.len() >= 7 && h@.subrange(0, 7) == bearer_prefix() {
                r matches Ok(t) && t@ == h@.subrange(7, h@.len() as int)
            } else {
                r == Err::<&str, ApiError>(ApiError::Unauthorized)
            },
            None => r == Err::<&str, ApiError>(ApiError::Unauthorized),
        },
{
    let h = match header {
        Some(h) => h,
        None => return Err(ApiError::Unauthorized),
    };
    let n = h.unicode_len();
    if n < 7 {
        return Err(ApiError::Unauthorized);
    }
    let prefix: [char; 7] = ['B', 'e', 'a', 'r', 'e', 'r', ' '];
    let mut i: usize = 0;
    while i < 7
        invariant
            header == Some(h),
            n == h@.len(),
            n >= 7,
            i <= 7,
            prefix@ == bearer_prefix(),
            forall|j: int| 0 <= j < i ==> h@[j] == bearer_prefix()[j],
        decreases 7 - i,
    {
        if h.get_char(i) != prefix[i] {
            assert(h@.subrange(0, 7)[i as int] != bearer_prefix()[i as int]);
            assert(h@.subrange(0, 7) != bearer_prefix());
            return Err(ApiError::Unauthorized);
        }
        i = i + 1;
    }
    assert(h@.subrange(0, 7) =~= bearer_prefix());
    Ok(h.substring_char(7, n))
}

} // verus!
