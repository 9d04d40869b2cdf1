//! The identity claims that a session token carries, how they are issued, and
//! when they may be used.

use crate::token::TokenError;
use vstd::prelude::*;

verus! {

pub const SECONDS_PER_DAY: u64 = 86400;

/// Validity period used when none, or no usable one, is configured.
pub const DEFAULT_VALIDITY_DAYS: u64 = 15;

/// The decoded payload of a session token.
#[derive(Clone, Debug)]
pub struct Claims {
    /// Opaque unique identifier of the user.
    pub sub: String,
    /// Username at issue time.
    pub username: String,
    /// Role tag; `admin` is the privileged one.
    pub role: String,
    /// Expiry time, Unix seconds.
    pub exp: u64,
    /// Issue time, Unix seconds.
    pub iat: u64,
}

/// Whether a token with these timestamps may be used at `now`: the expiry is
/// checked first, then the issue time.
pub open spec fn window_verdict(iat: int, exp: int, now: int) -> Result<(), TokenError> {
    if now >= exp {
        Err(TokenError::Expired)
    } else if iat > now {
        Err(TokenError::NotYetValid)
    } else {
        Ok(())
    }
}

/// The length in seconds of a validity period of `days` days.
pub open spec fn period_seconds(days: int) -> int {
    days * SECONDS_PER_DAY
}

impl Claims {
    /// The claims are usable from `iat` up to, not including, `exp`.
    pub open spec fn wf(&self) -> bool {
        self.iat < self.exp
    }
}

/// Claims for the given identity, issued at `now` and valid for `validity_days` days.
pub fn issue_claims(sub: String, username: String, role: String, now: u64, validity_days: u64) -> (r:
    Claims)
    requires
        validity_days >= 1,
        now + period_seconds(validity_days as int) <= u64::MAX,
    ensures
        r.sub@ == sub@,
        r.username@ == username@,
        r.role@ == role@,
        r.iat == now,
        r.exp == now + period_seconds(validity_days as int),
        r.wf(),
        window_verdict(r.iat as int, r.exp as int, now as int) is Ok,
{
    assert(validity_days * SECONDS_PER_DAY >= SECONDS_PER_DAY) by (nonlinear_arith)
        requires
            validity_days >= 1,
    ;
    let exp = now + validity_days * SECONDS_PER_DAY;
    Claims { sub, username, role, exp, iat: now }
}

/// Checks the validity window of `claims` at `now`.
pub fn check_window(claims: &Claims, now: u64) -> (r: Result<(), TokenError>)
    ensures
        r == window_verdict(claims.iat as int, claims.exp as int, now as int),
{
    if now >= claims.exp {
        Err(TokenError::Expired)
    } else if claims.iat > now {
        Err(TokenError::NotYetValid)
    } else {
        Ok(())
    }
}

/// The last step of verifying a token whose signature has been checked:
/// `header_hs256` says whether its header names HS256, and `decoded` is its
/// claims segment as decoded from JSON, or `None` where that failed.
pub fn accept_claims(header_hs256: bool, decoded: Option<Claims>, now: u64) -> (r: Result<
    Claims,
    TokenError,
>)
    ensures
        !header_hs256 ==> r == Err::<Claims, TokenError>(TokenError::Malformed),
        header_hs256 ==> match decoded {
            None => r == Err::<Claims, TokenError>(TokenError::Malformed),
            Some(c) => match window_verdict(c.iat as int, c.exp as int, now as int) {
                Ok(_) => r matches Ok(k) && k == c,
                Err(e) => r == Err::<Claims, TokenError>(e),
            },
        },
{
    if !header_hs256 {
        return Err(TokenError::Malformed);
    }
    match decoded {
        None => Err(TokenError::Malformed),
        Some(c) => match check_window(&c, now) {
            Ok(()) => Ok(c),
            Err(e) => Err(e),
        },
    }
}

/// Claims that have expired are refused as expired, whatever their issue time.
pub proof fn lemma_expired_is_expired(iat: int, exp: int, now: int)
    requires
        now >= exp,
    ensures
        window_verdict(iat, exp, now) == Err::<(), TokenError>(TokenError::Expired),
{
}

/// Claims issued for a period are usable at every moment of it and refused as
/// expired from its end on.
pub proof fn lemma_issued_window(now: int, days: int, t: int)
    requires
        days >= 1,
        now >= 0,
    ensures
        now <= t < now + period_seconds(days) ==> window_verdict(now, now + period_seconds(days), t)
            is Ok,
        t >= now + period_seconds(days) ==> window_verdict(now, now + period_seconds(days), t)
            == Err::<(), TokenError>(TokenError::Expired),
{
    assert(days * SECONDS_PER_DAY >= SECONDS_PER_DAY) by (nonlinear_arith)
        requires
            days >= 1,
    ;
}

} // verus!
