//! Request gating: bearer-token extraction, authentication and role checks.

use crate::claims::Claims;
use crate::token::TokenError;
use vstd::prelude::*;

verus! {

/// Why a request is turned away before it reaches its handler.
#[derive(Clone, Copy, Debug, PartialEq, Eq, Structural)]
pub enum Rejection {
    /// No usable token, or a token that failed verification (HTTP 401).
    Unauthorized,
    /// A verified identity without the role the route asks for (HTTP 403).
    Forbidden,
}

/// What a route asks of the caller.
#[derive(Clone, Copy, Debug, PartialEq, Eq, Structural)]
pub enum AccessPolicy {
    /// Any verified identity.
    Authenticated,
    /// A verified identity whose role is `admin`.
    AdminOnly,
}

pub open spec fn status_of(r: Rejection) -> u16 {
    match r {
        Rejection::Unauthorized => 401,
        Rejection::Forbidden => 403,
    }
}

impl Rejection {
    /// The HTTP status that this rejection is answered with.
    pub fn status_code(&self) -> (r: u16)
        ensures
            r == status_of(*self),
    {
        match self {
            Rejection::Unauthorized => 401,
            Rejection::Forbidden => 403,
        }
    }
}

/// The authentication scheme prefix, `Bearer ` with one space.
pub open spec fn bearer_prefix() -> Seq<char> {
    seq!['B', 'e', 'a', 'r', 'e', 'r', ' ']
}

/// The privileged role.
pub open spec fn admin_role() -> Seq<char> {
    seq!['a', 'd', 'm', 'i', 'n']
}

/// The token that an `Authorization` header value carries: what follows the
/// exact prefix `Bearer `, where that is not empty.
pub open spec fn bearer_of(header: Option<Seq<char>>) -> Option<Seq<char>> {
    match header {
        None => None,
        Some(h) => if h.len() > bearer_prefix().len() && h.subrange(0, 7) == bearer_prefix() {
            Some(h.subrange(7, h.len() as int))
        } else {
            None
        },
    }
}

/// The decision on a request once its token has been through verification.
pub open spec fn verdict(policy: AccessPolicy, verified: Result<Claims, TokenError>) -> Result<
    Claims,
    Rejection,
> {
    match verified {
        Err(_) => Err(Rejection::Unauthorized),
        Ok(c) => if policy == AccessPolicy::AdminOnly && c.role@ != admin_role() {
            Err(Rejection::Forbidden)
        } else {
            Ok(c)
        },
    }
}

/// Whether `role` is the privileged role.
pub fn is_admin(role: &String) -> (r: bool)
    ensures
        r == (role@ == admin_role()),
{
    let admin = "admin".to_owned();
    proof {
        reveal_strlit("admin");
    }
    assert(admin@ =~= admin_role());
    *role == admin
}

/// Takes the bearer token out of the `Authorization` header value, if any. A
/// missing header, another scheme or an empty token is refused as unauthorized,
/// before any verification or role check.
pub fn extract_bearer(header: Option<&str>) -> (r: Result<String, Rejection>)
    ensures
        match bearer_of(
            match header {
                Some(h) => Some(h@),
                None => None,
            },
        ) {
            Some(t) => r matches Ok(s) && s@ == t,
            None => r == Err::<String, Rejection>(Rejection::Unauthorized),
        },
{
    let h = match header {
        Some(h) => h,
        None => {
            return Err(Rejection::Unauthorized);
        },
    };
    let n = h.unicode_len();
    if n <= 7 {
        return Err(Rejection::Unauthorized);
    }
    let prefix = "Bearer ";
    proof {
        reveal_strlit("Bearer ");
    }
    assert(prefix@ =~= bearer_prefix());
    let mut i: usize = 0;
    while i < 7
        invariant
            header == Some(h),
            n == h@.len(),
            7 < n,
            i <= 7,
            prefix@ == bearer_prefix(),
            forall|k: int| 0 <= k < i ==> h@[k] == bearer_prefix()[k],
        decreases 7 - i,
    {
        if h.get_char(i) != prefix.get_char(i) {
            assert(h@.subrange(0, 7)[i as int] != bearer_prefix()[i as int]);
            assert(h@.subrange(0, 7) != bearer_prefix());
            return Err(Rejection::Unauthorized);
        }
        i = i + 1;
    }
    assert(h@.subrange(0, 7) =~= bearer_prefix());
    let token = h.substring_char(7, n);
    Ok(token.to_owned())
}

/// Decides on a request whose token went through verification: a failed
/// verification is unauthorized; a verified identity without the `admin` role
/// on an admin-only route is forbidden; otherwise the claims go on.
pub fn decide_access(policy: AccessPolicy, verified: Result<Claims, TokenError>) -> (r: Result<
    Claims,
    Rejection,
>)
    ensures
        r == verdict(policy, verified),
{
    match verified {
        Err(_) => Err(Rejection::Unauthorized),
        Ok(c) => {
            match policy {
                AccessPolicy::AdminOnly => {
                    if !is_admin(&c.role) {
                        return Err(Rejection::Forbidden);
                    }
                },
                AccessPolicy::Authenticated => {},
            }
            Ok(c)
        },
    }
}

/// A verified identity whose role is not `admin` is forbidden, not
/// unauthorized, on an admin-only route.
pub proof fn lemma_non_admin_forbidden(c: Claims)
    requires
        c.role@ != admin_role(),
    ensures
        verdict(AccessPolicy::AdminOnly, Ok(c)) == Err::<Claims, Rejection>(Rejection::Forbidden),
        status_of(Rejection::Forbidden) == 403,
{
}

} // verus!
