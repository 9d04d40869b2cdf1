//! The decisions of the account endpoints: registration, login and the
//! current user.

use crate::claims::{issue_claims, period_seconds, Claims};
use crate::errors::ApiError;
use crate::password::{default_cost_digest, hash_password, verify_outcome, verify_password};
use crate::settings::MAX_VALIDITY_DAYS;
use vstd::arithmetic::power::pow;
use vstd::prelude::*;

verus! {

/// The lower-case hexadecimal digit for `n` in `0..16`.
pub open spec fn hex_digit(n: int) -> char {
    if n < 10 {
        ((n + '0' as int) as u8) as char
    } else {
        ((n - 10 + 'a' as int) as u8) as char
    }
}

/// The `k`-th hexadecimal digit of `id`, counted from the most significant one.
pub open spec fn nibble(id: u128, k: int) -> int {
    (id as int / pow(16, (31 - k) as nat)) % 16
}

/// The number of hyphens before position `p` of the hyphenated form.
pub open spec fn hyphens_before(p: int) -> int {
    if p > 23 {
        4
    } else if p > 18 {
        3
    } else if p > 13 {
        2
    } else if p > 8 {
        1
    } else {
        0
    }
}

/// The hyphenated lower-case text form of the UUID `id`: its 32 hexadecimal
/// digits, most significant first, with hyphens at positions 8, 13, 18 and 23.
pub open spec fn uuid_text(id: u128) -> Seq<char> {
    Seq::new(
        36,
        |p: int|
            if p == 8 || p == 13 || p == 18 || p == 23 {
                '-'
            } else {
                hex_digit(nibble(id, p - hyphens_before(p)))
            },
    )
}

/// The UUID that `text` spells, if it is a UUID in one of the accepted forms.
pub uninterp spec fn uuid_parsed(text: Seq<char>) -> Option<u128>;

/// Relies on uuid's `Display` for `Uuid`: the hyphenated form, which
/// `Uuid::parse_str` reads back to the same value.
#[verifier::external_body]
fn uuid_to_text(id: u128) -> (r: String)
    ensures
        r@ == uuid_text(id),
        uuid_parsed(r@) == Some(id),
{
    uuid::Uuid::from_u128(id).to_string()
}

/// Relies on `uuid::Uuid::parse_str`, mapping its error to `None`.
#[verifier::external_body]
fn uuid_from_text(text: &str) -> (r: Option<u128>)
    ensures
        r == uuid_parsed(text@),
{
    match uuid::Uuid::parse_str(text) {
        Ok(u) => Some(u.as_u128()),
        Err(_) => None,
    }
}

/// The role given to every newly registered user.
pub open spec fn user_role() -> Seq<char> {
    seq!['u', 's', 'e', 'r']
}

pub struct CreateUserRequest {
    pub username: String,
    pub email: String,
    pub password: String,
}

pub struct LoginRequest {
    pub username: String,
    pub password: String,
}

/// A user row to insert.
pub struct NewUser {
    pub username: String,
    pub email: String,
    pub password_hash: String,
    pub role: String,
}

/// What login reads of a stored user.
pub struct Account {
    pub id: u128,
    pub username: String,
    pub password_hash: String,
    pub role: String,
    pub is_active: bool,
}

/// The row to insert for a registration, given whether the username or email
/// is already taken: a taken name is a conflict; otherwise the password is
/// hashed and the user gets the `user` role.
pub fn prepare_registration(request: CreateUserRequest, already_taken: bool) -> (r: Result<
    NewUser,
    ApiError,
>)
    ensures
        already_taken ==> r == Err::<NewUser, ApiError>(ApiError::Conflict),
        !already_taken ==> match r {
            Ok(u) => {
                &&& u.username@ == request.username@
                &&& u.email@ == request.email@
                &&& u.role@ == user_role()
                &&& verify_outcome(request.password@, u.password_hash@) matches Ok(true)
                &&& default_cost_digest(u.password_hash@)
            },
            Err(e) => e == ApiError::Internal,
        },
{
    if already_taken {
        return Err(ApiError::Conflict);
    }
    let password_hash = match hash_password(request.password.as_str()) {
        Ok(d) => d,
        Err(_) => {
            return Err(ApiError::Internal);
        },
    };
    let role = "user".to_owned();
    proof {
        reveal_strlit("user");
    }
    assert(role@ =~= user_role());
    Ok(NewUser { username: request.username, email: request.email, password_hash, role })
}

/// Whether a login attempt with `password` against the stored `account` (`None`
/// where no user has the name) succeeds at `now`, or why it is refused.
pub open spec fn login_verdict(
    password: Seq<char>,
    account: Option<Account>,
    now: int,
    validity_days: int,
) -> Result<(), ApiError> {
    match account {
        None => Err(ApiError::Unauthorized),
        Some(a) => if !a.is_active {
            Err(ApiError::Unauthorized)
        } else {
            match verify_outcome(password, a.password_hash@) {
                Err(_) => Err(ApiError::Internal),
                Ok(false) => Err(ApiError::Unauthorized),
                Ok(true) => if now + period_seconds(validity_days) > u64::MAX {
                    Err(ApiError::Internal)
                } else {
                    Ok(())
                },
            }
        },
    }
}

/// Decides a login: an unknown or inactive account or a wrong password is
/// unauthorized, a malformed stored digest is an internal error; otherwise the
/// claims of the account, issued at `now`.
pub fn login_claims(request: &LoginRequest, account: Option<Account>, now: u64, validity_days: u64) -> (r:
    Result<Claims, ApiError>)
    requires
        1 <= validity_days <= MAX_VALIDITY_DAYS,
    ensures
        match login_verdict(request.password@, account, now as int, validity_days as int) {
            Err(e) => r == Err::<Claims, ApiError>(e),
            Ok(_) => r matches Ok(c) && account matches Some(a) && {
                &&& c.sub@ == uuid_text(a.id)
                &&& uuid_parsed(c.sub@) == Some(a.id)
                &&& c.username@ == a.username@
                &&& c.role@ == a.role@
                &&& c.iat == now
                &&& c.exp == now + period_seconds(validity_days as int)
                &&& c.wf()
            },
        },
{
    let a = match account {
        None => {
            return Err(ApiError::Unauthorized);
        },
        Some(a) => a,
    };
    if !a.is_active {
        return Err(ApiError::Unauthorized);
    }
    match verify_password(request.password.as_str(), a.password_hash.as_str()) {
        Err(_) => {
            return Err(ApiError::Internal);
        },
        Ok(false) => {
            return Err(ApiError::Unauthorized);
        },
        Ok(true) => {},
    }
    assert(validity_days * 86400 <= MAX_VALIDITY_DAYS * 86400) by (nonlinear_arith)
        requires
            validity_days <= MAX_VALIDITY_DAYS,
    ;
    let period = validity_days * 86400;
    if now > u64::MAX - period {
        return Err(ApiError::Internal);
    }
    let sub = uuid_to_text(a.id);
    Ok(issue_claims(sub, a.username, a.role, now, validity_days))
}

/// The user id that verified claims name; an internal error where the subject
/// is not a UUID.
pub fn current_user_id(claims: &Claims) -> (r: Result<u128, ApiError>)
    ensures
        match uuid_parsed(claims.sub@) {
            Some(id) => r == Ok::<u128, ApiError>(id),
            None => r == Err::<u128, ApiError>(ApiError::Internal),
        },
{
    match uuid_from_text(claims.sub.as_str()) {
        Some(id) => Ok(id),
        None => Err(ApiError::Internal),
    }
}

} // verus!
