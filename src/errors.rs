//! The failures that an endpoint answers with, and their HTTP statuses.

use crate::gate::Rejection;
use vstd::prelude::*;

verus! {

#[derive(Clone, Copy, Debug, PartialEq, Eq, Structural)]
pub enum ApiError {
    /// 401: unknown or inactive account, wrong password, or no verified identity.
    Unauthorized,
    /// 403: a verified identity without the needed role.
    Forbidden,
    /// 404: the requested record does not exist.
    NotFound,
    /// 409: the username or email is already taken.
    Conflict,
    /// 500: a fault of the system, not of the caller.
    Internal,
}

pub open spec fn api_status(e: ApiError) -> u16 {
    match e {
        ApiError::Unauthorized => 401,
        ApiError::Forbidden => 403,
        ApiError::NotFound => 404,
        ApiError::Conflict => 409,
        ApiError::Internal => 500,
    }
}

impl ApiError {
    /// The HTTP status that this failure is answered with.
    pub fn status_code(&self) -> (r: u16)
        ensures
            r == api_status(*self),
    {
        match self {
            ApiError::Unauthorized => 401,
            ApiError::Forbidden => 403,
            ApiError::NotFound => 404,
            ApiError::Conflict => 409,
            ApiError::Internal => 500,
        }
    }

    /// The endpoint failure that a gate rejection stands for.
    pub fn from_rejection(r: Rejection) -> (e: ApiError)
        ensures
            r == Rejection::Unauthorized ==> e == ApiError::Unauthorized,
            r == Rejection::Forbidden ==> e == ApiError::Forbidden,
    {
        match r {
            Rejection::Unauthorized => ApiError::Unauthorized,
            Rejection::Forbidden => ApiError::Forbidden,
        }
    }
}

/// The row that a lookup found, or not found.
pub fn require_found<T>(row: Option<T>) -> (r: Result<T, ApiError>)
    ensures
        match row {
            Some(v) => r == Ok::<T, ApiError>(v),
            None => r == Err::<T, ApiError>(ApiError::NotFound),
        },
{
    match row {
        Some(v) => Ok(v),
        None => Err(ApiError::NotFound),
    }
}

} // verus!
