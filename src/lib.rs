//! Authentication and authorization core of an LLM gateway backend: password
//! hashing, signed session tokens, bearer-token gating and the decisions of the
//! account and provider endpoints.

pub mod accounts;
pub mod claims;
pub mod errors;
pub mod gate;
pub mod password;
pub mod providers;
pub mod settings;
pub mod token;
