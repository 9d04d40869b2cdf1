//! The decisions of the LLM provider endpoints, all of which are admin-only.

use base64::Engine;
use crate::claims::Claims;
use crate::errors::ApiError;
use crate::gate::{admin_role, is_admin};
use vstd::prelude::*;

verus! {

/// The standard, padded base64 encoding of the UTF-8 bytes of `text`.
pub uninterp spec fn b64_standard(text: Seq<char>) -> Seq<char>;

/// Relies on base64's `STANDARD.encode`.
#[verifier::external_body]
fn b64_standard_encode(text: &str) -> (r: String)
    ensures
        r@ == b64_standard(text@),
{
    base64::engine::general_purpose::STANDARD.encode(text)
}

pub struct CreateLlmProviderRequest {
    pub name: String,
    pub provider_type: String,
    pub api_key: String,
    pub api_endpoint: Option<String>,
    pub model_name: Option<String>,
}

pub struct UpdateLlmProviderRequest {
    pub name: Option<String>,
    pub api_key: Option<String>,
    pub api_endpoint: Option<String>,
    pub model_name: Option<String>,
    pub is_active: Option<bool>,
}

/// A provider row to insert.
pub struct NewLlmProvider {
    pub name: String,
    pub provider_type: String,
    pub api_key_encrypted: String,
    pub api_endpoint: Option<String>,
    pub model_name: Option<String>,
}

/// One column change of a provider update.
pub enum ProviderChange {
    Name(String),
    ApiKeyEncrypted(String),
    ApiEndpoint(String),
    ModelName(String),
    IsActive(bool),
}

/// A column change as plain values.
pub enum ChangeView {
    Name(Seq<char>),
    ApiKeyEncrypted(Seq<char>),
    ApiEndpoint(Seq<char>),
    ModelName(Seq<char>),
    IsActive(bool),
}

impl View for ProviderChange {
    type V = ChangeView;

    open spec fn view(&self) -> ChangeView {
        match self {
            ProviderChange::Name(s) => ChangeView::Name(s@),
            ProviderChange::ApiKeyEncrypted(s) => ChangeView::ApiKeyEncrypted(s@),
            ProviderChange::ApiEndpoint(s) => ChangeView::ApiEndpoint(s@),
            ProviderChange::ModelName(s) => ChangeView::ModelName(s@),
            ProviderChange::IsActive(b) => ChangeView::IsActive(*b),
        }
    }
}

/// Counts shown by the usage statistics endpoint.
pub struct UsageStats {
    pub total_providers: i64,
    pub total_usage_records: i64,
    pub message: String,
}

/// Only an admin may use the provider endpoints.
pub fn require_admin(claims: &Claims) -> (r: Result<(), ApiError>)
    ensures
        claims.role@ == admin_role() <==> r is Ok,
        r is Err ==> r == Err::<(), ApiError>(ApiError::Forbidden),
{
    if is_admin(&claims.role) {
        Ok(())
    } else {
        Err(ApiError::Forbidden)
    }
}

/// The stored form of an API key: its standard base64 encoding. This is an
/// encoding, not encryption.
pub fn encrypt_api_key(api_key: &str) -> (r: String)
    ensures
        r@ == b64_standard(api_key@),
{
    b64_standard_encode(api_key)
}

/// The row to insert for a new provider, with its API key encoded.
pub fn new_provider(request: CreateLlmProviderRequest) -> (r: NewLlmProvider)
    ensures
        r.name@ == request.name@,
        r.provider_type@ == request.provider_type@,
        r.api_key_encrypted@ == b64_standard(request.api_key@),
        r.api_endpoint == request.api_endpoint,
        r.model_name == request.model_name,
{
    let api_key_encrypted = encrypt_api_key(request.api_key.as_str());
    NewLlmProvider {
        name: request.name,
        provider_type: request.provider_type,
        api_key_encrypted,
        api_endpoint: request.api_endpoint,
        model_name: request.model_name,
    }
}

pub open spec fn text_change(o: Option<String>, f: spec_fn(Seq<char>) -> ChangeView) -> Seq<
    ChangeView,
> {
    match o {
        Some(s) => seq![f(s@)],
        None => Seq::empty(),
    }
}

/// The column changes that an update request asks for, in the order name, API
/// key (encoded), endpoint, model name, active flag; a field left out changes
/// nothing.
pub open spec fn planned_changes(request: UpdateLlmProviderRequest) -> Seq<ChangeView> {
    text_change(request.name, |s: Seq<char>| ChangeView::Name(s)) + text_change(
        request.api_key,
        |s: Seq<char>| ChangeView::ApiKeyEncrypted(b64_standard(s)),
    ) + text_change(request.api_endpoint, |s: Seq<char>| ChangeView::ApiEndpoint(s))
        + text_change(request.model_name, |s: Seq<char>| ChangeView::ModelName(s)) + match request.is_active {
        Some(b) => seq![ChangeView::IsActive(b)],
        None => Seq::<ChangeView>::empty(),
    }
}

/// The column changes to apply for `request`, before the update time is set.
pub fn update_plan(request: UpdateLlmProviderRequest) -> (r: Vec<ProviderChange>)
    ensures
        r@.map_values(|c: ProviderChange| c@) == planned_changes(request),
{
    let ghost req = request;
    let mut plan: Vec<ProviderChange> = Vec::new();
    let ghost expected = text_change(req.name, |s: Seq<char>| ChangeView::Name(s));
    match request.name {
        Some(n) => plan.push(ProviderChange::Name(n)),
        None => {},
    }
    assert(plan@.map_values(|c: ProviderChange| c@) =~= expected);
    proof {
        expected = expected + text_change(
            req.api_key,
            |s: Seq<char>| ChangeView::ApiKeyEncrypted(b64_standard(s)),
        );
    }
    match request.api_key {
        Some(k) => plan.push(ProviderChange::ApiKeyEncrypted(encrypt_api_key(k.as_str()))),
        None => {},
    }
    assert(plan@.map_values(|c: ProviderChange| c@) =~= expected);
    proof {
        expected = expected + text_change(req.api_endpoint, |s: Seq<char>| ChangeView::ApiEndpoint(s));
    }
    match request.api_endpoint {
        Some(e) => plan.push(ProviderChange::ApiEndpoint(e)),
        None => {},
    }
    assert(plan@.map_values(|c: ProviderChange| c@) =~= expected);
    proof {
        expected = expected + text_change(req.model_name, |s: Seq<char>| ChangeView::ModelName(s));
    }
    match request.model_name {
        Some(m) => plan.push(ProviderChange::ModelName(m)),
        None => {},
    }
    assert(plan@.map_values(|c: ProviderChange| c@) =~= expected);
    match request.is_active {
        Some(b) => plan.push(ProviderChange::IsActive(b)),
        None => {},
    }
    assert(plan@.map_values(|c: ProviderChange| c@) =~= planned_changes(req));
    plan
}

/// A delete that removed no row means the provider does not exist.
pub fn deletion_outcome(deleted: usize) -> (r: Result<(), ApiError>)
    ensures
        deleted == 0 <==> r == Err::<(), ApiError>(ApiError::NotFound),
        deleted > 0 <==> r is Ok,
{
    if deleted == 0 {
        Err(ApiError::NotFound)
    } else {
        Ok(())
    }
}

/// The usage statistics for the given counts.
pub fn usage_stats(total_providers: i64, total_usage_records: i64) -> (r: UsageStats)
    ensures
        r.total_providers == total_providers,
        r.total_usage_records == total_usage_records,
        r.message@ == "Detailed usage statistics implementation pending"@,
{
    UsageStats {
        total_providers,
        total_usage_records,
        message: "Detailed usage statistics implementation pending".to_owned(),
    }
}

} // verus!
