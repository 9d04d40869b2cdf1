use llm_gateway_auth::claims::Claims;
use llm_gateway_auth::gate::{decide_access, extract_bearer, is_admin, AccessPolicy, Rejection};
use llm_gateway_auth::token::TokenError;

fn claims(role: &str) -> Claims {
    Claims {
        sub: "u1".to_string(),
        username: "bob".to_string(),
        role: role.to_string(),
        exp: 2,
        iat: 1,
    }
}

#[test]
fn missing_header_is_unauthorized() {
    assert_eq!(extract_bearer(None), Err(Rejection::Unauthorized));
}

#[test]
fn other_scheme_is_unauthorized() {
    assert_eq!(extract_bearer(Some("Basic dXNlcjpwdw==")), Err(Rejection::Unauthorized));
    assert_eq!(extract_bearer(Some("bearer abc")), Err(Rejection::Unauthorized));
    assert_eq!(extract_bearer(Some("Bearer")), Err(Rejection::Unauthorized));
    assert_eq!(extract_bearer(Some("Bearerabc")), Err(Rejection::Unauthorized));
}

#[test]
fn empty_token_is_unauthorized() {
    assert_eq!(extract_bearer(Some("Bearer ")), Err(Rejection::Unauthorized));
}

#[test]
fn bearer_token_is_extracted() {
    assert_eq!(extract_bearer(Some("Bearer abc.def.ghi")), Ok("abc.def.ghi".to_string()));
    assert_eq!(extract_bearer(Some("Bearer  x")), Ok(" x".to_string()));
}

#[test]
fn failed_verification_is_unauthorized() {
    for e in [TokenError::Malformed, TokenError::InvalidSignature, TokenError::Expired, TokenError::NotYetValid] {
        assert_eq!(decide_access(AccessPolicy::Authenticated, Err(e)).unwrap_err(), Rejection::Unauthorized);
        assert_eq!(decide_access(AccessPolicy::AdminOnly, Err(e)).unwrap_err(), Rejection::Unauthorized);
    }
}

#[test]
fn user_role_on_admin_route_is_forbidden() {
    let r = decide_access(AccessPolicy::AdminOnly, Ok(claims("user")));
    assert_eq!(r.unwrap_err(), Rejection::Forbidden);
    assert_eq!(Rejection::Forbidden.status_code(), 403);
    assert_eq!(Rejection::Unauthorized.status_code(), 401);
}

#[test]
fn admin_passes_admin_route() {
    let c = decide_access(AccessPolicy::AdminOnly, Ok(claims("admin"))).unwrap();
    assert_eq!(c.role, "admin");
}

#[test]
fn any_verified_identity_passes_authenticated_route() {
    let c = decide_access(AccessPolicy::Authenticated, Ok(claims("user"))).unwrap();
    assert_eq!(c.username, "bob");
}

#[test]
fn admin_check_is_exact() {
    assert!(is_admin(&"admin".to_string()));
    assert!(!is_admin(&"Admin".to_string()));
    assert!(!is_admin(&"admin ".to_string()));
    assert!(!is_admin(&String::new()));
}
