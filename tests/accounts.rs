use llm_gateway_auth::accounts::{
    current_user_id, login_claims, prepare_registration, Account, CreateUserRequest, LoginRequest,
};
use llm_gateway_auth::claims::{accept_claims, Claims};
use llm_gateway_auth::errors::{require_found, ApiError};
use llm_gateway_auth::gate::{decide_access, extract_bearer, AccessPolicy, Rejection};
use llm_gateway_auth::password::{hash_password, verify_password};
use llm_gateway_auth::token::{open_token, seal_token};

const ID: u128 = 0x67e5_5044_10b1_426f_9247_bb68_0e5f_e0c8;

fn account(password: &str, role: &str, is_active: bool) -> Account {
    Account {
        id: ID,
        username: "alice".to_string(),
        password_hash: hash_password(password).unwrap(),
        role: role.to_string(),
        is_active,
    }
}

fn login(password: &str) -> LoginRequest {
    LoginRequest { username: "alice".to_string(), password: password.to_string() }
}

fn claims_json(c: &Claims) -> Vec<u8> {
    let mut m = serde_json::Map::new();
    m.insert("sub".to_string(), serde_json::Value::from(c.sub.clone()));
    m.insert("username".to_string(), serde_json::Value::from(c.username.clone()));
    m.insert("role".to_string(), serde_json::Value::from(c.role.clone()));
    m.insert("exp".to_string(), serde_json::Value::from(c.exp));
    m.insert("iat".to_string(), serde_json::Value::from(c.iat));
    serde_json::to_vec(&m).unwrap()
}

fn claims_from_json(bytes: &[u8]) -> Option<Claims> {
    let v: serde_json::Value = serde_json::from_slice(bytes).ok()?;
    Some(Claims {
        sub: v["sub"].as_str()?.to_string(),
        username: v["username"].as_str()?.to_string(),
        role: v["role"].as_str()?.to_string(),
        exp: v["exp"].as_u64()?,
        iat: v["iat"].as_u64()?,
    })
}

#[test]
fn taken_name_is_conflict() {
    let req = CreateUserRequest {
        username: "alice".to_string(),
        email: "alice@example.com".to_string(),
        password: "secret123".to_string(),
    };
    assert_eq!(prepare_registration(req, true).err(), Some(ApiError::Conflict));
    assert_eq!(ApiError::Conflict.status_code(), 409);
}

#[test]
fn registration_hashes_and_gives_user_role() {
    let req = CreateUserRequest {
        username: "alice".to_string(),
        email: "alice@example.com".to_string(),
        password: "secret123".to_string(),
    };
    let u = prepare_registration(req, false).ok().unwrap();
    assert_eq!(u.username, "alice");
    assert_eq!(u.email, "alice@example.com");
    assert_eq!(u.role, "user");
    assert_ne!(u.password_hash, "secret123");
    assert_eq!(u.password_hash.len(), 60);
    assert!(u.password_hash.starts_with("$2b$12$"));
    assert_eq!(verify_password("secret123", &u.password_hash), Ok(true));
}

#[test]
fn unknown_account_is_unauthorized() {
    assert_eq!(login_claims(&login("x"), None, 1_000, 15).err(), Some(ApiError::Unauthorized));
}

#[test]
fn inactive_account_is_unauthorized() {
    let a = account("pw", "user", false);
    assert_eq!(login_claims(&login("pw"), Some(a), 1_000, 15).err(), Some(ApiError::Unauthorized));
}

#[test]
fn wrong_password_is_unauthorized() {
    let a = account("pw", "user", true);
    assert_eq!(login_claims(&login("wrong"), Some(a), 1_000, 15).err(), Some(ApiError::Unauthorized));
}

#[test]
fn malformed_stored_digest_is_internal() {
    let a = Account {
        id: ID,
        username: "alice".to_string(),
        password_hash: "plain".to_string(),
        role: "user".to_string(),
        is_active: true,
    };
    assert_eq!(login_claims(&login("plain"), Some(a), 1_000, 15).err(), Some(ApiError::Internal));
    assert_eq!(ApiError::Internal.status_code(), 500);
}

#[test]
fn login_issues_claims_for_the_account() {
    let a = account("pw", "admin", true);
    let c = login_claims(&login("pw"), Some(a), 1_000, 2).ok().unwrap();
    assert_eq!(c.sub, "67e55044-10b1-426f-9247-bb680e5fe0c8");
    assert_eq!(c.username, "alice");
    assert_eq!(c.role, "admin");
    assert_eq!(c.iat, 1_000);
    assert_eq!(c.exp, 1_000 + 2 * 86_400);
    assert_eq!(current_user_id(&c), Ok(ID));
}

#[test]
fn login_at_end_of_time_is_internal() {
    let a = account("pw", "user", true);
    assert_eq!(login_claims(&login("pw"), Some(a), u64::MAX - 10, 15).err(), Some(ApiError::Internal));
}

#[test]
fn subject_that_is_not_a_uuid_is_internal() {
    let c = Claims {
        sub: "nope".to_string(),
        username: "a".to_string(),
        role: "user".to_string(),
        exp: 2,
        iat: 1,
    };
    assert_eq!(current_user_id(&c), Err(ApiError::Internal));
}

#[test]
fn missing_row_is_not_found() {
    assert_eq!(require_found::<u8>(None), Err(ApiError::NotFound));
    assert_eq!(require_found(Some(3u8)), Ok(3));
    assert_eq!(ApiError::NotFound.status_code(), 404);
}

#[test]
fn register_login_and_read_identity() {
    let secret = b"test-secret";
    let req = CreateUserRequest {
        username: "alice".to_string(),
        email: "alice@example.com".to_string(),
        password: "secret123".to_string(),
    };
    let row = prepare_registration(req, false).ok().unwrap();
    let stored = Account {
        id: ID,
        username: row.username,
        password_hash: row.password_hash,
        role: row.role,
        is_active: true,
    };
    let now: u64 = 1_700_000_000;
    let c = login_claims(&login("secret123"), Some(stored), now, 15).ok().unwrap();
    let token = seal_token(br#"{"typ":"JWT","alg":"HS256"}"#, &claims_json(&c), secret);

    let header = format!("Bearer {}", token);
    let bearer = extract_bearer(Some(&header)).unwrap();
    let (_, payload) = open_token(&bearer, secret).unwrap();
    let verified = accept_claims(true, claims_from_json(&payload), now + 60);
    let me = decide_access(AccessPolicy::Authenticated, verified).unwrap();
    assert_eq!(me.username, "alice");
    assert_eq!(me.role, "user");
    assert_eq!(current_user_id(&me), Ok(ID));

    let again = accept_claims(true, claims_from_json(&payload), now + 60);
    assert_eq!(decide_access(AccessPolicy::AdminOnly, again).unwrap_err(), Rejection::Forbidden);
}

#[test]
fn subject_is_hyphenated_lower_hex() {
    let a = account("pw", "user", true);
    let c = login_claims(&login("pw"), Some(a), 0, 1).ok().unwrap();
    assert_eq!(c.sub.len(), 36);
    for (i, ch) in c.sub.chars().enumerate() {
        if [8, 13, 18, 23].contains(&i) {
            assert_eq!(ch, '-');
        } else {
            assert!(ch.is_ascii_digit() || ('a'..='f').contains(&ch));
        }
    }
}
