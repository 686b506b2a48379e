use auth::error::{AppError, ErrorOutcome, FatalError, StorageError, ValidationErrors};
use auth::handler::policy::permissions;
use auth::handler::session::{create, CreateQuery};
use auth::model::account::Account;
use auth::model::simple_user::SimpleUser;
use auth::service::account::AccountService;
use auth::service::casbin::CasbinService;
use auth::service::token::TokenService;
use auth::types::Role;

fn token_service(secret: &str) -> TokenService {
    TokenService {
        secret: secret.to_string(),
        access_token_lifetime_ms: 3_600_000,
        refresh_token_lifetime_ms: 86_400_000,
    }
}

fn account() -> Account {
    Account { id: 7, email: "alice@example.com".to_string() }
}

fn decode_value(token: &str, secret: &str) -> serde_json::Value {
    jsonwebtoken::decode::<serde_json::Value>(
        token,
        &jsonwebtoken::DecodingKey::from_secret(secret.as_bytes()),
        &jsonwebtoken::Validation::default(),
    )
    .expect("token must verify")
    .claims
}

fn encode_value(claims: &serde_json::Value, secret: &str) -> String {
    jsonwebtoken::encode(
        &jsonwebtoken::Header::default(),
        claims,
        &jsonwebtoken::EncodingKey::from_secret(secret.as_bytes()),
    )
    .expect("encoding must succeed")
}

fn policy_rules() -> CasbinService {
    let rule = |s: &str, a: &str, r: &str| vec![s.to_string(), a.to_string(), r.to_string()];
    CasbinService {
        rules: vec![
            rule("User", "read", "doc"),
            rule("User", "write", "doc"),
            rule("User", "read", "img"),
            rule("Guest", "read", "doc"),
        ],
    }
}

#[test]
fn access_token_claims_match_input() {
    let ts = token_service("s3cret");
    let before = chrono::Utc::now().timestamp_millis();
    let token = ts.generate_access_token(&account(), Role::User).expect("token issued");
    let after = chrono::Utc::now().timestamp_millis();
    assert_eq!(token.matches('.').count(), 2);
    let claims = decode_value(&token, "s3cret");
    assert_eq!(claims["account_id"].as_i64(), Some(7));
    assert_eq!(claims["name"].as_str(), Some("alice@example.com"));
    assert_eq!(claims["role"].as_str(), Some("User"));
    let exp = claims["exp"].as_i64().expect("exp claim present");
    assert!(exp >= before + 3_600_000 && exp <= after + 3_600_000);
}

#[test]
fn refresh_token_claims_match_input() {
    let ts = token_service("s3cret");
    let before = chrono::Utc::now().timestamp_millis();
    let token = ts.generate_refresh_token(&account()).expect("token issued");
    let after = chrono::Utc::now().timestamp_millis();
    let claims = decode_value(&token, "s3cret");
    assert_eq!(claims["account_id"].as_i64(), Some(7));
    assert!(claims.get("name").is_none());
    assert!(claims.get("role").is_none());
    let exp = claims["exp"].as_i64().expect("exp claim present");
    assert!(exp >= before + 86_400_000 && exp <= after + 86_400_000);
}

#[test]
fn round_trip_through_library_decoder() {
    let ts = token_service("s3cret");
    let token = ts.generate_access_token(&account(), Role::Spec).expect("token issued");
    let user = SimpleUser::from_token(&token, "s3cret").expect("token must verify");
    assert_eq!(user.account_id, 7);
    assert_eq!(user.name, "alice@example.com");
    assert_eq!(user.role, "Spec");
}

#[test]
fn decoding_with_other_secret_fails() {
    let ts = token_service("s3cret");
    let token = ts.generate_access_token(&account(), Role::User).expect("token issued");
    let result = SimpleUser::from_token(&token, "another-secret");
    assert!(matches!(result, Err(AppError::JwtError(_))));
}

#[test]
fn expired_token_fails_even_with_valid_signature() {
    let mut claims = serde_json::Map::new();
    claims.insert("account_id".to_string(), serde_json::Value::from(7i64));
    claims.insert("name".to_string(), serde_json::Value::from("alice@example.com"));
    claims.insert("role".to_string(), serde_json::Value::from("User"));
    claims.insert("exp".to_string(), serde_json::Value::from(1000i64));
    let token = encode_value(&serde_json::Value::Object(claims), "s3cret");
    let result = SimpleUser::from_token(&token, "s3cret");
    assert!(matches!(result, Err(AppError::JwtError(_))));
}

#[test]
fn expired_token_fails_even_when_the_seconds_reading_would_pass() {
    // An exp written in epoch-milliseconds that lies hours in the past reads
    // as the far future when mistaken for seconds; the library must still
    // reject it against the millisecond clock.
    let past_ms = chrono::Utc::now().timestamp_millis() - 3_600_000;
    let mut claims = serde_json::Map::new();
    claims.insert("account_id".to_string(), serde_json::Value::from(7i64));
    claims.insert("name".to_string(), serde_json::Value::from("alice@example.com"));
    claims.insert("role".to_string(), serde_json::Value::from("User"));
    claims.insert("exp".to_string(), serde_json::Value::from(past_ms));
    let token = encode_value(&serde_json::Value::Object(claims), "s3cret");
    let result = SimpleUser::from_token(&token, "s3cret");
    assert!(matches!(result, Err(AppError::JwtError(_))));
}

#[test]
fn token_with_missing_claims_fails() {
    let now = chrono::Utc::now().timestamp_millis();
    let mut claims = serde_json::Map::new();
    claims.insert("exp".to_string(), serde_json::Value::from(now + 3_600_000));
    let token = encode_value(&serde_json::Value::Object(claims), "s3cret");
    let result = SimpleUser::from_token(&token, "s3cret");
    assert!(matches!(result, Err(AppError::JwtError(_))));
}

#[test]
fn guest_identity_is_fixed() {
    let guest = SimpleUser::guest();
    assert_eq!(guest.account_id, 0);
    assert_eq!(guest.name, "Guest");
    assert_eq!(guest.role, "Guest");
}

#[test]
fn missing_header_resolves_guest_permissions() {
    let asvc = AccountService { secret: "s3cret".to_string() };
    let csvc = policy_rules();
    let entries = permissions(None, &asvc, &csvc).expect("guest resolution never errors");
    assert_eq!(entries.len(), 1);
    assert_eq!(entries[0].resource, "doc");
    assert_eq!(entries[0].actions, vec!["read".to_string()]);
}

#[test]
fn wrong_scheme_is_bad_request_not_unauthorized() {
    let asvc = AccountService { secret: "s3cret".to_string() };
    let csvc = policy_rules();
    let result = permissions(Some("Basic abc"), &asvc, &csvc);
    let err = result.err().expect("wrong scheme must fail");
    match &err {
        AppError::HTTPBadRequest(message) => assert_eq!(message, "Invalid header"),
        other => panic!("expected a bad request, got {other:?}"),
    }
    let outcome = err.error_response();
    assert!(matches!(outcome, ErrorOutcome::BadRequest(_)));
    assert_eq!(outcome.client_message(), "Invalid header");
}

#[test]
fn tampered_token_is_unauthorized_with_cause_kept() {
    let asvc = AccountService { secret: "s3cret".to_string() };
    let csvc = policy_rules();
    let ts = token_service("s3cret");
    let token = ts.generate_access_token(&account(), Role::User).expect("token issued");
    let mut tampered = token.clone();
    let last = tampered.pop().expect("token is not empty");
    tampered.push(if last == 'A' { 'B' } else { 'A' });
    let header = format!("Bearer {tampered}");
    let err = permissions(Some(&header), &asvc, &csvc).err().expect("tampering must fail");
    match err {
        AppError::JwtError(ref cause) => assert!(!cause.is_empty()),
        ref other => panic!("expected a token verification error, got {other:?}"),
    }
    let outcome = err.error_response();
    match &outcome {
        ErrorOutcome::Unauthorized(cause) => assert!(!cause.is_empty()),
        other => panic!("expected an unauthorized outcome, got {other:?}"),
    }
    assert_eq!(outcome.client_message(), "Unauthorized");
}

#[test]
fn bearer_scheme_is_case_insensitive_and_trimmed() {
    let asvc = AccountService { secret: "s3cret".to_string() };
    let csvc = policy_rules();
    let ts = token_service("s3cret");
    let token = ts.generate_access_token(&account(), Role::User).expect("token issued");
    for header in [format!("bearer  {token} "), format!("BEARER {token}"), format!("Bearer {token}")] {
        let entries = permissions(Some(&header), &asvc, &csvc).expect("valid token resolves");
        assert_eq!(entries.len(), 2);
        assert_eq!(entries[0].resource, "doc");
        assert_eq!(entries[0].actions, vec!["read".to_string(), "write".to_string()]);
        assert_eq!(entries[1].resource, "img");
        assert_eq!(entries[1].actions, vec!["read".to_string()]);
    }
}

#[test]
fn bearer_scheme_with_empty_token_is_unauthorized() {
    let asvc = AccountService { secret: "s3cret".to_string() };
    let result = asvc.get_current_user("Bearer");
    assert!(matches!(result, Err(AppError::JwtError(_))));
}

#[test]
fn not_found_is_distinct_from_storage_failure() {
    let asvc = AccountService { secret: "s3cret".to_string() };
    let missing = asvc.find_account_by_login(Ok(None));
    assert!(matches!(
        missing,
        Err(AppError::SqlxError(StorageError::RowNotFound))
    ));
    let broken = asvc.find_account_by_login(Err("connection refused".to_string()));
    match broken {
        Err(AppError::SqlxError(StorageError::Other(message))) => {
            assert_eq!(message, "connection refused");
        }
        other => panic!("expected a storage fault, got {other:?}"),
    }
    let found = asvc.find_account_by_login(Ok(Some(account()))).expect("account resolves");
    assert_eq!(found.id, 7);
    assert_eq!(found.email, "alice@example.com");
}

#[test]
fn permission_resolution_groups_actions_by_resource() {
    let csvc = policy_rules();
    let entries = csvc.get_permissions_for_role("User");
    assert_eq!(entries.len(), 2);
    assert_eq!(entries[0].resource, "doc");
    assert_eq!(entries[0].actions, vec!["read".to_string(), "write".to_string()]);
    assert_eq!(entries[1].resource, "img");
    assert_eq!(entries[1].actions, vec!["read".to_string()]);
}

#[test]
fn role_with_no_rules_resolves_empty() {
    let csvc = policy_rules();
    let entries = csvc.get_permissions_for_role("Nobody");
    assert!(entries.is_empty());
}

#[test]
fn malformed_policy_rows_are_skipped() {
    let csvc = CasbinService {
        rules: vec![
            vec!["User".to_string()],
            vec!["User".to_string(), "read".to_string()],
            vec!["User".to_string(), "read".to_string(), "doc".to_string()],
        ],
    };
    let entries = csvc.get_permissions_for_role("User");
    assert_eq!(entries.len(), 1);
    assert_eq!(entries[0].resource, "doc");
    assert_eq!(entries[0].actions, vec!["read".to_string()]);
}

#[test]
fn create_session_issues_both_tokens() {
    let asvc = AccountService { secret: "s3cret".to_string() };
    let ts = token_service("s3cret");
    let query = CreateQuery { role: Role::Spec };
    let response = create(Ok(Some(account())), &query, &asvc, &ts).expect("session created");
    let access = decode_value(&response.access_token, "s3cret");
    assert_eq!(access["account_id"].as_i64(), Some(7));
    assert_eq!(access["name"].as_str(), Some("alice@example.com"));
    assert_eq!(access["role"].as_str(), Some("Spec"));
    let refresh = decode_value(&response.refresh_token, "s3cret");
    assert_eq!(refresh["account_id"].as_i64(), Some(7));
    assert!(refresh.get("role").is_none());
}

#[test]
fn create_session_reports_missing_account() {
    let asvc = AccountService { secret: "s3cret".to_string() };
    let ts = token_service("s3cret");
    let query = CreateQuery { role: Role::User };
    let result = create(Ok(None), &query, &asvc, &ts);
    assert!(matches!(
        result,
        Err(AppError::SqlxError(StorageError::RowNotFound))
    ));
    let failed = create(Err("timeout".to_string()), &query, &asvc, &ts);
    assert!(matches!(
        failed,
        Err(AppError::SqlxError(StorageError::Other(_)))
    ));
}

#[test]
fn every_failure_kind_maps_to_its_outcome() {
    assert!(matches!(
        AppError::Argon2Error("hashing failed".to_string()).error_response(),
        ErrorOutcome::InternalFault(_)
    ));
    assert!(matches!(
        AppError::SqlxError(StorageError::RowNotFound).error_response(),
        ErrorOutcome::NotFound
    ));
    assert!(matches!(
        AppError::SqlxError(StorageError::Other("down".to_string())).error_response(),
        ErrorOutcome::InternalFault(_)
    ));
    assert!(matches!(
        AppError::BlockingError("pool gone".to_string()).error_response(),
        ErrorOutcome::InternalFault(_)
    ));
    assert!(matches!(
        AppError::JwtError("bad signature".to_string()).error_response(),
        ErrorOutcome::Unauthorized(_)
    ));
    match AppError::SomeFatalError(FatalError { message: "boom".to_string() }).error_response() {
        ErrorOutcome::InternalFault(detail) => assert_eq!(detail, "boom"),
        other => panic!("expected an internal fault, got {other:?}"),
    }
    match AppError::HTTPBadRequest("Invalid header".to_string()).error_response() {
        ErrorOutcome::BadRequest(message) => assert_eq!(message, "Invalid header"),
        other => panic!("expected a bad request, got {other:?}"),
    }
    let detail = ValidationErrors {
        field_errors: vec![(
            "email".to_string(),
            vec![Some("must not be empty".to_string()), None],
        )],
    };
    match AppError::ValidationErrors(detail).error_response() {
        ErrorOutcome::Unprocessable(errs) => {
            assert_eq!(errs.field_errors.len(), 1);
            assert_eq!(errs.field_errors[0].0, "email");
        }
        other => panic!("expected an unprocessable outcome, got {other:?}"),
    }
}

#[test]
fn caller_visible_messages_are_generic_where_detail_is_logged() {
    assert_eq!(
        ErrorOutcome::InternalFault("driver stack trace".to_string()).client_message(),
        "Internal Server Error"
    );
    assert_eq!(ErrorOutcome::NotFound.client_message(), "Not found");
    assert_eq!(
        ErrorOutcome::Unauthorized("InvalidSignature".to_string()).client_message(),
        "Unauthorized"
    );
    assert_eq!(
        ErrorOutcome::BadRequest("Invalid header".to_string()).client_message(),
        "Invalid header"
    );
    assert_eq!(
        ErrorOutcome::Unprocessable(ValidationErrors { field_errors: vec![] }).client_message(),
        "Unprocessable Entity"
    );
}
