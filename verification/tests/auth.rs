use diagrammer::auth::jwt::{
    claims_from_json, claims_to_json, create_token_at, issue_token, issue_token_at_reading,
    validate_token_at, DEFAULT_EXPIRY_SECS,
};
use diagrammer::auth::{
    create_token, hash_password, validate_token, verify_password, TokenConfig, User, UserInfo,
    UserRole,
};

#[test]
fn test_create_and_validate_token() {
    let config = TokenConfig::default();

    let (token, expires_at) = create_token("user-123", "testuser", "user", &config).unwrap();

    assert!(!token.is_empty());
    assert!(expires_at > 0);

    let claims = validate_token(&token, &config).unwrap();
    assert_eq!(claims.sub, "user-123");
    assert_eq!(claims.username, "testuser");
    assert_eq!(claims.role, "user");
}

#[test]
fn test_invalid_token() {
    let config = TokenConfig::default();

    let result = validate_token("invalid-token", &config);
    assert!(result.is_err());
}

#[test]
fn test_wrong_secret() {
    let config1 = TokenConfig::default();
    let config2 = TokenConfig {
        secret: "different-secret".to_string(),
        ..Default::default()
    };

    let (token, _) = create_token("user-123", "testuser", "user", &config1).unwrap();

    let result = validate_token(&token, &config2);
    assert!(result.is_err());
}

#[test]
fn test_hash_and_verify() {
    let password = "secure-password-123";
    let hash = hash_password(password).unwrap();

    assert_ne!(hash, password);

    assert!(verify_password(password, &hash).unwrap());

    assert!(!verify_password("wrong-password", &hash).unwrap());
}

#[test]
fn test_different_hashes_same_password() {
    let password = "test-password";

    let hash1 = hash_password(password).unwrap();
    let hash2 = hash_password(password).unwrap();

    assert_ne!(hash1, hash2);

    assert!(verify_password(password, &hash1).unwrap());
    assert!(verify_password(password, &hash2).unwrap());
}

#[test]
fn verify_fails_on_a_malformed_hash() {
    let err = verify_password("pw", "not-a-hash").unwrap_err();
    assert!(err.starts_with("Password verification error: "));
}

#[test]
fn default_token_config() {
    let config = TokenConfig::default();
    assert_eq!(config.secret, "diagrammer-jwt-secret-change-in-production");
    assert_eq!(config.expiry_secs, 24 * 60 * 60);
    assert_eq!(DEFAULT_EXPIRY_SECS, 86400);
}

#[test]
fn token_states_issue_and_expiry() {
    let config = TokenConfig {
        secret: "s3cret".to_string(),
        expiry_secs: 100,
    };
    let (token, expires_at) = create_token_at("u", "n", "admin", &config, 1_000).unwrap();
    assert_eq!(expires_at, 1_100_000);
    assert_eq!(token.split('.').count(), 3);

    let claims = validate_token_at(&token, "s3cret", 1_050).unwrap();
    assert_eq!(claims.sub, "u");
    assert_eq!(claims.username, "n");
    assert_eq!(claims.role, "admin");
    assert_eq!(claims.iat, 1_000);
    assert_eq!(claims.exp, 1_100);
    assert!(claims.exp > claims.iat);
}

#[test]
fn token_expires_after_its_expiry_and_not_at_it() {
    let config = TokenConfig {
        secret: "s3cret".to_string(),
        expiry_secs: 100,
    };
    let (token, _) = create_token_at("u", "n", "user", &config, 1_000).unwrap();
    assert!(validate_token_at(&token, "s3cret", 1_100).is_ok());
    assert_eq!(
        validate_token_at(&token, "s3cret", 1_101).unwrap_err(),
        "Token expired"
    );
    // Long after its expiry the token is still told from an invalid one.
    assert_eq!(
        validate_token_at(&token, "s3cret", 1_000_000).unwrap_err(),
        "Token expired"
    );
}

#[test]
fn invalid_tokens_are_told_from_expired_ones() {
    let config = TokenConfig {
        secret: "s3cret".to_string(),
        expiry_secs: 100,
    };
    let (token, _) = create_token_at("u", "n", "user", &config, 1_000).unwrap();
    let err = validate_token_at(&token, "other", 1_050).unwrap_err();
    assert!(err.starts_with("Token validation error: "));
    let err = validate_token_at("a.b.c", "s3cret", 1_050).unwrap_err();
    assert!(err.starts_with("Token validation error: "));
    let mut tampered = token.clone();
    tampered.push('x');
    let err = validate_token_at(&tampered, "s3cret", 1_050).unwrap_err();
    assert!(err.starts_with("Token validation error: "));
}

#[test]
fn a_token_without_all_claims_is_invalid() {
    let mut payload = serde_json::Map::new();
    payload.insert("sub".to_string(), serde_json::Value::from("u"));
    payload.insert("exp".to_string(), serde_json::Value::from(2_000u64));
    let token = jsonwebtoken::encode(
        &jsonwebtoken::Header::default(),
        &payload,
        &jsonwebtoken::EncodingKey::from_secret(b"s3cret"),
    )
    .unwrap();
    let err = validate_token_at(&token, "s3cret", 1_000).unwrap_err();
    assert!(err.starts_with("Token validation error: "));
}

#[test]
fn claims_round_trip_through_json() {
    let config = TokenConfig {
        secret: "k".to_string(),
        expiry_secs: 7,
    };
    let (token, _) = create_token_at("id-1", "name", "user", &config, 5).unwrap();
    let claims = validate_token_at(&token, "k", 5).unwrap();
    let json = claims_to_json(&claims);
    assert_eq!(json["sub"], "id-1");
    assert_eq!(json["username"], "name");
    assert_eq!(json["role"], "user");
    assert_eq!(json["iat"], 5);
    assert_eq!(json["exp"], 12);
    let back = claims_from_json(&json).unwrap();
    assert_eq!(back.sub, claims.sub);
    assert_eq!(back.exp, claims.exp);
    assert!(claims_from_json(&serde_json::Value::Null).is_none());
}

#[test]
fn user_info_leaves_the_credential_out() {
    let user = User {
        id: "1".to_string(),
        display_name: "Alice".to_string(),
        username: "alice".to_string(),
        password_hash: "hash".to_string(),
        role: UserRole::Admin,
        created_at: 5,
        last_login_at: Some(9),
    };
    let info = UserInfo::from(&user);
    assert_eq!(info.id, "1");
    assert_eq!(info.display_name, "Alice");
    assert_eq!(info.username, "alice");
    assert_eq!(info.role, UserRole::Admin);
    assert_eq!(info.created_at, 5);
    assert_eq!(info.last_login_at, Some(9));
}

#[test]
fn a_token_is_issued_exactly_where_its_expiry_is_in_range() {
    let config = TokenConfig {
        secret: "k".to_string(),
        expiry_secs: 10,
    };
    let limit = u64::MAX / 1000 - 10;
    let (token, expires_at) = issue_token("u", "n", "user", &config, limit).unwrap();
    assert_eq!(expires_at, (limit + 10) * 1000);
    assert_eq!(validate_token_at(&token, "k", limit).unwrap().exp, limit + 10);
    assert_eq!(
        issue_token("u", "n", "user", &config, limit + 1).unwrap_err(),
        "Time error: expiry out of range"
    );
    assert_eq!(
        issue_token("u", "n", "user", &config, u64::MAX).unwrap_err(),
        "Time error: expiry out of range"
    );
    let (_, expires_at) = issue_token("u", "n", "user", &config, 0).unwrap();
    assert_eq!(expires_at, 10_000);
}

#[test]
fn a_clock_before_the_epoch_issues_no_token() {
    let config = TokenConfig {
        secret: "k".to_string(),
        expiry_secs: 10,
    };
    assert_eq!(
        issue_token_at_reading("u", "n", "user", &config, None).unwrap_err(),
        "Time error: second time provided was later than self"
    );
    let (token, expires_at) =
        issue_token_at_reading("u", "n", "user", &config, Some(5_999)).unwrap();
    assert_eq!(expires_at, 15_000);
    let claims = validate_token_at(&token, "k", 5).unwrap();
    assert_eq!((claims.iat, claims.exp), (5, 15));
    assert_eq!(
        issue_token_at_reading("u", "n", "user", &config, Some(u64::MAX)).unwrap_err(),
        "Time error: expiry out of range"
    );
}

#[test]
fn a_token_has_three_parts() {
    let config = TokenConfig {
        secret: String::new(),
        expiry_secs: 0,
    };
    let (token, _) = issue_token("", "", "", &config, 0).unwrap();
    assert!(!token.is_empty());
    assert_eq!(token.split('.').count(), 3);
}
