use iam_core::auth_service::AuthSerivce;
use iam_core::config::ConfigService;
use iam_core::errors::AuthError;

fn service_with_secret() -> AuthSerivce {
    let mut config = ConfigService::new();
    config.set_env(
        String::from("IAM_JWT_SECRET"),
        String::from("a-test-signing-secret-of-decent-length"),
    );
    AuthSerivce::new(config)
}

#[test]
fn sign_verify_round_trip() {
    let auth = service_with_secret();
    let payload = String::from("an opaque payload | with odd chars \\ inside");
    let token = auth.sign(payload.clone(), 3600, None).unwrap();
    let back = auth.verify(token, None).unwrap();
    assert_eq!(back, payload);
}

#[test]
fn expired_token_yields_expiration_error() {
    let auth = service_with_secret();
    let token = auth.sign(String::from("short lived"), -1, None).unwrap();
    let result = auth.verify(token, None);
    assert_eq!(result, Err(AuthError::JWTExpirationError));
}

#[test]
fn far_past_expiry_yields_expiration_error() {
    let auth = service_with_secret();
    let token = auth.sign(String::from("long gone"), -86400, None).unwrap();
    assert_eq!(auth.verify(token, None), Err(AuthError::JWTExpirationError));
}

#[test]
fn tampering_with_any_signature_byte_is_rejected() {
    let auth = service_with_secret();
    let token = auth.sign(String::from("payload under test"), 3600, None).unwrap();
    let last_dot = token.rfind('.').expect("a token has a signature segment");
    let sig_start = last_dot + 1;
    for i in sig_start..token.len() {
        let mut bytes = token.clone().into_bytes();
        bytes[i] = if bytes[i] == b'A' { b'B' } else { b'A' };
        let tampered = String::from_utf8(bytes).unwrap();
        if tampered == token {
            continue;
        }
        let result = auth.verify(tampered, None);
        assert_eq!(result, Err(AuthError::JWTVerificationError), "byte {} slipped through", i);
    }
}

#[test]
fn wrong_secret_is_rejected() {
    let signer = service_with_secret();
    let token = signer.sign(String::from("data"), 3600, None).unwrap();
    let mut other_config = ConfigService::new();
    other_config.set_env(String::from("IAM_JWT_SECRET"), String::from("another-secret"));
    let other = AuthSerivce::new(other_config);
    assert_eq!(other.verify(token, None), Err(AuthError::JWTVerificationError));
}

#[test]
fn missing_secret_never_falls_back() {
    let auth = AuthSerivce::new(ConfigService::new());
    assert_eq!(
        auth.sign(String::from("data"), 3600, None),
        Err(AuthError::InternalServerError)
    );
    assert_eq!(
        auth.verify(String::from("a.b.c"), None),
        Err(AuthError::InternalServerError)
    );
}

#[test]
fn named_keys_give_independent_secrets() {
    let mut config = ConfigService::new();
    config.set_env(String::from("IAM_JWT_SECRET"), String::from("login-secret"));
    config.set_env(String::from("IAM_MAGIC_JWT_SECRET"), String::from("magic-secret"));
    let auth = AuthSerivce::new(config);
    let token = auth
        .sign(String::from("pid-123"), 900, Some(String::from("IAM_MAGIC_JWT_SECRET")))
        .unwrap();
    let back = auth
        .verify(token.clone(), Some(String::from("IAM_MAGIC_JWT_SECRET")))
        .unwrap();
    assert_eq!(back, "pid-123");
    // the login namespace must not accept a magic-link token
    assert_eq!(auth.verify(token, None), Err(AuthError::JWTVerificationError));
}

#[test]
fn unrepresentable_expiry_is_duration_error() {
    let auth = service_with_secret();
    assert_eq!(
        auth.sign(String::from("data"), i64::MAX, None),
        Err(AuthError::JWTDurationError)
    );
}

#[test]
fn malformed_token_is_verification_error() {
    let auth = service_with_secret();
    assert_eq!(
        auth.verify(String::from("not-a-token"), None),
        Err(AuthError::JWTVerificationError)
    );
    assert_eq!(
        auth.verify(String::from(""), None),
        Err(AuthError::JWTVerificationError)
    );
}
