use etched_backend::claims::{render_claims, Claims};
use etched_backend::config::{parse_admin_addresses, Config};
use etched_backend::error::ApiError;
use etched_backend::identity::{CredentialKind, Role};
use etched_backend::state::AppState;

fn create_test_state() -> AppState {
    let config = Config {
        jwt_secret: "test".to_string(),
        admin_addresses: vec!["0xadmin".to_string()],
        bind_addr: "0.0.0.0:8080".to_string(),
        public_base_url: "http://localhost:8080".to_string(),
        metadata_dir: "./test_data".to_string(),
    };
    AppState::new(config)
}

#[test]
fn test_resolve_role_admin() {
    let state = create_test_state();
    assert_eq!(state.resolve_role("0xadmin"), "admin");
}

#[test]
fn test_resolve_role_certificator() {
    let state = create_test_state();
    assert_eq!(state.resolve_role("0xunknown"), "certificator");
}

#[test]
fn test_resolve_role_validator() {
    let mut state = create_test_state();
    state.store.add_validator("0xvalidator".to_string());
    assert_eq!(state.resolve_role("0xvalidator"), "validator");
}

#[test]
fn resolve_role_admin_wins_over_validator_record() {
    let mut state = create_test_state();
    state.store.add_validator("0xadmin".to_string());
    assert_eq!(state.resolve_role("0xadmin"), "admin");
    assert!(state.store.remove_validator("0xadmin"));
    assert!(!state.store.remove_validator("0xadmin"));
}

#[test]
fn test_claims_serialize() {
    let claims = Claims {
        sub: "0x123".to_string(),
        role: Role::Admin,
        auth_type: CredentialKind::Wallet,
        exp: 1234567890,
    };
    let json = render_claims(&claims);
    assert!(json.contains("0x123"));
    assert_eq!(json, r#"{"sub":"0x123","role":"admin","auth_type":"wallet","exp":1234567890}"#);
}

#[test]
fn test_unauthorized_status() {
    let err = ApiError::Unauthorized;
    assert_eq!(err.status_code(), 401);
}

#[test]
fn test_forbidden_status() {
    let err = ApiError::Forbidden;
    assert_eq!(err.status_code(), 403);
}

#[test]
fn test_not_found_status() {
    let err = ApiError::NotFound;
    assert_eq!(err.status_code(), 404);
}

#[test]
fn test_bad_request_status() {
    let err = ApiError::BadRequest("test error".into());
    assert_eq!(err.status_code(), 400);
    assert_eq!(err.message(), "test error");
    assert_eq!(err.tag(), "bad_request");
}

#[test]
fn test_internal_status() {
    let err = ApiError::Internal;
    assert_eq!(err.status_code(), 500);
    assert_eq!(err.tag(), "internal_error");
}

#[test]
fn test_config_defaults() {
    let config = Config::from_settings(None, None, None, None, None);
    assert_eq!(config.jwt_secret, "super-secret");
    assert_eq!(config.bind_addr, "0.0.0.0:8080");
    assert!(config.admin_addresses.is_empty());
}

#[test]
fn test_config_from_env() {
    let config = Config::from_settings(
        Some("test-secret".to_string()),
        Some("0xabc,0xdef".to_string()),
        Some("127.0.0.1:9000".to_string()),
        None,
        None,
    );
    assert_eq!(config.jwt_secret, "test-secret");
    assert_eq!(config.bind_addr, "127.0.0.1:9000");
    assert!(config.admin_addresses.contains(&"0xabc".to_string()));
    assert!(config.admin_addresses.contains(&"0xdef".to_string()));
}

#[test]
fn admin_list_is_trimmed_lowercased_and_skips_blanks() {
    assert_eq!(parse_admin_addresses(" 0xAB ,, 0xCd,"), vec!["0xab".to_string(), "0xcd".to_string()]);
    assert_eq!(parse_admin_addresses("0xab,0xAB,\t0xab\n"), vec!["0xab".to_string()]);
    assert!(parse_admin_addresses("").is_empty());
    let state = AppState::new(Config::from_settings(None, Some("0xADMIN".to_string()), None, None, None));
    assert_eq!(state.resolve_role("0xadmin"), "admin");
}
