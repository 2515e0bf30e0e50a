use etched_backend::address::build_challenge;
use etched_backend::config::Config;
use etched_backend::error::ApiError;
use etched_backend::gateway::login_key;
use etched_backend::identity::{CredentialKind, Role};
use etched_backend::models::{User, UserPublic};
use etched_backend::signature::{check_signature_text, check_signer, SignatureCheckError};
use etched_backend::state::AppState;
use ethers_core::k256::ecdsa::SigningKey;

const NOW: u64 = 1_700_000_000;

fn state_with_admins(admins: Vec<String>) -> AppState {
    AppState::new(Config {
        jwt_secret: "unit-secret".to_string(),
        admin_addresses: admins,
        bind_addr: "127.0.0.1:0".to_string(),
        public_base_url: "http://localhost".to_string(),
        metadata_dir: "./data".to_string(),
    })
}

fn key(byte: u8) -> SigningKey {
    SigningKey::from_slice(&[byte; 32]).unwrap()
}

fn address_of(k: &SigningKey) -> String {
    format!("0x{:x}", ethers_core::utils::secret_key_to_address(k))
}

fn sign(k: &SigningKey, message: &str) -> String {
    let hash = ethers_core::utils::hash_message(message);
    let (sig, recid) = k.sign_prehash_recoverable(hash.as_bytes()).unwrap();
    let mut bytes = sig.to_bytes().to_vec();
    bytes.push(recid.to_byte() + 27);
    let hex: String = bytes.iter().map(|b| format!("{:02x}", b)).collect();
    format!("0x{}", hex)
}

#[test]
fn signature_round_trip_recovers_signer() {
    let k = key(0x11);
    let addr = address_of(&k);
    let message = "Login to Etched: 123";
    let sig = sign(&k, message);
    assert!(check_signature_text(&sig));
    assert_eq!(check_signer(message, &sig, &addr), Ok(()));
    assert_eq!(check_signer(message, &sig[2..], &addr), Ok(()));
}

#[test]
fn signature_over_altered_message_does_not_match() {
    let k = key(0x22);
    let addr = address_of(&k);
    let sig = sign(&k, "Login to Etched: abc");
    let r = check_signer("Login to Etched: abd", &sig, &addr);
    assert!(matches!(
        r,
        Err(SignatureCheckError::AddressMismatch) | Err(SignatureCheckError::RecoveryFailed)
    ));
}

#[test]
fn signature_format_is_checked_first() {
    assert_eq!(
        check_signer("m", "0xsig", "0xabc"),
        Err(SignatureCheckError::InvalidSignatureFormat)
    );
    assert!(!check_signature_text(&"ab".repeat(64)));
    assert!(check_signature_text(&"ab".repeat(65)));
    assert!(check_signature_text(&format!("0X{}", "AB".repeat(65))));
}

#[test]
fn nonce_request_validates_address() {
    let mut state = state_with_admins(vec![]);
    let r = state.get_nonce("0x123");
    assert!(matches!(r, Err(ApiError::BadRequest(_))));
    let r = state.get_nonce(&format!("0x{}", "g".repeat(40)));
    assert!(matches!(r, Err(ApiError::BadRequest(_))));
    let addr = format!("0X{}", "AbCd".repeat(10));
    let resp = state.get_nonce(&addr).unwrap();
    assert_eq!(resp.nonce.len(), 36);
    assert_eq!(resp.message, format!("Login to Etched: {}", resp.nonce));
    assert_eq!(build_challenge("N"), "Login to Etched: N");
    assert!(state.store.nonces.contains(&addr.to_lowercase()));
}

#[test]
fn wallet_login_end_to_end_gives_certificator() {
    let mut state = state_with_admins(vec![]);
    let k = key(0x33);
    let addr = address_of(&k);
    let claimed = addr.to_uppercase().replacen("0X", "0x", 1);
    let resp = state.get_nonce(&claimed).unwrap();
    let sig = sign(&k, &resp.message);
    let login = state.verify_wallet(&claimed, &sig, NOW).unwrap();
    assert_eq!(login.role, Role::Certificator);
    assert_eq!(login.address, addr);
    let user = state.identify(&login.token, NOW + 1).unwrap();
    assert_eq!(user.role, Role::Certificator);
    assert_eq!(user.auth_type, CredentialKind::Wallet);
    assert_eq!(user.sub, addr);
    assert_eq!(user.exp, NOW + 12 * 60 * 60);
    let again = state.verify_wallet(&claimed, &sig, NOW);
    assert!(matches!(again, Err(ApiError::BadRequest(_))));
}

#[test]
fn wallet_login_resolves_admin_and_validator() {
    let k = key(0x44);
    let addr = address_of(&k);
    let mut state = state_with_admins(vec![addr.clone()]);
    let resp = state.get_nonce(&addr).unwrap();
    let login = state.verify_wallet(&addr, &sign(&k, &resp.message), NOW).unwrap();
    assert_eq!(login.role, Role::Admin);

    let k2 = key(0x45);
    let addr2 = address_of(&k2);
    state.store.add_validator(addr2.clone());
    let resp = state.get_nonce(&addr2).unwrap();
    let login = state.verify_wallet(&addr2, &sign(&k2, &resp.message), NOW).unwrap();
    assert_eq!(login.role, Role::Validator);
}

#[test]
fn wallet_login_failure_burns_nonce() {
    let mut state = state_with_admins(vec![]);
    let k = key(0x55);
    let other = key(0x56);
    let addr = address_of(&k);
    let resp = state.get_nonce(&addr).unwrap();
    let r = state.verify_wallet(&addr, &sign(&other, &resp.message), NOW);
    assert!(matches!(r, Err(ApiError::Unauthorized)));
    let r = state.verify_wallet(&addr, &sign(&k, &resp.message), NOW);
    assert!(matches!(r, Err(ApiError::BadRequest(_))));
    let resp = state.get_nonce(&addr).unwrap();
    let r = state.verify_wallet(&addr, "0xnot-hex", NOW);
    match r {
        Err(ApiError::BadRequest(m)) => assert_eq!(m, "Invalid signature format"),
        _ => panic!("a malformed signature is a bad request"),
    }
    assert!(!state.store.nonces.contains(&addr));
    let _ = resp;
}

#[test]
fn role_stays_in_token_after_approval_is_withdrawn() {
    let k = key(0x66);
    let addr = address_of(&k);
    let mut state = state_with_admins(vec![]);
    state.store.add_validator(addr.clone());
    let resp = state.get_nonce(&addr).unwrap();
    let login = state.verify_wallet(&addr, &sign(&k, &resp.message), NOW).unwrap();
    assert!(state.store.remove_validator(&addr));
    assert_eq!(state.resolve_role(&addr), "certificator");
    let user = state.identify(&login.token, NOW + 100).unwrap();
    assert_eq!(user.role, Role::Validator);
    assert!(state.identify(&login.token, NOW + 12 * 60 * 60).is_err());
}

#[test]
fn bearer_header_is_required() {
    let k = key(0x77);
    let addr = address_of(&k);
    let mut state = state_with_admins(vec![]);
    let resp = state.get_nonce(&addr).unwrap();
    let login = state.verify_wallet(&addr, &sign(&k, &resp.message), NOW).unwrap();
    let header = format!("Bearer {}", login.token);
    assert_eq!(state.identify_header(Some(&header), NOW).unwrap().sub, addr);
    assert!(matches!(state.identify_header(None, NOW), Err(ApiError::Unauthorized)));
    let wrong = format!("Token {}", login.token);
    assert!(matches!(state.identify_header(Some(&wrong), NOW), Err(ApiError::Unauthorized)));
    assert!(matches!(state.identify_header(Some("Bearer junk"), NOW), Err(ApiError::Unauthorized)));
}

fn account(password_hash: &str) -> User {
    User {
        id: 42,
        email: "a@b.com".to_string(),
        password_hash: password_hash.to_string(),
        username: "alice".to_string(),
        role: Role::Validator,
        wallet_address: None,
        created_at: 0,
    }
}

const PASSWORD_HASH: &str = "$2a$04$UuTkLRZZ6QofpDOlMz32MuuxEHA43WOemOYHPz6.SjsVsyO1tDU96";

#[test]
fn email_login_issues_email_token() {
    let state = state_with_admins(vec![]);
    let resp = state.login("password", Some(account(PASSWORD_HASH)), NOW).unwrap();
    assert_eq!(resp.role, Role::Validator);
    assert_eq!(resp.user.id, 42);
    assert_eq!(resp.user.email, "a@b.com");
    let user = state.identify(&resp.token, NOW).unwrap();
    assert_eq!(user.sub, "42");
    assert_eq!(user.auth_type, CredentialKind::Email);
    assert_eq!(user.exp, NOW + 24 * 60 * 60);
    let public = UserPublic::from_user(account(PASSWORD_HASH));
    assert_eq!(public.username, "alice");
}

#[test]
fn email_login_fails_uniformly() {
    let state = state_with_admins(vec![]);
    assert!(matches!(
        state.login("wrong", Some(account(PASSWORD_HASH)), NOW),
        Err(ApiError::Unauthorized)
    ));
    assert!(matches!(state.login("password", None, NOW), Err(ApiError::Unauthorized)));
    assert!(matches!(
        state.login("password", Some(account("not-a-hash")), NOW),
        Err(ApiError::Internal)
    ));
    assert_eq!(login_key("A@B.Com"), "a@b.com");
}

#[test]
fn wallet_login_ignores_surrounding_white_space() {
    let mut state = state_with_admins(vec![]);
    let k = key(0x88);
    let addr = address_of(&k);
    let resp = state.get_nonce(&addr).unwrap();
    let sig = format!(" {}\n", sign(&k, &resp.message));
    let padded = format!("  {} ", addr.to_uppercase().replacen("0X", "0x", 1));
    let signed_in = state.verify_wallet(&padded, &sig, NOW).unwrap();
    assert_eq!(signed_in.address, addr);
    assert_eq!(signed_in.role, Role::Certificator);
}
