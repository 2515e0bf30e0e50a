use etched_backend::config::Config;
use etched_backend::error::{ApiError, ErrorKind};
use etched_backend::identity::{AuthUser, CredentialKind, Role};
use etched_backend::models::{
    Certificate, CertificateDecisionRequest, CertificateStatus, ConnectWalletRequest,
    CreatePoolRequest, Pool, RegisterRequest, RequestStatus, SubmitCertificateRequest, User,
    ValidatorDecisionRequest, ValidatorRequest,
};
use etched_backend::state::AppState;
use etched_backend::workflow::{
    connect_wallet, create_pool, decide_certificate, decide_validator_request,
    check_pool_code, generate_pool_code, pool_code_step, register, submit_certificate, toggle_pool,
    POOL_CODE_ALPHABET,
};

fn email_user(id: &str, role: Role) -> AuthUser {
    AuthUser { sub: id.to_string(), role, auth_type: CredentialKind::Email, exp: u64::MAX }
}

fn wallet_user(addr: &str) -> AuthUser {
    AuthUser { sub: addr.to_string(), role: Role::Certificator, auth_type: CredentialKind::Wallet, exp: u64::MAX }
}

fn request(user_id: i32, status: RequestStatus) -> ValidatorRequest {
    ValidatorRequest {
        id: 3,
        user_id,
        institution_name: "X".to_string(),
        institution_id: "X-1".to_string(),
        document_url: None,
        status,
        reviewed_by: None,
        reviewed_at: None,
        rejection_reason: None,
        created_at: 5,
    }
}

fn pool(validator_id: i32, active: bool) -> Pool {
    Pool {
        id: 9,
        code: "ABC234".to_string(),
        validator_id,
        name: "Diplomas".to_string(),
        description: None,
        tx_hash: Some("0xtx".to_string()),
        is_active: active,
        created_at: 1,
    }
}

fn certificate(status: CertificateStatus) -> Certificate {
    Certificate {
        id: 11,
        pool_id: 9,
        certificator_wallet: "0xcert".to_string(),
        recipient_name: "Bob".to_string(),
        recipient_wallet: "0xbob".to_string(),
        certificate_type: "diploma".to_string(),
        document_hash: "0xhash".to_string(),
        metadata_uri: None,
        status,
        token_id: None,
        tx_hash: None,
        validated_at: None,
        minted_at: None,
        rejection_reason: None,
        created_at: 2,
    }
}

fn pool_request() -> CreatePoolRequest {
    CreatePoolRequest { name: "Diplomas".to_string(), description: None, tx_hash: "0xpaid".to_string() }
}

fn submission(hash: &str) -> SubmitCertificateRequest {
    SubmitCertificateRequest {
        recipient_name: "Bob".to_string(),
        recipient_wallet: "0xBOB".to_string(),
        certificate_type: "diploma".to_string(),
        document_hash: hash.to_string(),
        metadata_uri: None,
    }
}

#[test]
fn registered_validator_rejected_then_cannot_create_pool() {
    let reg = register(
        RegisterRequest {
            email: "a@b.com".to_string(),
            password: "pw".to_string(),
            username: "alice".to_string(),
            institution_name: "X".to_string(),
            institution_id: "X-1".to_string(),
            document_url: None,
        },
        false,
    )
    .unwrap();
    assert_eq!(reg.email, "a@b.com");
    assert_eq!(reg.role, Role::Validator);
    assert_eq!(reg.status, RequestStatus::Pending);

    let account = User {
        id: 7,
        email: reg.email.clone(),
        password_hash: reg.password_hash.clone(),
        username: reg.username.clone(),
        role: reg.role,
        wallet_address: Some("0xwallet".to_string()),
        created_at: 0,
    };
    let state = AppState::new(Config {
        jwt_secret: "s".to_string(),
        admin_addresses: vec![],
        bind_addr: String::new(),
        public_base_url: String::new(),
        metadata_dir: String::new(),
    });
    let login = state.login("pw", Some(account), 1_000).unwrap();
    assert_eq!(login.role, Role::Validator);
    let caller = state.identify(&login.token, 1_001).unwrap();

    let admin = email_user("1", Role::Admin);
    let mut pending = Some(request(7, RequestStatus::Pending));
    let decision = ValidatorDecisionRequest { approve: false, rejection_reason: Some("no".to_string()) };
    decide_validator_request(&admin, &mut pending, decision, 50).unwrap();
    let decided = pending.clone().unwrap();
    assert_eq!(decided.status, RequestStatus::Rejected);
    assert_eq!(decided.reviewed_by, Some(1));
    assert_eq!(decided.reviewed_at, Some(50));

    let wallet = Some("0xwallet".to_string());
    let r = create_pool(&caller, &pending, &wallet, pool_request(), generate_pool_code());
    assert!(matches!(r, Err(ApiError::Forbidden)));
    let r = create_pool(&caller, &None, &wallet, pool_request(), generate_pool_code());
    assert!(matches!(r, Err(ApiError::Forbidden)));
}

#[test]
fn registration_refuses_taken_email() {
    let r = register(
        RegisterRequest {
            email: "a@b.com".to_string(),
            password: "pw".to_string(),
            username: "alice".to_string(),
            institution_name: "X".to_string(),
            institution_id: "X-1".to_string(),
            document_url: None,
        },
        true,
    );
    assert!(matches!(r, Err(ApiError::BadRequest(_))));
}

#[test]
fn validator_request_decisions() {
    let admin = email_user("1", Role::Admin);
    let decision = || ValidatorDecisionRequest { approve: true, rejection_reason: None };
    let mut none: Option<ValidatorRequest> = None;
    assert!(matches!(decide_validator_request(&admin, &mut none, decision(), 1), Err(ApiError::NotFound)));
    let mut q = Some(request(7, RequestStatus::Pending));
    let validator = email_user("7", Role::Validator);
    assert!(matches!(decide_validator_request(&validator, &mut q, decision(), 1), Err(ApiError::Forbidden)));
    let wallet_validator = AuthUser { auth_type: CredentialKind::Wallet, ..email_user("0xabc", Role::Validator) };
    assert!(matches!(decide_validator_request(&wallet_validator, &mut q, decision(), 1), Err(ApiError::Forbidden)));
    let wallet_admin = AuthUser { auth_type: CredentialKind::Wallet, ..email_user("0xabc", Role::Admin) };
    assert!(matches!(decide_validator_request(&wallet_admin, &mut q, decision(), 1), Err(ApiError::BadRequest(_))));
    decide_validator_request(&admin, &mut q, decision(), 1).unwrap();
    assert_eq!(q.as_ref().unwrap().status, RequestStatus::Approved);
    let r = decide_validator_request(&admin, &mut q, decision(), 2);
    assert!(matches!(r, Err(ApiError::BadRequest(_))));
    assert_eq!(q.as_ref().unwrap().status, RequestStatus::Approved);
    assert_eq!(q.as_ref().unwrap().reviewed_at, Some(1));
}

#[test]
fn approved_validator_creates_active_pool() {
    let caller = email_user("7", Role::Validator);
    let approved = Some(request(7, RequestStatus::Approved));
    let code = generate_pool_code();
    let p = create_pool(&caller, &approved, &Some("0xw".to_string()), pool_request(), code.clone()).unwrap();
    assert!(check_pool_code(&p.code));
    assert_eq!(p.code, code);
    assert_eq!(p.validator_id, 7);
    assert!(p.is_active);
    assert_eq!(p.tx_hash, Some("0xpaid".to_string()));
    let r = create_pool(&caller, &approved, &None, pool_request(), code.clone());
    assert!(matches!(r, Err(ApiError::BadRequest(_))));
    let other = email_user("8", Role::Validator);
    let r = create_pool(&other, &approved, &Some("0xw".to_string()), pool_request(), code.clone());
    assert!(matches!(r, Err(ApiError::Forbidden)));
    let r = create_pool(&wallet_user("0xw"), &approved, &Some("0xw".to_string()), pool_request(), code);
    assert!(matches!(r, Err(ApiError::BadRequest(_))));
}

#[test]
fn pool_codes_use_the_alphabet() {
    for _ in 0..20 {
        let code = generate_pool_code();
        assert_eq!(code.len(), 6);
        assert!(code.chars().all(|c| POOL_CODE_ALPHABET.contains(c)));
        assert!(check_pool_code(&code));
    }
    assert!(check_pool_code("ABC234"));
    assert!(!check_pool_code("ABC23"));
    assert!(!check_pool_code("ABC230"));
    assert!(!check_pool_code("abc234"));
    assert!(matches!(pool_code_step(false, 1), Ok(None)));
    assert!(matches!(pool_code_step(true, 1), Ok(Some(_))));
    assert!(matches!(pool_code_step(true, 10), Err(ApiError::Internal)));
}

#[test]
fn only_owner_toggles_pool() {
    let owner = email_user("7", Role::Validator);
    let mut p = Some(pool(7, true));
    assert_eq!(toggle_pool(&owner, &mut p).unwrap(), false);
    assert!(!p.as_ref().unwrap().is_active);
    assert_eq!(toggle_pool(&owner, &mut p).unwrap(), true);
    let stranger = email_user("8", Role::Validator);
    assert!(matches!(toggle_pool(&stranger, &mut p), Err(ApiError::Forbidden)));
    assert!(p.as_ref().unwrap().is_active);
    let mut missing: Option<Pool> = None;
    assert!(matches!(toggle_pool(&owner, &mut missing), Err(ApiError::NotFound)));
    let bad_id = email_user("seven", Role::Validator);
    assert!(matches!(toggle_pool(&bad_id, &mut p), Err(ApiError::Internal)));
}

#[test]
fn document_hash_is_accepted_once() {
    let who = wallet_user("0xCERT");
    let active = Some(pool(7, true));
    let mut seen: Vec<String> = Vec::new();
    let first = submit_certificate(&who, &active, seen.contains(&"0xhash".to_string()), submission("0xhash")).unwrap();
    assert_eq!(first.status, CertificateStatus::Pending);
    assert_eq!(first.certificator_wallet, "0xcert");
    assert_eq!(first.recipient_wallet, "0xbob");
    assert_eq!(first.pool_id, 9);
    seen.push(first.document_hash.clone());
    let second = submit_certificate(&who, &active, seen.contains(&"0xhash".to_string()), submission("0xhash"));
    assert!(matches!(second, Err(ApiError::BadRequest(_))));
}

#[test]
fn submission_needs_wallet_and_active_pool() {
    let who = wallet_user("0xc");
    assert!(matches!(submit_certificate(&who, &Some(pool(7, false)), false, submission("h")), Err(ApiError::BadRequest(_))));
    assert!(matches!(submit_certificate(&who, &None, false, submission("h")), Err(ApiError::BadRequest(_))));
    let email = email_user("7", Role::Validator);
    let r = submit_certificate(&email, &Some(pool(7, true)), false, submission("h"));
    assert_eq!(r.err().map(|e| e.kind()), Some(ErrorKind::BadRequest));
}

#[test]
fn certificate_decisions_are_final() {
    let owner = email_user("7", Role::Validator);
    let p = Some(pool(7, true));
    let approve = || CertificateDecisionRequest {
        approve: true,
        tx_hash: Some("0xmint".to_string()),
        token_id: Some(4),
        rejection_reason: None,
    };
    let mut c = Some(certificate(CertificateStatus::Pending));
    let no_tx = CertificateDecisionRequest { approve: true, tx_hash: None, token_id: Some(4), rejection_reason: None };
    assert!(matches!(decide_certificate(&owner, &mut c, &p, no_tx, 10), Err(ApiError::BadRequest(_))));
    let stranger = email_user("8", Role::Validator);
    assert!(matches!(decide_certificate(&stranger, &mut c, &p, approve(), 10), Err(ApiError::Forbidden)));
    decide_certificate(&owner, &mut c, &p, approve(), 10).unwrap();
    let minted = c.clone().unwrap();
    assert_eq!(minted.status, CertificateStatus::Minted);
    assert_eq!(minted.token_id, Some(4));
    assert_eq!(minted.minted_at, Some(10));
    let reject = CertificateDecisionRequest { approve: false, tx_hash: None, token_id: None, rejection_reason: Some("late".to_string()) };
    assert!(matches!(decide_certificate(&owner, &mut c, &p, reject, 20), Err(ApiError::BadRequest(_))));
    assert_eq!(c.as_ref().unwrap().status, CertificateStatus::Minted);
    assert_eq!(c.as_ref().unwrap().validated_at, Some(10));

    let mut r = Some(certificate(CertificateStatus::Pending));
    let reject = || CertificateDecisionRequest { approve: false, tx_hash: None, token_id: None, rejection_reason: Some("fake".to_string()) };
    decide_certificate(&owner, &mut r, &p, reject(), 30).unwrap();
    assert_eq!(r.as_ref().unwrap().status, CertificateStatus::Rejected);
    assert_eq!(r.as_ref().unwrap().rejection_reason, Some("fake".to_string()));
    assert!(matches!(decide_certificate(&owner, &mut r, &p, approve(), 40), Err(ApiError::BadRequest(_))));
    assert_eq!(r.as_ref().unwrap().status, CertificateStatus::Rejected);
    let mut missing: Option<Certificate> = None;
    assert!(matches!(decide_certificate(&owner, &mut missing, &p, approve(), 1), Err(ApiError::NotFound)));
}

#[test]
fn connecting_a_wallet_needs_email_login() {
    let req = ConnectWalletRequest { wallet_address: "0xABC".to_string() };
    let (id, wallet) = connect_wallet(&email_user("12", Role::Validator), &req).unwrap();
    assert_eq!(id, 12);
    assert_eq!(wallet, "0xabc");
    assert!(matches!(connect_wallet(&wallet_user("0xabc"), &req), Err(ApiError::BadRequest(_))));
}
