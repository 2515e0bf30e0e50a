//! The workflow guard: who may move which entity from which state.
//!
//! Each operation takes the caller's identity and the entity values the
//! caller fetched, checks the credential kind, the relation of the caller to
//! the entity and the entity's state, and either fails with the kind the
//! first broken rule calls for or produces the values to write.
use vstd::prelude::*;
use crate::address::{lower_of, lowercase};
use crate::error::{bad_request, ApiError, ErrorKind};
use crate::identity::{AuthUser, CredentialKind, Role};
use crate::models::{
    id_text, parse_id, render_id, Certificate, CertificateDecisionRequest, CertificateStatus,
    ConnectWalletRequest, CreatePoolRequest, Pool, RegisterRequest, RequestStatus,
    SubmitCertificateRequest, ValidatorDecisionRequest, ValidatorRequest,
};
use crate::gateway::bcrypt_verdict;
use crate::signature::same_text;

verus! {

/// `s` is the text of some account id.
pub open spec fn is_id_text(s: Seq<char>) -> bool {
    exists|v: i32| id_text(v) == s
}

/// The account id of an email identity.
fn caller_id(user: &AuthUser) -> (r: Result<i32, ApiError>)
    ensures
        match r {
            Ok(v) => id_text(v) == user.sub@,
            Err(e) => e == ApiError::Internal && !is_id_text(user.sub@),
        },
{
    match parse_id(user.sub.as_str()) {
        Some(v) => Ok(v),
        None => Err(ApiError::Internal),
    }
}

/// Whether the caller is the account `id`.
fn is_caller(user: &AuthUser, id: i32) -> (r: bool)
    ensures
        r == (id_text(id) == user.sub@),
{
    let t = render_id(id);
    same_text(t.as_str(), user.sub.as_str())
}

/// Admin-only operations: the caller must hold the admin role.
pub fn require_admin(user: &AuthUser) -> (r: Result<(), ApiError>)
    ensures
        user.role == Role::Admin ==> r is Ok,
        user.role != Role::Admin ==> r matches Err(ApiError::Forbidden),
{
    if user.role != Role::Admin {
        Err(ApiError::Forbidden)
    } else {
        Ok(())
    }
}

/// Validator operations: the caller must have signed in by email; its
/// account id is returned.
pub fn require_email(user: &AuthUser) -> (r: Result<i32, ApiError>)
    ensures
        user.auth_type != CredentialKind::Email ==> r matches Err(ApiError::BadRequest(_)),
        user.auth_type == CredentialKind::Email && !is_id_text(user.sub@) ==> r matches Err(ApiError::Internal),
        user.auth_type == CredentialKind::Email && is_id_text(user.sub@) ==> (r matches Ok(v) && id_text(v)
            == user.sub@),
{
    if user.auth_type != CredentialKind::Email {
        return Err(bad_request("Validators must use email login"));
    }
    caller_id(user)
}

/// Certificator operations: the caller must have signed in with a wallet;
/// its address in lowercase is returned.
pub fn require_wallet(user: &AuthUser) -> (r: Result<String, ApiError>)
    ensures
        user.auth_type != CredentialKind::Wallet ==> r matches Err(ApiError::BadRequest(_)),
        user.auth_type == CredentialKind::Wallet ==> (r matches Ok(a) && a@ == lower_of(user.sub@)),
{
    if user.auth_type != CredentialKind::Wallet {
        return Err(bad_request("Certificators must use wallet login"));
    }
    Ok(lowercase(user.sub.as_str()))
}

/// Who may list a pool's certificates: any wallet identity; an email
/// identity only as the pool's validator or as an admin.
pub open spec fn pool_listing_failure(user: AuthUser, pool: Option<Pool>) -> Option<ErrorKind> {
    match pool {
        None => Some(ErrorKind::NotFound),
        Some(p) => if user.auth_type != CredentialKind::Email {
            None
        } else if !is_id_text(user.sub@) {
            Some(ErrorKind::Internal)
        } else if id_text(p.validator_id) != user.sub@ && user.role != Role::Admin {
            Some(ErrorKind::Forbidden)
        } else {
            None
        },
    }
}

pub fn may_list_pool_certificates(user: &AuthUser, pool: &Option<Pool>) -> (r: Result<(), ApiError>)
    ensures
        match pool_listing_failure(*user, *pool) {
            Some(k) => r matches Err(e) && e.spec_kind() == k,
            None => r is Ok,
        },
{
    let p = match pool {
        Some(p) => p,
        None => {
            return Err(ApiError::NotFound);
        },
    };
    if user.auth_type == CredentialKind::Email {
        let _id = caller_id(user)?;
        if !is_caller(user, p.validator_id) && user.role != Role::Admin {
            return Err(ApiError::Forbidden);
        }
    }
    Ok(())
}

// ---------------------------------------------------------------- requests

/// What stops an admin decision on a validator request, if anything.
pub open spec fn validator_decision_failure(user: AuthUser, request: Option<ValidatorRequest>) -> Option<ErrorKind> {
    if user.role != Role::Admin {
        Some(ErrorKind::Forbidden)
    } else if user.auth_type != CredentialKind::Email {
        Some(ErrorKind::BadRequest)
    } else if !is_id_text(user.sub@) {
        Some(ErrorKind::Internal)
    } else {
        match request {
            None => Some(ErrorKind::NotFound),
            Some(q) => if q.status != RequestStatus::Pending {
                Some(ErrorKind::BadRequest)
            } else {
                None
            },
        }
    }
}

/// An admin decides a pending validator request at time `now`: it becomes
/// `approved` or `rejected`, with the deciding admin, the time and the reason
/// recorded. On failure the request is left as it was.
pub fn decide_validator_request(
    user: &AuthUser,
    request: &mut Option<ValidatorRequest>,
    decision: ValidatorDecisionRequest,
    now: i64,
) -> (r: Result<(), ApiError>)
    ensures
        match validator_decision_failure(*user, *old(request)) {
            Some(k) => r matches Err(e) && e.spec_kind() == k && *final(request) == *old(request),
            None => r is Ok && (*final(request) matches Some(q) && {
                let p = (*old(request))->Some_0;
                &&& q.status == (if decision.approve {
                    RequestStatus::Approved
                } else {
                    RequestStatus::Rejected
                })
                &&& (q.reviewed_by matches Some(a) && id_text(a) == user.sub@)
                &&& q.reviewed_at == Some(now)
                &&& q.rejection_reason == decision.rejection_reason
                &&& q.id == p.id && q.user_id == p.user_id && q.institution_name == p.institution_name
                &&& q.institution_id == p.institution_id && q.document_url == p.document_url
                &&& q.created_at == p.created_at
            }),
        },
{
    if user.role != Role::Admin {
        return Err(ApiError::Forbidden);
    }
    if user.auth_type != CredentialKind::Email {
        return Err(bad_request("Admins must use email login"));
    }
    let admin_id = caller_id(user)?;
    let current = request.take();
    let mut q = match current {
        Some(q) => q,
        None => {
            return Err(ApiError::NotFound);
        },
    };
    if q.status != RequestStatus::Pending {
        *request = Some(q);
        return Err(bad_request("Request already processed"));
    }
    q.status = if decision.approve {
        RequestStatus::Approved
    } else {
        RequestStatus::Rejected
    };
    q.reviewed_by = Some(admin_id);
    q.reviewed_at = Some(now);
    q.rejection_reason = decision.rejection_reason;
    *request = Some(q);
    Ok(())
}

/// A new account and its validator request, ready to be written.
pub struct Registration {
    /// The email in lowercase.
    pub email: String,
    pub password_hash: String,
    pub username: String,
    pub role: Role,
    pub institution_name: String,
    pub institution_id: String,
    pub document_url: Option<String>,
    pub status: RequestStatus,
}

/// Registration of a validator account: refused when the email (in
/// lowercase) is already taken; otherwise the account has role `validator`,
/// a password hash that bcrypt accepts the password against, and its
/// request is `pending`.
pub fn register(req: RegisterRequest, email_taken: bool) -> (r: Result<Registration, ApiError>)
    ensures
        email_taken ==> r matches Err(ApiError::BadRequest(_)),
        !email_taken ==> match r {
            Ok(g) => g.email@ == lower_of(req.email@) && bcrypt_verdict(req.password@, g.password_hash@) == Some(
                true,
            ) && g.username == req.username && g.role == Role::Validator
                && g.institution_name == req.institution_name && g.institution_id == req.institution_id
                && g.document_url == req.document_url && g.status == RequestStatus::Pending,
            Err(e) => e == ApiError::Internal,
        },
{
    if email_taken {
        return Err(bad_request("Email already registered"));
    }
    let email = lowercase(req.email.as_str());
    let password_hash = match crate::gateway::hash_password(req.password.as_str()) {
        Ok(h) => h,
        Err(_) => {
            return Err(ApiError::Internal);
        },
    };
    Ok(Registration {
        email,
        password_hash,
        username: req.username,
        role: Role::Validator,
        institution_name: req.institution_name,
        institution_id: req.institution_id,
        document_url: req.document_url,
        status: RequestStatus::Pending,
    })
}

/// An email account links a wallet: the account id and the wallet address
/// in lowercase.
pub fn connect_wallet(user: &AuthUser, req: &ConnectWalletRequest) -> (r: Result<(i32, String), ApiError>)
    ensures
        user.auth_type != CredentialKind::Email ==> r matches Err(ApiError::BadRequest(_)),
        user.auth_type == CredentialKind::Email && !is_id_text(user.sub@) ==> r matches Err(ApiError::Internal),
        user.auth_type == CredentialKind::Email && is_id_text(user.sub@) ==> (r matches Ok(p) && id_text(p.0)
            == user.sub@ && p.1@ == lower_of(req.wallet_address@)),
{
    if user.auth_type != CredentialKind::Email {
        return Err(bad_request("Only email users can connect wallet"));
    }
    let id = caller_id(user)?;
    Ok((id, lowercase(req.wallet_address.as_str())))
}

// ------------------------------------------------------------------- pools

/// The symbols of a pool code: capital letters and digits, without the
/// easily confused `I`, `O`, `0` and `1`.
pub const POOL_CODE_ALPHABET: &'static str = "ABCDEFGHJKLMNPQRSTUVWXYZ23456789";

/// Number of symbols in a pool code.
pub const POOL_CODE_LENGTH: usize = 6;

/// How many codes are drawn for one pool before giving up.
pub const MAX_POOL_CODE_ATTEMPTS: u32 = 10;

/// Six symbols of the pool-code alphabet.
pub open spec fn is_pool_code(s: Seq<char>) -> bool {
    s.len() == POOL_CODE_LENGTH && forall|i: int| 0 <= i < s.len() ==> POOL_CODE_ALPHABET@.contains(
        #[trigger] s[i],
    )
}

/// Relies on `rand::thread_rng` and `Rng::gen_range` over `0..n`, which
/// returns a value of that range (and panics only on an empty one).
#[verifier::external_body]
fn random_below(n: usize) -> (r: usize)
    requires
        n > 0,
    ensures
        r < n,
{
    rand::Rng::gen_range(&mut rand::thread_rng(), 0..n)
}

/// A random pool code.
pub fn generate_pool_code() -> (r: String)
    ensures
        is_pool_code(r@),
{
    proof {
        reveal_strlit("ABCDEFGHJKLMNPQRSTUVWXYZ23456789");
    }
    let alphabet = POOL_CODE_ALPHABET;
    let size = alphabet.unicode_len();
    let mut code = String::new();
    let mut i: usize = 0;
    while i < POOL_CODE_LENGTH
        invariant
            i <= POOL_CODE_LENGTH,
            size == 32,
            alphabet@ == POOL_CODE_ALPHABET@,
            alphabet@.len() == 32,
            code@.len() == i,
            forall|k: int| 0 <= k < i ==> POOL_CODE_ALPHABET@.contains(#[trigger] code@[k]),
        decreases POOL_CODE_LENGTH - i,
    {
        let idx = random_below(size);
        let symbol = alphabet.substring_char(idx, idx + 1);
        let ghost before = code@;
        code.append(symbol);
        proof {
            assert(symbol@[0] == alphabet@[idx as int]);
            assert(code@[i as int] == symbol@[0]);
            assert forall|k: int| 0 <= k < i + 1 implies POOL_CODE_ALPHABET@.contains(#[trigger] code@[k]) by {
                if k < i {
                    assert(code@[k] == before[k]);
                } else {
                    assert(POOL_CODE_ALPHABET@[idx as int] == code@[k]);
                }
            }
        }
        i = i + 1;
    }
    code
}

/// Whether `c` is a symbol of the pool-code alphabet.
fn is_code_symbol(c: char) -> (r: bool)
    ensures
        r == POOL_CODE_ALPHABET@.contains(c),
{
    proof {
        reveal_strlit("ABCDEFGHJKLMNPQRSTUVWXYZ23456789");
    }
    let alphabet = POOL_CODE_ALPHABET;
    let size = alphabet.unicode_len();
    let mut k: usize = 0;
    while k < size
        invariant
            size == 32,
            alphabet@ == POOL_CODE_ALPHABET@,
            alphabet@.len() == 32,
            k <= size,
            forall|q: int| 0 <= q < k ==> alphabet@[q] != c,
        decreases size - k,
    {
        if alphabet.get_char(k) == c {
            return true;
        }
        k = k + 1;
    }
    false
}

/// Whether `s` has the shape of a pool code.
pub fn check_pool_code(s: &str) -> (r: bool)
    ensures
        r == is_pool_code(s@),
{
    let n = s.unicode_len();
    if n != POOL_CODE_LENGTH {
        return false;
    }
    let mut i: usize = 0;
    while i < n
        invariant
            i <= n,
            n == s@.len(),
            forall|k: int| 0 <= k < i ==> POOL_CODE_ALPHABET@.contains(#[trigger] s@[k]),
        decreases n - i,
    {
        if !is_code_symbol(s.get_char(i)) {
            return false;
        }
        i = i + 1;
    }
    true
}

/// What to do with a drawn pool code that was checked for use: keep it
/// when free (`None`), draw another when taken (`Some`), and fail with
/// `Internal` once `attempts` (the codes drawn so far, this one included)
/// reaches the cap.
pub fn pool_code_step(code_taken: bool, attempts: u32) -> (r: Result<Option<String>, ApiError>)
    ensures
        !code_taken ==> r matches Ok(None),
        code_taken && attempts >= MAX_POOL_CODE_ATTEMPTS ==> r matches Err(ApiError::Internal),
        code_taken && attempts < MAX_POOL_CODE_ATTEMPTS ==> (r matches Ok(Some(c)) && is_pool_code(c@)),
{
    if !code_taken {
        Ok(None)
    } else if attempts >= MAX_POOL_CODE_ATTEMPTS {
        Err(ApiError::Internal)
    } else {
        Ok(Some(generate_pool_code()))
    }
}

/// A pool ready to be written.
pub struct NewPool {
    pub code: String,
    pub validator_id: i32,
    pub name: String,
    pub description: Option<String>,
    pub tx_hash: Option<String>,
    pub is_active: bool,
}

/// What stops the caller from creating a pool, if anything, given its
/// approved validator request (if it has one) and the wallet linked to its
/// account.
pub open spec fn pool_creation_failure(
    user: AuthUser,
    approved: Option<ValidatorRequest>,
    linked_wallet: Option<String>,
) -> Option<ErrorKind> {
    if user.auth_type != CredentialKind::Email {
        Some(ErrorKind::BadRequest)
    } else if !is_id_text(user.sub@) {
        Some(ErrorKind::Internal)
    } else {
        match approved {
            None => Some(ErrorKind::Forbidden),
            Some(q) => if q.status != RequestStatus::Approved || id_text(q.user_id) != user.sub@ {
                Some(ErrorKind::Forbidden)
            } else if linked_wallet is None {
                Some(ErrorKind::BadRequest)
            } else {
                None
            },
        }
    }
}

/// A validator with an approved request and a linked wallet creates a pool
/// under a well-formed code already checked to be free; the pool starts
/// active.
pub fn create_pool(
    user: &AuthUser,
    approved: &Option<ValidatorRequest>,
    linked_wallet: &Option<String>,
    req: CreatePoolRequest,
    code: String,
) -> (r: Result<NewPool, ApiError>)
    requires
        is_pool_code(code@),
    ensures
        match pool_creation_failure(*user, *approved, *linked_wallet) {
            Some(k) => r matches Err(e) && e.spec_kind() == k,
            None => r matches Ok(p) && p.code == code && is_pool_code(p.code@) && id_text(p.validator_id) == user.sub@ && p.name
                == req.name && p.description == req.description && p.tx_hash == Some(req.tx_hash)
                && p.is_active,
        },
{
    if user.auth_type != CredentialKind::Email {
        return Err(bad_request("Validators must use email login"));
    }
    let id = caller_id(user)?;
    match approved {
        None => {
            return Err(ApiError::Forbidden);
        },
        Some(q) => {
            if q.status != RequestStatus::Approved || !is_caller(user, q.user_id) {
                return Err(ApiError::Forbidden);
            }
        },
    }
    if linked_wallet.is_none() {
        return Err(bad_request("Please connect your wallet first"));
    }
    Ok(NewPool {
        code,
        validator_id: id,
        name: req.name,
        description: req.description,
        tx_hash: Some(req.tx_hash),
        is_active: true,
    })
}

/// What stops the caller from toggling a pool, if anything.
pub open spec fn pool_toggle_failure(user: AuthUser, pool: Option<Pool>) -> Option<ErrorKind> {
    if user.auth_type != CredentialKind::Email {
        Some(ErrorKind::BadRequest)
    } else if !is_id_text(user.sub@) {
        Some(ErrorKind::Internal)
    } else {
        match pool {
            None => Some(ErrorKind::NotFound),
            Some(p) => if id_text(p.validator_id) != user.sub@ {
                Some(ErrorKind::Forbidden)
            } else {
                None
            },
        }
    }
}

/// The owning validator switches a pool between active and inactive. On
/// failure the pool is left as it was.
pub fn toggle_pool(user: &AuthUser, pool: &mut Option<Pool>) -> (r: Result<bool, ApiError>)
    ensures
        match pool_toggle_failure(*user, *old(pool)) {
            Some(k) => r matches Err(e) && e.spec_kind() == k && *final(pool) == *old(pool),
            None => r is Ok && (*final(pool) matches Some(q) && {
                let p = (*old(pool))->Some_0;
                &&& q.is_active == !p.is_active
                &&& r == Ok::<bool, ApiError>(q.is_active)
                &&& q.id == p.id && q.code == p.code && q.validator_id == p.validator_id
                &&& q.name == p.name && q.description == p.description && q.tx_hash == p.tx_hash
                &&& q.created_at == p.created_at
            }),
        },
{
    if user.auth_type != CredentialKind::Email {
        return Err(bad_request("Validators must use email login"));
    }
    let _id = caller_id(user)?;
    let current = pool.take();
    let mut p = match current {
        Some(p) => p,
        None => {
            return Err(ApiError::NotFound);
        },
    };
    if !is_caller(user, p.validator_id) {
        *pool = Some(p);
        return Err(ApiError::Forbidden);
    }
    p.is_active = !p.is_active;
    let now_active = p.is_active;
    *pool = Some(p);
    Ok(now_active)
}

// ------------------------------------------------------------ certificates

/// A certificate ready to be written.
pub struct NewCertificate {
    pub pool_id: i32,
    pub certificator_wallet: String,
    pub recipient_name: String,
    pub recipient_wallet: String,
    pub certificate_type: String,
    pub document_hash: String,
    pub metadata_uri: Option<String>,
    pub status: CertificateStatus,
}

/// What stops a submission, if anything: it needs a wallet identity, an
/// active pool and a document hash that no certificate holds yet.
pub open spec fn submission_failure(user: AuthUser, pool: Option<Pool>, hash_taken: bool) -> Option<ErrorKind> {
    if user.auth_type != CredentialKind::Wallet {
        Some(ErrorKind::BadRequest)
    } else if pool is None || !pool->Some_0.is_active {
        Some(ErrorKind::BadRequest)
    } else if hash_taken {
        Some(ErrorKind::BadRequest)
    } else {
        None
    }
}

/// A certificator submits a certificate to an active pool; the certificate
/// starts `pending`.
pub fn submit_certificate(
    user: &AuthUser,
    pool: &Option<Pool>,
    hash_taken: bool,
    req: SubmitCertificateRequest,
) -> (r: Result<NewCertificate, ApiError>)
    ensures
        match submission_failure(*user, *pool, hash_taken) {
            Some(k) => r matches Err(e) && e.spec_kind() == k,
            None => r matches Ok(c) && c.pool_id == pool->Some_0.id && c.certificator_wallet@ == lower_of(
                user.sub@,
            ) && c.recipient_name == req.recipient_name && c.recipient_wallet@ == lower_of(
                req.recipient_wallet@,
            ) && c.certificate_type == req.certificate_type && c.document_hash == req.document_hash
                && c.metadata_uri == req.metadata_uri && c.status == CertificateStatus::Pending,
        },
{
    if user.auth_type != CredentialKind::Wallet {
        return Err(bad_request("Certificators must use wallet login"));
    }
    let pool_id = match pool {
        Some(p) => {
            if !p.is_active {
                return Err(bad_request("Pool not found or inactive"));
            }
            p.id
        },
        None => {
            return Err(bad_request("Pool not found or inactive"));
        },
    };
    if hash_taken {
        return Err(bad_request("Certificate already submitted"));
    }
    Ok(NewCertificate {
        pool_id,
        certificator_wallet: lowercase(user.sub.as_str()),
        recipient_name: req.recipient_name,
        recipient_wallet: lowercase(req.recipient_wallet.as_str()),
        certificate_type: req.certificate_type,
        document_hash: req.document_hash,
        metadata_uri: req.metadata_uri,
        status: CertificateStatus::Pending,
    })
}

/// A document hash is accepted once: against a registry of the hashes of
/// all certificates, a first submission of a fresh hash goes through, and
/// once it is recorded a second submission of that hash fails with
/// `BadRequest`.
pub proof fn lemma_document_hash_once(user: AuthUser, pool: Option<Pool>, hashes: Set<Seq<char>>, hash: Seq<char>)
    requires
        user.auth_type == CredentialKind::Wallet,
        pool matches Some(p) && p.is_active,
        !hashes.contains(hash),
    ensures
        submission_failure(user, pool, hashes.contains(hash)) is None,
        submission_failure(user, pool, hashes.insert(hash).contains(hash)) == Some(ErrorKind::BadRequest),
{
}

/// What stops a decision on a certificate, if anything. `pool` is the pool
/// fetched by the certificate's pool id.
pub open spec fn certificate_decision_failure(
    user: AuthUser,
    cert: Option<Certificate>,
    pool: Option<Pool>,
    decision: CertificateDecisionRequest,
) -> Option<ErrorKind> {
    if user.auth_type != CredentialKind::Email {
        Some(ErrorKind::BadRequest)
    } else if !is_id_text(user.sub@) {
        Some(ErrorKind::Internal)
    } else {
        match cert {
            None => Some(ErrorKind::NotFound),
            Some(c) => if c.status != CertificateStatus::Pending {
                Some(ErrorKind::BadRequest)
            } else {
                match pool {
                    None => Some(ErrorKind::Internal),
                    Some(p) => if p.id != c.pool_id {
                        Some(ErrorKind::Internal)
                    } else if id_text(p.validator_id) != user.sub@ {
                        Some(ErrorKind::Forbidden)
                    } else if decision.approve && (decision.tx_hash is None || decision.token_id is None) {
                        Some(ErrorKind::BadRequest)
                    } else {
                        None
                    },
                }
            },
        }
    }
}

/// The validator owning a certificate's pool decides it at time `now`:
/// approval mints it (with the transaction hash and token id, both
/// required), refusal rejects it (with the reason). On failure the
/// certificate is left as it was.
pub fn decide_certificate(
    user: &AuthUser,
    cert: &mut Option<Certificate>,
    pool: &Option<Pool>,
    decision: CertificateDecisionRequest,
    now: i64,
) -> (r: Result<(), ApiError>)
    ensures
        match certificate_decision_failure(*user, *old(cert), *pool, decision) {
            Some(k) => r matches Err(e) && e.spec_kind() == k && *final(cert) == *old(cert),
            None => r is Ok && (*final(cert) matches Some(q) && {
                let c = (*old(cert))->Some_0;
                &&& q.validated_at == Some(now)
                &&& q.id == c.id && q.pool_id == c.pool_id && q.certificator_wallet == c.certificator_wallet
                &&& q.recipient_name == c.recipient_name && q.recipient_wallet == c.recipient_wallet
                &&& q.certificate_type == c.certificate_type && q.document_hash == c.document_hash
                &&& q.metadata_uri == c.metadata_uri && q.created_at == c.created_at
                &&& if decision.approve {
                    &&& q.status == CertificateStatus::Minted
                    &&& q.tx_hash == decision.tx_hash && q.token_id == decision.token_id
                    &&& q.minted_at == Some(now)
                    &&& q.rejection_reason == c.rejection_reason
                } else {
                    &&& q.status == CertificateStatus::Rejected
                    &&& q.rejection_reason == decision.rejection_reason
                    &&& q.tx_hash == c.tx_hash && q.token_id == c.token_id && q.minted_at == c.minted_at
                }
            }),
        },
{
    if user.auth_type != CredentialKind::Email {
        return Err(bad_request("Validators must use email login"));
    }
    let _id = caller_id(user)?;
    let current = cert.take();
    let mut c = match current {
        Some(c) => c,
        None => {
            return Err(ApiError::NotFound);
        },
    };
    if c.status != CertificateStatus::Pending {
        *cert = Some(c);
        return Err(bad_request("Certificate already processed"));
    }
    let owner = match pool {
        Some(p) => {
            if p.id != c.pool_id {
                *cert = Some(c);
                return Err(ApiError::Internal);
            }
            p.validator_id
        },
        None => {
            *cert = Some(c);
            return Err(ApiError::Internal);
        },
    };
    if !is_caller(user, owner) {
        *cert = Some(c);
        return Err(ApiError::Forbidden);
    }
    if decision.approve {
        if decision.tx_hash.is_none() {
            *cert = Some(c);
            return Err(bad_request("tx_hash required for approval"));
        }
        if decision.token_id.is_none() {
            *cert = Some(c);
            return Err(bad_request("token_id required for approval"));
        }
        c.status = CertificateStatus::Minted;
        c.tx_hash = decision.tx_hash;
        c.token_id = decision.token_id;
        c.validated_at = Some(now);
        c.minted_at = Some(now);
    } else {
        c.status = CertificateStatus::Rejected;
        c.rejection_reason = decision.rejection_reason;
        c.validated_at = Some(now);
    }
    *cert = Some(c);
    Ok(())
}

/// A decided certificate stays decided: for the pool's validator, deciding
/// a `minted` or `rejected` certificate again fails with `BadRequest`, and
/// (by the contract of `decide_certificate`) leaves it as it was.
pub proof fn lemma_decided_certificate_is_final(
    user: AuthUser,
    cert: Certificate,
    pool: Option<Pool>,
    decision: CertificateDecisionRequest,
)
    requires
        user.auth_type == CredentialKind::Email,
        is_id_text(user.sub@),
        cert.status == CertificateStatus::Minted || cert.status == CertificateStatus::Rejected,
    ensures
        certificate_decision_failure(user, Some(cert), pool, decision) == Some(ErrorKind::BadRequest),
{
}

/// A decided validator request stays decided: for an admin, deciding an
/// `approved` or `rejected` request again fails with `BadRequest`.
pub proof fn lemma_decided_request_is_final(user: AuthUser, request: ValidatorRequest)
    requires
        user.auth_type == CredentialKind::Email,
        user.role == Role::Admin,
        is_id_text(user.sub@),
        request.status != RequestStatus::Pending,
    ensures
        validator_decision_failure(user, Some(request)) == Some(ErrorKind::BadRequest),
{
}

} // verus!
