//! Persisted entities as the core sees them once fetched, and the requests
//! and responses of the protected operations. Timestamps are epoch seconds.
use vstd::prelude::*;
use crate::claims::{all_digits, dec, dec_value, is_digit, lemma_dec_digits};
use crate::identity::Role;

verus! {

/// Status of a validator request: `pending` until an admin decides it.
#[derive(Debug, Clone, Copy, PartialEq, Eq, Structural)]
pub enum RequestStatus {
    Pending,
    Approved,
    Rejected,
}

/// Status of a certificate: `pending` until its pool's validator decides it.
#[derive(Debug, Clone, Copy, PartialEq, Eq, Structural)]
pub enum CertificateStatus {
    Pending,
    Rejected,
    Minted,
}

impl RequestStatus {
    /// The stored name of the status.
    pub open spec fn spec_name(self) -> Seq<char> {
        match self {
            RequestStatus::Pending => "pending"@,
            RequestStatus::Approved => "approved"@,
            RequestStatus::Rejected => "rejected"@,
        }
    }

    pub fn as_str(&self) -> (r: &'static str)
        ensures
            r@ == self.spec_name(),
    {
        match self {
            RequestStatus::Pending => "pending",
            RequestStatus::Approved => "approved",
            RequestStatus::Rejected => "rejected",
        }
    }

    /// The status with the given stored name.
    pub fn from_name(s: &str) -> (r: Option<RequestStatus>)
        ensures
            r matches Some(v) ==> v.spec_name() == s@,
            r is None ==> forall|v: RequestStatus| v.spec_name() != s@,
    {
        let t = String::from_str(s);
        if t == String::from_str("pending") {
            Some(RequestStatus::Pending)
        } else if t == String::from_str("approved") {
            Some(RequestStatus::Approved)
        } else if t == String::from_str("rejected") {
            Some(RequestStatus::Rejected)
        } else {
            proof {
                assert forall|v: RequestStatus| v.spec_name() != s@ by {
                    match v {
                        RequestStatus::Pending => {},
                        RequestStatus::Approved => {},
                        RequestStatus::Rejected => {},
                    }
                }
            }
            None
        }
    }
}

impl CertificateStatus {
    /// The stored name of the status.
    pub open spec fn spec_name(self) -> Seq<char> {
        match self {
            CertificateStatus::Pending => "pending"@,
            CertificateStatus::Rejected => "rejected"@,
            CertificateStatus::Minted => "minted"@,
        }
    }

    pub fn as_str(&self) -> (r: &'static str)
        ensures
            r@ == self.spec_name(),
    {
        match self {
            CertificateStatus::Pending => "pending",
            CertificateStatus::Rejected => "rejected",
            CertificateStatus::Minted => "minted",
        }
    }

    /// The status with the given stored name.
    pub fn from_name(s: &str) -> (r: Option<CertificateStatus>)
        ensures
            r matches Some(v) ==> v.spec_name() == s@,
            r is None ==> forall|v: CertificateStatus| v.spec_name() != s@,
    {
        let t = String::from_str(s);
        if t == String::from_str("pending") {
            Some(CertificateStatus::Pending)
        } else if t == String::from_str("rejected") {
            Some(CertificateStatus::Rejected)
        } else if t == String::from_str("minted") {
            Some(CertificateStatus::Minted)
        } else {
            proof {
                assert forall|v: CertificateStatus| v.spec_name() != s@ by {
                    match v {
                        CertificateStatus::Pending => {},
                        CertificateStatus::Rejected => {},
                        CertificateStatus::Minted => {},
                    }
                }
            }
            None
        }
    }
}

/// An account: an admin or a validator.
#[derive(Debug, Clone)]
pub struct User {
    pub id: i32,
    pub email: String,
    pub password_hash: String,
    pub username: String,
    pub role: Role,
    pub wallet_address: Option<String>,
    pub created_at: i64,
}

/// A request of an account to act as a validator for an institution.
#[derive(Debug, Clone)]
pub struct ValidatorRequest {
    pub id: i32,
    pub user_id: i32,
    pub institution_name: String,
    pub institution_id: String,
    pub document_url: Option<String>,
    pub status: RequestStatus,
    pub reviewed_by: Option<i32>,
    pub reviewed_at: Option<i64>,
    pub rejection_reason: Option<String>,
    pub created_at: i64,
}

/// A validator-owned issuance channel, identified by a short code.
#[derive(Debug, Clone)]
pub struct Pool {
    pub id: i32,
    pub code: String,
    pub validator_id: i32,
    pub name: String,
    pub description: Option<String>,
    pub tx_hash: Option<String>,
    pub is_active: bool,
    pub created_at: i64,
}

/// A certificate submitted to a pool by a wallet holder.
#[derive(Debug, Clone)]
pub struct Certificate {
    pub id: i32,
    pub pool_id: i32,
    pub certificator_wallet: String,
    pub recipient_name: String,
    pub recipient_wallet: String,
    pub certificate_type: String,
    pub document_hash: String,
    pub metadata_uri: Option<String>,
    pub status: CertificateStatus,
    pub token_id: Option<i32>,
    pub tx_hash: Option<String>,
    pub validated_at: Option<i64>,
    pub minted_at: Option<i64>,
    pub rejection_reason: Option<String>,
    pub created_at: i64,
}

/// What an account shows of itself: everything but the password hash.
#[derive(Debug, Clone)]
pub struct UserPublic {
    pub id: i32,
    pub email: String,
    pub username: String,
    pub role: Role,
    pub wallet_address: Option<String>,
}

impl UserPublic {
    pub fn from_user(u: User) -> (r: UserPublic)
        ensures
            r.id == u.id,
            r.email == u.email,
            r.username == u.username,
            r.role == u.role,
            r.wallet_address == u.wallet_address,
    {
        UserPublic { id: u.id, email: u.email, username: u.username, role: u.role, wallet_address: u.wallet_address }
    }
}

pub struct LoginRequest {
    pub email: String,
    pub password: String,
}

pub struct LoginResponse {
    pub token: String,
    pub role: Role,
    pub user: UserPublic,
}

pub struct RegisterRequest {
    pub email: String,
    pub password: String,
    pub username: String,
    pub institution_name: String,
    pub institution_id: String,
    pub document_url: Option<String>,
}

pub struct NonceRequest {
    pub address: String,
}

pub struct NonceResponse {
    pub nonce: String,
    pub message: String,
}

pub struct VerifyWalletRequest {
    pub address: String,
    pub signature: String,
}

pub struct CreatePoolRequest {
    pub name: String,
    pub description: Option<String>,
    pub tx_hash: String,
}

/// A pool as shown to anyone holding its code.
pub struct PoolResponse {
    pub id: i32,
    pub code: String,
    pub name: String,
    pub description: Option<String>,
    pub validator_name: String,
    pub institution_name: String,
    pub is_active: bool,
    pub created_at: i64,
}

impl PoolResponse {
    /// The public view of a pool, with its validator's name and institution.
    pub fn from_pool(pool: Pool, validator_name: String, institution_name: String) -> (r: PoolResponse)
        ensures
            r.id == pool.id && r.code == pool.code && r.name == pool.name && r.description == pool.description,
            r.validator_name == validator_name && r.institution_name == institution_name,
            r.is_active == pool.is_active && r.created_at == pool.created_at,
    {
        PoolResponse {
            id: pool.id,
            code: pool.code,
            name: pool.name,
            description: pool.description,
            validator_name,
            institution_name,
            is_active: pool.is_active,
            created_at: pool.created_at,
        }
    }
}

pub struct SubmitCertificateRequest {
    pub recipient_name: String,
    pub recipient_wallet: String,
    pub certificate_type: String,
    pub document_hash: String,
    pub metadata_uri: Option<String>,
}

pub struct CertificateDecisionRequest {
    pub approve: bool,
    pub tx_hash: Option<String>,
    pub token_id: Option<i32>,
    pub rejection_reason: Option<String>,
}

pub struct ValidatorDecisionRequest {
    pub approve: bool,
    pub rejection_reason: Option<String>,
}

pub struct ConnectWalletRequest {
    pub wallet_address: String,
}

/// Decimal text of an account id, with a leading `-` when negative.
pub open spec fn id_text(id: i32) -> Seq<char> {
    if id < 0 {
        seq!['-'] + dec((-id) as nat)
    } else {
        dec(id as nat)
    }
}

/// Decimal text of an account id.
pub fn render_id(id: i32) -> (r: String)
    ensures
        r@ == id_text(id),
{
    if id < 0 {
        let magnitude: u64 = (0 - (id as i64)) as u64;
        let digits = crate::claims::render_dec(magnitude);
        proof {
            reveal_strlit("-");
        }
        String::from_str("-").concat(digits.as_str())
    } else {
        crate::claims::render_dec(id as u64)
    }
}

/// The account id whose text is `s`, if any.
pub fn parse_id(s: &str) -> (r: Option<i32>)
    ensures
        r matches Some(v) ==> id_text(v) == s@,
        r is None ==> forall|v: i32| id_text(v) != s@,
{
    let n = s.unicode_len();
    proof {
        assert forall|v: i32| #[trigger] id_text(v) == s@ implies {
            let m: nat = if v < 0 { (-v) as nat } else { v as nat };
            &&& n >= 1
            &&& (v < 0 <==> s@[0] == '-')
            &&& s@.subrange(if v < 0 { 1 } else { 0 }, n as int) == dec(m)
            &&& n >= 1 + (if v < 0 { 1int } else { 0int })
        } by {
            let m: nat = if v < 0 { (-v) as nat } else { v as nat };
            lemma_dec_digits(m);
            if v < 0 {
                assert(s@.subrange(1, n as int) =~= dec(m));
            } else {
                assert(s@.subrange(0, n as int) =~= dec(m));
                assert(is_digit(dec(m)[0]));
            }
        }
    }
    if n == 0 {
        return None;
    }
    let negative = s.get_char(0) == '-';
    let start: usize = if negative { 1 } else { 0 };
    if start == n {
        return None;
    }
    proof {
        assert forall|v: i32| #[trigger] id_text(v) == s@ implies
            all_digits(s@.subrange(start as int, n as int))
            && dec_value(s@.subrange(start as int, n as int)) == (if v < 0 { (-v) as nat } else { v as nat })
        by {
            let m: nat = if v < 0 { (-v) as nat } else { v as nat };
            lemma_dec_digits(m);
        }
    }
    let m = match crate::claims::digits_value(s, start, n) {
        Some(m) => m,
        None => {
            return None;
        },
    };
    let v: i32 = if negative {
        if m > 2147483648 {
            return None;
        }
        (0 - (m as i64)) as i32
    } else {
        if m > 2147483647 {
            return None;
        }
        m as i32
    };
    let text = render_id(v);
    if crate::signature::same_text(text.as_str(), s) {
        Some(v)
    } else {
        None
    }
}

} // verus!
