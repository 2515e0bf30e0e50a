//! The auth gateway: challenge issuance, wallet and email sign-in, and
//! request-time identification.
use vstd::prelude::*;
use crate::address::{
    build_challenge, challenge_message, check_wallet_address, is_lower_address, is_wallet_address,
    lower_of, lowercase,
};
use crate::config::{trim_of, trimmed};
use crate::claims::{claims_json, subject_ok, Claims, ClaimsView, EXP_MAX};
use crate::error::{bad_request, ApiError};
use crate::identity::{AuthUser, CredentialKind, Role};
use crate::models::{id_text, render_id, LoginResponse, NonceResponse, User, UserPublic};
use crate::nonce::{spec_consume, spec_issue};
use crate::signature::{check_signer, spec_check_signer, SignatureCheckError};
use crate::state::{spec_resolve, AppState};
use crate::token::{decode_token, issue_token, jwt_payload, spec_decode, EMAIL_TOKEN_TTL, WALLET_TOKEN_TTL};

verus! {

/// Relies on `uuid::Uuid::new_v4` printed with `Display`: a fresh random
/// UUID in its hyphenated lowercase form, 36 characters.
#[verifier::external_body]
fn fresh_nonce() -> (r: String)
    ensures
        r@.len() == 36,
{
    uuid::Uuid::new_v4().to_string()
}

/// Relies on `chrono::Utc::now().timestamp()`: the current time in epoch
/// seconds.
#[verifier::external_body]
fn clock_now() -> (r: i64) {
    chrono::Utc::now().timestamp()
}

/// The current time in epoch seconds, read from the system clock.
pub fn now_seconds() -> (r: u64) {
    let t = clock_now();
    if t < 0 {
        0
    } else {
        t as u64
    }
}

/// Whether bcrypt accepts `password` against `hash`: `None` when `hash` is
/// not a bcrypt hash.
pub uninterp spec fn bcrypt_verdict(password: Seq<char>, hash: Seq<char>) -> Option<bool>;

#[verifier::external_type_specification]
#[verifier::external_body]
pub struct ExBcryptError(bcrypt::BcryptError);

/// Relies on `bcrypt::verify`: it rehashes `password` with the cost and salt
/// read from `hash` and compares, so the answer depends on the two texts
/// alone; an error when `hash` cannot be read.
#[verifier::external_body]
fn verify_password(password: &str, hash: &str) -> (r: Result<bool, bcrypt::BcryptError>)
    ensures
        r matches Ok(b) ==> bcrypt_verdict(password@, hash@) == Some(b),
        r is Err ==> bcrypt_verdict(password@, hash@) is None,
{
    bcrypt::verify(password, hash)
}

/// Relies on `bcrypt::hash` with `bcrypt::DEFAULT_COST`: each call draws a
/// fresh salt, so the text is not fixed, but it records the cost and salt
/// that `bcrypt::verify` rehashes with, so `verify` accepts the password
/// against it.
#[verifier::external_body]
pub(crate) fn hash_password(password: &str) -> (r: Result<String, bcrypt::BcryptError>)
    ensures
        r matches Ok(h) ==> bcrypt_verdict(password@, h@) == Some(true),
{
    bcrypt::hash(password, bcrypt::DEFAULT_COST)
}

/// The outcome of a wallet sign-in.
pub struct WalletLogin {
    pub token: String,
    pub role: Role,
    /// The signing address, in lowercase.
    pub address: String,
}

proof fn lemma_lower_address_subject(s: Seq<char>)
    requires
        is_lower_address(s),
    ensures
        subject_ok(s),
{
    assert forall|i: int| 0 <= i < s.len() implies crate::claims::plain_char(#[trigger] s[i]) by {
        if i >= 2 {
            assert(crate::address::is_lower_hex_char(s[i]));
        }
    }
}

proof fn lemma_id_subject(id: i32)
    ensures
        subject_ok(id_text(id)),
{
    let m: nat = if id < 0 { (-id) as nat } else { id as nat };
    crate::claims::lemma_dec_digits(m);
    let s = id_text(id);
    assert forall|i: int| 0 <= i < s.len() implies crate::claims::plain_char(#[trigger] s[i]) by {
        if id < 0 {
            if i > 0 {
                assert(s[i] == crate::claims::dec(m)[i - 1]);
            }
        } else {
            assert(s[i] == crate::claims::dec(m)[i]);
        }
    }
}

/// The claims view of a token for `sub`.
pub open spec fn claims_for(sub: Seq<char>, role: Role, kind: CredentialKind, exp: u64) -> ClaimsView {
    ClaimsView { sub, role, auth_type: kind, exp }
}

/// The expiry of a token issued at `now` for the credential kind, if it
/// fits.
pub open spec fn spec_expiry(now: u64, kind: CredentialKind) -> Option<u64> {
    let e = now + crate::token::spec_ttl(kind);
    if e <= EXP_MAX {
        Some(e as u64)
    } else {
        None
    }
}

/// The identity context a token's claims stand for.
pub open spec fn user_matches(u: AuthUser, c: ClaimsView) -> bool {
    u.sub@ == c.sub && u.role == c.role && u.auth_type == c.auth_type && u.exp == c.exp
}

/// What a wallet sign-in at time `now` answers, against the state `st` it
/// started from (address and signature taken without surrounding white
/// space, the address in lowercase): no challenge for the address is `BadRequest`; a signature
/// that is malformed or unrecoverable is a `BadRequest` saying which; one
/// by another address is `Unauthorized`; otherwise a wallet token for the address, with the role
/// the resolver gives it and the wallet lifetime.
pub open spec fn wallet_login_outcome(
    st: AppState,
    address: Seq<char>,
    signature: Seq<char>,
    now: u64,
    r: Result<WalletLogin, ApiError>,
) -> bool {
    match spec_consume(st.store.nonces@, lower_of(trim_of(address))).0 {
        None => r matches Err(ApiError::BadRequest(_)),
        Some(n) => match spec_check_signer(challenge_message(n), trim_of(signature), lower_of(trim_of(address))) {
            Err(SignatureCheckError::InvalidSignatureFormat) => r matches Err(ApiError::BadRequest(m))
                && m@ == "Invalid signature format"@,
            Err(SignatureCheckError::RecoveryFailed) => r matches Err(ApiError::BadRequest(m)) && m@
                == "Signature recovery failed"@,
            Err(SignatureCheckError::AddressMismatch) => r matches Err(ApiError::Unauthorized),
            Ok(_) => {
                let a = lower_of(trim_of(address));
                let role = spec_resolve(st.store.admins@, st.store.validators@, a);
                match spec_expiry(now, CredentialKind::Wallet) {
                    None => r matches Err(ApiError::Internal),
                    Some(exp) => r matches Ok(login) && login.role == role && login.address@ == a
                        && is_lower_address(a) && jwt_payload(login.token@, st.config.jwt_secret@) == Some(
                        claims_json(claims_for(a, role, CredentialKind::Wallet, exp)),
                    ),
                }
            },
        },
    }
}

/// What an email sign-in at time `now` answers: no account or a wrong
/// password is `Unauthorized`, an unreadable stored hash is `Internal`,
/// otherwise an email token for the account id with the account's role and
/// the email lifetime.
pub open spec fn login_outcome(
    st: AppState,
    password: Seq<char>,
    account: Option<User>,
    now: u64,
    r: Result<LoginResponse, ApiError>,
) -> bool {
    match account {
        None => r matches Err(ApiError::Unauthorized),
        Some(u) => match bcrypt_verdict(password, u.password_hash@) {
            None => r matches Err(ApiError::Internal),
            Some(false) => r matches Err(ApiError::Unauthorized),
            Some(true) => match spec_expiry(now, CredentialKind::Email) {
                None => r matches Err(ApiError::Internal),
                Some(exp) => r matches Ok(resp) && resp.role == u.role && resp.user.id == u.id
                    && resp.user.email == u.email && resp.user.username == u.username && resp.user.role
                    == u.role && resp.user.wallet_address == u.wallet_address && jwt_payload(
                    resp.token@,
                    st.config.jwt_secret@,
                ) == Some(claims_json(claims_for(id_text(u.id), u.role, CredentialKind::Email, exp))),
            },
        },
    }
}

/// The identity an `Authorization` header value gives at time `now`: it
/// must read `Bearer ` followed by a token that decodes.
pub open spec fn header_identity_outcome(
    st: AppState,
    header: Option<&str>,
    now: u64,
    r: Result<AuthUser, ApiError>,
) -> bool {
    match header {
        None => r matches Err(ApiError::Unauthorized),
        Some(h) => if h@.len() >= 7 && h@.subrange(0, 7) == "Bearer "@ {
            match spec_decode(h@.subrange(7, h@.len() as int), st.config.jwt_secret@, now) {
                Some(c) => r matches Ok(u) && user_matches(u, c),
                None => r matches Err(ApiError::Unauthorized),
            }
        } else {
            r matches Err(ApiError::Unauthorized)
        },
    }
}

impl AppState {
    /// Issues a fresh challenge for a wallet address (`0x` and 40 hex
    /// digits, either case), keyed by the address in lowercase, and returns
    /// it with the exact message to sign.
    pub fn get_nonce(&mut self, address: &str) -> (r: Result<NonceResponse, ApiError>)
        ensures
            final(self).config == old(self).config,
            final(self).store.admins@ == old(self).store.admins@,
            final(self).store.validators@ == old(self).store.validators@,
            !is_wallet_address(address@) ==> (r matches Err(ApiError::BadRequest(_))
                && final(self).store.nonces@ == old(self).store.nonces@),
            is_wallet_address(address@) ==> (r matches Ok(resp) && resp.nonce@.len() == 36
                && resp.message@ == challenge_message(resp.nonce@)
                && final(self).store.nonces@ == spec_issue(old(self).store.nonces@, lower_of(address@), resp.nonce@)),
    {
        if !check_wallet_address(address) {
            return Err(bad_request("Invalid address format"));
        }
        let key = lowercase(address);
        let nonce = fresh_nonce();
        let message = build_challenge(nonce.as_str());
        self.store.nonces.issue(key, nonce.clone());
        Ok(NonceResponse { nonce, message })
    }

    /// Completes a wallet sign-in at time `now`: consumes the address's
    /// challenge (even when the rest fails), checks that the signature over
    /// the challenge message was made by that address, resolves its role
    /// and issues a wallet token.
    pub fn verify_wallet(&mut self, address: &str, signature: &str, now: u64) -> (r: Result<WalletLogin, ApiError>)
        ensures
            final(self).config == old(self).config,
            final(self).store.admins@ == old(self).store.admins@,
            final(self).store.validators@ == old(self).store.validators@,
            final(self).store.nonces@ == spec_consume(old(self).store.nonces@, lower_of(trim_of(address@))).1,
            wallet_login_outcome(*old(self), address@, signature@, now, r),
    {
        let address = trimmed(address);
        let signature = trimmed(signature);
        let key = lowercase(address.as_str());
        let nonce = match self.store.nonces.consume(key.as_str()) {
            Some(n) => n,
            None => {
                return Err(bad_request("Nonce not found for this address"));
            },
        };
        let message = build_challenge(nonce.as_str());
        match check_signer(message.as_str(), signature.as_str(), key.as_str()) {
            Err(SignatureCheckError::InvalidSignatureFormat) => {
                return Err(bad_request("Invalid signature format"));
            },
            Err(SignatureCheckError::RecoveryFailed) => {
                return Err(bad_request("Signature recovery failed"));
            },
            Err(SignatureCheckError::AddressMismatch) => {
                return Err(ApiError::Unauthorized);
            },
            Ok(()) => {},
        }
        let role = self.store.resolve(key.as_str());
        if now > EXP_MAX - WALLET_TOKEN_TTL {
            return Err(ApiError::Internal);
        }
        let claims = Claims {
            sub: key.clone(),
            role,
            auth_type: CredentialKind::Wallet,
            exp: now + WALLET_TOKEN_TTL,
        };
        proof {
            lemma_lower_address_subject(key@);
        }
        let token = issue_token(&claims, self.config.jwt_secret.as_str())?;
        Ok(WalletLogin { token, role, address: key })
    }

    /// The identity context of a bearer token at time `now`.
    pub fn identify(&self, token: &str, now: u64) -> (r: Result<AuthUser, ApiError>)
        ensures
            match spec_decode(token@, self.config.jwt_secret@, now) {
                Some(c) => r matches Ok(u) && user_matches(u, c),
                None => r matches Err(ApiError::Unauthorized),
            },
    {
        let c = decode_token(token, self.config.jwt_secret.as_str(), now)?;
        Ok(AuthUser { sub: c.sub, role: c.role, auth_type: c.auth_type, exp: c.exp })
    }

    /// The identity context of an `Authorization` header value at time
    /// `now`: it must read `Bearer ` followed by a valid token.
    pub fn identify_header(&self, header: Option<&str>, now: u64) -> (r: Result<AuthUser, ApiError>)
        ensures
            header_identity_outcome(*self, header, now, r),
    {
        let h = match header {
            Some(h) => h,
            None => {
                return Err(ApiError::Unauthorized);
            },
        };
        let n = h.unicode_len();
        if !crate::claims::matches_at(h, n, 0, "Bearer ") {
            return Err(ApiError::Unauthorized);
        }
        proof {
            reveal_strlit("Bearer ");
        }
        let token = h.substring_char(7, n);
        self.identify(token, now)
    }

    /// Email sign-in at time `now`, given the account fetched by the
    /// lowercase email (see `login_key`). A missing account and a wrong
    /// password fail alike with `Unauthorized`.
    pub fn login(&self, password: &str, account: Option<User>, now: u64) -> (r: Result<LoginResponse, ApiError>)
        ensures
            login_outcome(*self, password@, account, now, r),
    {
        let u = match account {
            Some(u) => u,
            None => {
                return Err(ApiError::Unauthorized);
            },
        };
        let valid = match verify_password(password, u.password_hash.as_str()) {
            Ok(b) => b,
            Err(_) => {
                return Err(ApiError::Internal);
            },
        };
        if !valid {
            return Err(ApiError::Unauthorized);
        }
        if now > EXP_MAX - EMAIL_TOKEN_TTL {
            return Err(ApiError::Internal);
        }
        let claims = Claims {
            sub: render_id(u.id),
            role: u.role,
            auth_type: CredentialKind::Email,
            exp: now + EMAIL_TOKEN_TTL,
        };
        proof {
            lemma_id_subject(u.id);
        }
        let token = issue_token(&claims, self.config.jwt_secret.as_str())?;
        let role = u.role;
        Ok(LoginResponse { token, role, user: UserPublic::from_user(u) })
    }

    /// `verify_wallet` at the current time.
    pub fn verify_wallet_now(&mut self, address: &str, signature: &str) -> (r: Result<WalletLogin, ApiError>)
        ensures
            final(self).config == old(self).config,
            final(self).store.admins@ == old(self).store.admins@,
            final(self).store.validators@ == old(self).store.validators@,
            final(self).store.nonces@ == spec_consume(old(self).store.nonces@, lower_of(trim_of(address@))).1,
            exists|now: u64| wallet_login_outcome(*old(self), address@, signature@, now, r),
    {
        let now = now_seconds();
        self.verify_wallet(address, signature, now)
    }

    /// `identify_header` at the current time.
    pub fn identify_header_now(&self, header: Option<&str>) -> (r: Result<AuthUser, ApiError>)
        ensures
            exists|now: u64| header_identity_outcome(*self, header, now, r),
    {
        let now = now_seconds();
        self.identify_header(header, now)
    }

    /// `login` at the current time.
    pub fn login_now(&self, password: &str, account: Option<User>) -> (r: Result<LoginResponse, ApiError>)
        ensures
            exists|now: u64| login_outcome(*self, password@, account, now, r),
    {
        let now = now_seconds();
        self.login(password, account, now)
    }
}

/// A token from a wallet sign-in at time `now` identifies the signer, with
/// the role resolved at sign-in, at every time `t` before `now` plus the
/// wallet lifetime, and at no time from then on.
pub proof fn lemma_wallet_token_lifetime(
    st: AppState,
    address: Seq<char>,
    signature: Seq<char>,
    now: u64,
    login: WalletLogin,
    t: u64,
)
    requires
        wallet_login_outcome(st, address, signature, now, Ok(login)),
    ensures
        t < now + WALLET_TOKEN_TTL ==> (spec_decode(login.token@, st.config.jwt_secret@, t) matches Some(c)
            && c.sub == login.address@ && c.role == login.role && c.auth_type == CredentialKind::Wallet
            && c.exp == now + WALLET_TOKEN_TTL),
        t >= now + WALLET_TOKEN_TTL ==> spec_decode(login.token@, st.config.jwt_secret@, t) is None,
{
    let a = lower_of(trim_of(address));
    let exp = spec_expiry(now, CredentialKind::Wallet)->Some_0;
    lemma_lower_address_subject(a);
    crate::token::lemma_token_expiry(
        login.token@,
        st.config.jwt_secret@,
        claims_for(a, login.role, CredentialKind::Wallet, exp),
        t,
    );
}

/// The role in a wallet token is the one resolved at sign-in: in any later
/// state that keeps the signing secret, whatever its approval registry and
/// admin allow-list now hold, the token still grants that role until it
/// expires.
pub proof fn lemma_role_survives_registry_change(
    before: AppState,
    after: AppState,
    address: Seq<char>,
    signature: Seq<char>,
    now: u64,
    login: WalletLogin,
    t: u64,
)
    requires
        wallet_login_outcome(before, address, signature, now, Ok(login)),
        after.config.jwt_secret@ == before.config.jwt_secret@,
        t < now + WALLET_TOKEN_TTL,
    ensures
        spec_decode(login.token@, after.config.jwt_secret@, t) matches Some(c) && c.role == spec_resolve(
            before.store.admins@,
            before.store.validators@,
            lower_of(trim_of(address)),
        ),
{
    lemma_wallet_token_lifetime(before, address, signature, now, login, t);
}

/// A token from an email sign-in at time `now` identifies the account, with
/// its stored role, at every time `t` before `now` plus the email lifetime,
/// and at no time from then on.
pub proof fn lemma_email_token_lifetime(
    st: AppState,
    password: Seq<char>,
    account: User,
    now: u64,
    resp: LoginResponse,
    t: u64,
)
    requires
        login_outcome(st, password, Some(account), now, Ok(resp)),
    ensures
        t < now + EMAIL_TOKEN_TTL ==> (spec_decode(resp.token@, st.config.jwt_secret@, t) matches Some(c)
            && c.sub == id_text(account.id) && c.role == account.role && c.auth_type == CredentialKind::Email
            && c.exp == now + EMAIL_TOKEN_TTL),
        t >= now + EMAIL_TOKEN_TTL ==> spec_decode(resp.token@, st.config.jwt_secret@, t) is None,
{
    let exp = spec_expiry(now, CredentialKind::Email)->Some_0;
    lemma_id_subject(account.id);
    crate::token::lemma_token_expiry(
        resp.token@,
        st.config.jwt_secret@,
        claims_for(id_text(account.id), account.role, CredentialKind::Email, exp),
        t,
    );
}

/// The key an account is looked up by: its email in lowercase.
pub fn login_key(email: &str) -> (r: String)
    ensures
        r@ == lower_of(email@),
{
    lowercase(email)
}

} // verus!
