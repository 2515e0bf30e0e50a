//! Roles, credential kinds and the identity context a token stands for.
use vstd::prelude::*;

verus! {

/// Authorization level of a principal.
#[derive(Debug, Clone, Copy, PartialEq, Eq, Structural)]
pub enum Role {
    Admin,
    Validator,
    Certificator,
}

/// Which of the two authentication schemes produced a token.
#[derive(Debug, Clone, Copy, PartialEq, Eq, Structural)]
pub enum CredentialKind {
    Email,
    Wallet,
}

impl Role {
    /// The wire name of the role.
    pub open spec fn spec_name(self) -> Seq<char> {
        match self {
            Role::Admin => "admin"@,
            Role::Validator => "validator"@,
            Role::Certificator => "certificator"@,
        }
    }

    /// The role with the given wire name.
    pub fn from_name(s: &str) -> (r: Option<Role>)
        ensures
            r matches Some(role) ==> role.spec_name() == s@,
            r is None ==> forall|role: Role| role.spec_name() != s@,
    {
        let t = String::from_str(s);
        if t == String::from_str("admin") {
            Some(Role::Admin)
        } else if t == String::from_str("validator") {
            Some(Role::Validator)
        } else if t == String::from_str("certificator") {
            Some(Role::Certificator)
        } else {
            proof {
                assert forall|role: Role| role.spec_name() != s@ by {
                    match role {
                        Role::Admin => {},
                        Role::Validator => {},
                        Role::Certificator => {},
                    }
                }
            }
            None
        }
    }

    pub fn as_str(&self) -> (r: &'static str)
        ensures
            r@ == self.spec_name(),
    {
        match self {
            Role::Admin => "admin",
            Role::Validator => "validator",
            Role::Certificator => "certificator",
        }
    }
}

impl CredentialKind {
    /// The wire name of the credential kind.
    pub open spec fn spec_name(self) -> Seq<char> {
        match self {
            CredentialKind::Email => "email"@,
            CredentialKind::Wallet => "wallet"@,
        }
    }

    pub fn as_str(&self) -> (r: &'static str)
        ensures
            r@ == self.spec_name(),
    {
        match self {
            CredentialKind::Email => "email",
            CredentialKind::Wallet => "wallet",
        }
    }
}

/// The identity context derived from a valid token: who the caller is, with
/// which role, by which credential, and until when the token holds.
#[derive(Debug, Clone)]
pub struct AuthUser {
    /// Numeric account id (email credential) or lowercase wallet address.
    pub sub: String,
    pub role: Role,
    pub auth_type: CredentialKind,
    /// Absolute expiry in epoch seconds.
    pub exp: u64,
}

} // verus!
