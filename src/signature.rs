//! The signature verifier: who signed a challenge.
use vstd::prelude::*;
use crate::address::{is_hex_char, is_hex_digit, is_lower_address};

verus! {

/// The text of a 65-byte signature: 130 hex digits, optionally after `0x`
/// or `0X`.
pub open spec fn is_signature_text(s: Seq<char>) -> bool {
    ||| (s.len() == 130 && forall|i: int| 0 <= i < 130 ==> is_hex_char(#[trigger] s[i]))
    ||| (s.len() == 132 && s[0] == '0' && (s[1] == 'x' || s[1] == 'X') && forall|i: int|
        2 <= i < 132 ==> is_hex_char(#[trigger] s[i]))
}

/// The address that signed `message` (hashed as an EIP-191 personal
/// message) with the signature whose text is `signature`, `None` when
/// recovery fails.
pub uninterp spec fn signer_of(message: Seq<char>, signature: Seq<char>) -> Option<Seq<char>>;

#[verifier::external_type_specification]
#[verifier::external_body]
pub struct ExSignatureError(ethers_core::types::SignatureError);

/// Relies on `ethers_core::types::Signature::from_str` (hex of 65 bytes,
/// `0x` prefix optional) and `Signature::recover`, which hashes the message
/// as an EIP-191 personal message and recovers the secp256k1 signer. The
/// recovered `H160` is printed with `{:x}`, two lowercase hex digits per
/// byte, after `0x`.
#[verifier::external_body]
fn recover_signer(message: &str, signature: &str) -> (r: Result<String, ethers_core::types::SignatureError>)
    requires
        is_signature_text(signature@),
    ensures
        r matches Ok(a) ==> signer_of(message@, signature@) == Some(a@) && is_lower_address(a@),
        r is Err ==> signer_of(message@, signature@) is None,
{
    let sig = <ethers_core::types::Signature as std::str::FromStr>::from_str(signature)?;
    let address = sig.recover(message)?;
    Ok(format!("0x{:x}", address))
}

/// Why a signature was not accepted.
#[derive(Debug, Clone, Copy, PartialEq, Eq, Structural)]
pub enum SignatureCheckError {
    /// The signature text is not 65 bytes of hex.
    InvalidSignatureFormat,
    /// No signer could be recovered from the signature.
    RecoveryFailed,
    /// The signer is not the claimed address.
    AddressMismatch,
}

/// Whether `s` is the text of a 65-byte signature.
pub fn check_signature_text(s: &str) -> (r: bool)
    ensures
        r == is_signature_text(s@),
{
    let n = s.unicode_len();
    let start: usize = if n == 132 {
        let x = s.get_char(1);
        if s.get_char(0) != '0' || (x != 'x' && x != 'X') {
            return false;
        }
        2
    } else if n == 130 {
        0
    } else {
        return false;
    };
    let mut i: usize = start;
    while i < n
        invariant
            start <= i <= n,
            n == s@.len(),
            (start == 0 && n == 130) || (start == 2 && n == 132 && s@[0] == '0' && (s@[1] == 'x' || s@[1]
                == 'X')),
            forall|k: int| start <= k < i ==> is_hex_char(#[trigger] s@[k]),
        decreases n - i,
    {
        if !is_hex_digit(s.get_char(i)) {
            assert(!is_hex_char(s@[i as int]));
            return false;
        }
        i = i + 1;
    }
    true
}

/// The outcome of checking that `signature` over `message` was made by
/// `address`.
pub open spec fn spec_check_signer(message: Seq<char>, signature: Seq<char>, address: Seq<char>) -> Result<
    (),
    SignatureCheckError,
> {
    if !is_signature_text(signature) {
        Err(SignatureCheckError::InvalidSignatureFormat)
    } else {
        match signer_of(message, signature) {
            None => Err(SignatureCheckError::RecoveryFailed),
            Some(a) => if a == address {
                Ok(())
            } else {
                Err(SignatureCheckError::AddressMismatch)
            },
        }
    }
}

/// Checks that `signature` over `message` was made by `address` (given in
/// lowercase).
pub fn check_signer(message: &str, signature: &str, address: &str) -> (r: Result<(), SignatureCheckError>)
    ensures
        r == spec_check_signer(message@, signature@, address@),
        r is Ok ==> is_lower_address(address@),
{
    if !check_signature_text(signature) {
        return Err(SignatureCheckError::InvalidSignatureFormat);
    }
    match recover_signer(message, signature) {
        Err(_) => Err(SignatureCheckError::RecoveryFailed),
        Ok(a) => {
            if a.as_str().unicode_len() == address.unicode_len() && same_text(a.as_str(), address) {
                Ok(())
            } else {
                Err(SignatureCheckError::AddressMismatch)
            }
        },
    }
}

/// Whether two strings hold the same characters.
pub fn same_text(a: &str, b: &str) -> (r: bool)
    ensures
        r == (a@ == b@),
{
    let n = a.unicode_len();
    if n != b.unicode_len() {
        return false;
    }
    let mut i: usize = 0;
    while i < n
        invariant
            i <= n,
            n == a@.len(),
            n == b@.len(),
            forall|k: int| 0 <= k < i ==> a@[k] == b@[k],
        decreases n - i,
    {
        if a.get_char(i) != b.get_char(i) {
            return false;
        }
        i = i + 1;
    }
    assert(a@ =~= b@);
    true
}

} // verus!
