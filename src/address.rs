//! Wallet addresses and the text of the login challenge.
use vstd::prelude::*;

verus! {

pub open spec fn is_hex_char(c: char) -> bool {
    ('0' <= c && c <= '9') || ('a' <= c && c <= 'f') || ('A' <= c && c <= 'F')
}

pub open spec fn is_lower_hex_char(c: char) -> bool {
    ('0' <= c && c <= '9') || ('a' <= c && c <= 'f')
}

/// `0x` (or `0X`) followed by 40 hex digits of either case.
pub open spec fn is_wallet_address(s: Seq<char>) -> bool {
    &&& s.len() == 42
    &&& s[0] == '0'
    &&& (s[1] == 'x' || s[1] == 'X')
    &&& forall|i: int| 2 <= i < 42 ==> is_hex_char(#[trigger] s[i])
}

/// `0x` followed by 40 lowercase hex digits: the form an address is
/// printed in.
pub open spec fn is_lower_address(s: Seq<char>) -> bool {
    &&& s.len() == 42
    &&& s[0] == '0'
    &&& s[1] == 'x'
    &&& forall|i: int| 2 <= i < 42 ==> is_lower_hex_char(#[trigger] s[i])
}

/// The lowercase form of a string, as Unicode defines it.
pub uninterp spec fn lower_of(s: Seq<char>) -> Seq<char>;

/// Relies on `str::to_lowercase`: the result depends on the characters
/// alone.
#[verifier::external_body]
pub(crate) fn lowercase(s: &str) -> (r: String)
    ensures
        r@ == lower_of(s@),
{
    s.to_lowercase()
}

pub fn is_hex_digit(c: char) -> (r: bool)
    ensures
        r == is_hex_char(c),
{
    ('0' <= c && c <= '9') || ('a' <= c && c <= 'f') || ('A' <= c && c <= 'F')
}

/// Whether `s` has the shape of a wallet address.
pub fn check_wallet_address(s: &str) -> (r: bool)
    ensures
        r == is_wallet_address(s@),
{
    let n = s.unicode_len();
    if n != 42 {
        return false;
    }
    if s.get_char(0) != '0' {
        return false;
    }
    let x = s.get_char(1);
    if x != 'x' && x != 'X' {
        return false;
    }
    let mut i: usize = 2;
    while i < 42
        invariant
            2 <= i <= 42,
            n == s@.len(),
            n == 42,
            forall|k: int| 2 <= k < i ==> is_hex_char(#[trigger] s@[k]),
        decreases 42 - i,
    {
        if !is_hex_digit(s.get_char(i)) {
            return false;
        }
        i = i + 1;
    }
    true
}

/// The message a wallet signs to prove control of its address.
pub open spec fn challenge_message(nonce: Seq<char>) -> Seq<char> {
    "Login to Etched: "@ + nonce
}

pub fn build_challenge(nonce: &str) -> (r: String)
    ensures
        r@ == challenge_message(nonce@),
{
    String::from_str("Login to Etched: ").concat(nonce)
}

} // verus!
