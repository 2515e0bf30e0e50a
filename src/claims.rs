//! The claims carried by a token, and their canonical JSON text.
//!
//! The text is fixed: `{"sub":"S","role":"R","auth_type":"K","exp":N}` with
//! the fields in this order, no whitespace, and `N` in decimal without
//! leading zeros. The subject is written unescaped, so it may hold neither
//! a quote, a backslash nor a control character.
use vstd::prelude::*;
use crate::identity::{CredentialKind, Role};

verus! {

/// The claims of a token.
#[derive(Debug, Clone)]
pub struct Claims {
    /// Numeric account id (email credential) or lowercase wallet address.
    pub sub: String,
    pub role: Role,
    pub auth_type: CredentialKind,
    /// Absolute expiry in epoch seconds.
    pub exp: u64,
}

/// The largest expiry a token can carry.
pub const EXP_MAX: u64 = 18446744073709551615;

/// Claims as mathematical values.
pub ghost struct ClaimsView {
    pub sub: Seq<char>,
    pub role: Role,
    pub auth_type: CredentialKind,
    pub exp: u64,
}

impl View for Claims {
    type V = ClaimsView;

    open spec fn view(&self) -> ClaimsView {
        ClaimsView { sub: self.sub@, role: self.role, auth_type: self.auth_type, exp: self.exp }
    }
}

pub open spec fn is_digit(c: char) -> bool {
    '0' <= c && c <= '9'
}

pub open spec fn digit_char(d: nat) -> char {
    (d + ('0' as nat)) as char
}

/// Decimal digits of `n`, without leading zeros.
pub open spec fn dec(n: nat) -> Seq<char>
    decreases n,
{
    if n < 10 {
        seq![digit_char(n)]
    } else {
        dec(n / 10).push(digit_char(n % 10))
    }
}

/// The number a string of decimal digits stands for.
pub open spec fn dec_value(s: Seq<char>) -> nat
    decreases s.len(),
{
    if s.len() == 0 {
        0
    } else {
        dec_value(s.drop_last()) * 10 + ((s.last() as nat) - ('0' as nat)) as nat
    }
}

/// A character that can stand unescaped in a JSON string.
pub open spec fn plain_char(c: char) -> bool {
    c != '"' && c != '\\' && c >= ' '
}

/// A subject that can stand unescaped in a JSON string.
pub open spec fn subject_ok(s: Seq<char>) -> bool {
    forall|i: int| 0 <= i < s.len() ==> plain_char(#[trigger] s[i])
}

pub open spec fn all_digits(s: Seq<char>) -> bool {
    forall|i: int| 0 <= i < s.len() ==> is_digit(#[trigger] s[i])
}

/// The canonical JSON text of the claims.
pub open spec fn claims_json(c: ClaimsView) -> Seq<char> {
    "{\"sub\":\""@ + c.sub + "\",\"role\":\""@ + c.role.spec_name() + "\",\"auth_type\":\""@
        + c.auth_type.spec_name() + "\",\"exp\":"@ + dec(c.exp as nat) + "}"@
}

/// `p` is the canonical text of `c`, and `c` has a subject that can be written.
pub open spec fn decodes_to(p: Seq<char>, c: ClaimsView) -> bool {
    subject_ok(c.sub) && claims_json(c) == p
}

/// The claims a text stands for, if it is the canonical text of any.
pub open spec fn spec_parse(p: Seq<char>) -> Option<ClaimsView> {
    if exists|c: ClaimsView| decodes_to(p, c) {
        Some(choose|c: ClaimsView| decodes_to(p, c))
    } else {
        None
    }
}

pub proof fn lemma_dec_digits(n: nat)
    ensures
        all_digits(dec(n)),
        dec(n).len() >= 1,
        dec_value(dec(n)) == n,
    decreases n,
{
    if n >= 10 {
        lemma_dec_digits(n / 10);
        assert(dec(n).drop_last() == dec(n / 10));
        assert(dec(n).last() == digit_char(n % 10));
        assert((digit_char(n % 10) as nat) == n % 10 + 48);
        assert(n == (n / 10) * 10 + n % 10);
        assert(dec_value(dec(n)) == dec_value(dec(n).drop_last()) * 10 + ((dec(n).last() as nat) - ('0' as nat)) as nat);
    } else {
        assert((digit_char(n) as nat) == n + 48);
        assert(dec(n).drop_last() =~= Seq::<char>::empty());
        assert(dec_value(dec(n)) == dec_value(dec(n).drop_last()) * 10 + ((dec(n).last() as nat) - ('0' as nat)) as nat);
    }
}

/// The decimal digit `d` as a one-character string.
fn digit_str(d: u64) -> (r: &'static str)
    requires
        d < 10,
    ensures
        r@ == seq![digit_char(d as nat)],
{
    proof {
        reveal_strlit("0");
        reveal_strlit("1");
        reveal_strlit("2");
        reveal_strlit("3");
        reveal_strlit("4");
        reveal_strlit("5");
        reveal_strlit("6");
        reveal_strlit("7");
        reveal_strlit("8");
        reveal_strlit("9");
    }
    match d {
        0 => "0",
        1 => "1",
        2 => "2",
        3 => "3",
        4 => "4",
        5 => "5",
        6 => "6",
        7 => "7",
        8 => "8",
        _ => "9",
    }
}

/// Decimal text of `n`.
pub fn render_dec(n: u64) -> (r: String)
    ensures
        r@ == dec(n as nat),
{
    let mut rest: u64 = n / 10;
    let mut out = String::from_str(digit_str(n % 10));
    while rest > 0
        invariant
            rest == 0 ==> dec(n as nat) == out@,
            rest > 0 ==> dec(n as nat) == dec(rest as nat) + out@,
        decreases rest,
    {
        proof {
            if rest >= 10 {
                assert(dec(rest as nat) == dec((rest / 10) as nat).push(digit_char((rest % 10) as nat)));
            }
        }
        let d = String::from_str(digit_str(rest % 10));
        out = d.concat(out.as_str());
        rest = rest / 10;
    }
    out
}

/// Where each part of the canonical text of `t` stands in `s`.
pub open spec fn layout(s: Seq<char>, t: ClaimsView) -> bool {
    let j: int = 8 + t.sub.len() as int;
    let i: int = j + 10;
    let rn = t.role.spec_name();
    let i2: int = i + rn.len() + 15;
    let kn = t.auth_type.spec_name();
    let i3: int = i2 + kn.len() + 8;
    let n: int = i3 + dec(t.exp as nat).len() + 1;
    &&& s.len() == n
    &&& s.subrange(0, 8) == "{\"sub\":\""@
    &&& s.subrange(8, j) == t.sub
    &&& (forall|k: int| 8 <= k < j ==> plain_char(#[trigger] s[k]))
    &&& s[j] == '"'
    &&& s.subrange(j, i) == "\",\"role\":\""@
    &&& s[i] == rn[0]
    &&& s.subrange(i, i + rn.len()) == rn
    &&& s.subrange(i + rn.len(), i2) == "\",\"auth_type\":\""@
    &&& s[i2] == kn[0]
    &&& s.subrange(i2, i2 + kn.len()) == kn
    &&& s.subrange(i2 + kn.len(), i3) == "\",\"exp\":"@
    &&& s.subrange(i3, n - 1) == dec(t.exp as nat)
    &&& s[n - 1] == '}'
}

proof fn lemma_literals()
    ensures
        "{\"sub\":\""@.len() == 8,
        "\",\"role\":\""@.len() == 10,
        "\",\"role\":\""@[0] == '"',
        "\",\"auth_type\":\""@.len() == 15,
        "\",\"exp\":"@.len() == 8,
        "}"@ == seq!['}'],
        Role::Admin.spec_name().len() == 5 && Role::Admin.spec_name()[0] == 'a',
        Role::Validator.spec_name().len() == 9 && Role::Validator.spec_name()[0] == 'v',
        Role::Certificator.spec_name().len() == 12 && Role::Certificator.spec_name()[0] == 'c',
        CredentialKind::Email.spec_name().len() == 5 && CredentialKind::Email.spec_name()[0] == 'e',
        CredentialKind::Wallet.spec_name().len() == 6 && CredentialKind::Wallet.spec_name()[0] == 'w',
{
    reveal_strlit("{\"sub\":\"");
    reveal_strlit("\",\"role\":\"");
    reveal_strlit("\",\"auth_type\":\"");
    reveal_strlit("\",\"exp\":");
    reveal_strlit("}");
    reveal_strlit("admin");
    reveal_strlit("validator");
    reveal_strlit("certificator");
    reveal_strlit("email");
    reveal_strlit("wallet");
}

pub proof fn lemma_layout(s: Seq<char>, t: ClaimsView)
    requires
        decodes_to(s, t),
    ensures
        layout(s, t),
{
    lemma_literals();
    lemma_dec_digits(t.exp as nat);
    let l1 = "{\"sub\":\""@;
    let l2 = "\",\"role\":\""@;
    let l3 = "\",\"auth_type\":\""@;
    let l4 = "\",\"exp\":"@;
    let rn = t.role.spec_name();
    let kn = t.auth_type.spec_name();
    let d = dec(t.exp as nat);
    let j: int = 8 + t.sub.len() as int;
    let i: int = j + 10;
    let i2: int = i + rn.len() + 15;
    let i3: int = i2 + kn.len() + 8;
    let n: int = i3 + d.len() + 1;
    assert(s =~= l1 + t.sub + l2 + rn + l3 + kn + l4 + d + "}"@);
    assert(s.subrange(0, 8) =~= l1);
    assert(s.subrange(8, j) =~= t.sub);
    assert forall|k: int| 8 <= k < j implies plain_char(#[trigger] s[k]) by {
        assert(s[k] == t.sub[k - 8]);
    }
    assert(s.subrange(j, i) =~= l2);
    assert(s[j] == l2[0]);
    assert(s.subrange(i, i + rn.len()) =~= rn);
    assert(s[i] == rn[0]);
    assert(s.subrange(i + rn.len(), i2) =~= l3);
    assert(s.subrange(i2, i2 + kn.len()) =~= kn);
    assert(s[i2] == kn[0]);
    assert(s.subrange(i2 + kn.len(), i3) =~= l4);
    assert(s.subrange(i3, n - 1) =~= d);
}

/// Two claims with the same canonical text are the same claims.
pub proof fn lemma_claims_json_injective(s: Seq<char>, t1: ClaimsView, t2: ClaimsView)
    requires
        decodes_to(s, t1),
        decodes_to(s, t2),
    ensures
        t1 == t2,
{
    lemma_literals();
    lemma_layout(s, t1);
    lemma_layout(s, t2);
    let j1: int = 8 + t1.sub.len() as int;
    let j2: int = 8 + t2.sub.len() as int;
    if j1 < j2 {
        assert(plain_char(s[j1]));
    }
    if j2 < j1 {
        assert(plain_char(s[j2]));
    }
    assert(t1.sub == t2.sub);
    assert(t1.role == t2.role);
    assert(t1.auth_type == t2.auth_type);
    lemma_dec_digits(t1.exp as nat);
    lemma_dec_digits(t2.exp as nat);
}

/// The canonical text of well-formed claims parses back to those claims.
pub proof fn lemma_parse_claims_json(t: ClaimsView)
    requires
        subject_ok(t.sub),
    ensures
        spec_parse(claims_json(t)) == Some(t),
{
    let s = claims_json(t);
    assert(decodes_to(s, t));
    let c = choose|c: ClaimsView| decodes_to(s, c);
    lemma_claims_json_injective(s, t, c);
}

/// The canonical text of the claims.
pub fn render_claims(c: &Claims) -> (r: String)
    ensures
        r@ == claims_json(c@),
{
    let r = String::from_str("{\"sub\":\"");
    let r = r.concat(c.sub.as_str());
    let r = r.concat("\",\"role\":\"");
    let r = r.concat(c.role.as_str());
    let r = r.concat("\",\"auth_type\":\"");
    let r = r.concat(c.auth_type.as_str());
    let r = r.concat("\",\"exp\":");
    let e = render_dec(c.exp);
    let r = r.concat(e.as_str());
    r.concat("}")
}

/// Whether `lit` stands in `p` at position `i`.
pub(crate) fn matches_at(p: &str, n: usize, i: usize, lit: &str) -> (r: bool)
    requires
        n == p@.len(),
    ensures
        r == (i + lit@.len() <= n && p@.subrange(i as int, i + lit@.len()) == lit@),
{
    let m = lit.unicode_len();
    if i > n || m > n - i {
        return false;
    }
    let mut k: usize = 0;
    while k < m
        invariant
            m == lit@.len(),
            i + m <= n,
            n == p@.len(),
            k <= m,
            forall|q: int| 0 <= q < k ==> p@[i + q] == lit@[q],
        decreases m - k,
    {
        if p.get_char(i + k) != lit.get_char(k) {
            assert(p@.subrange(i as int, i + m)[k as int] != lit@[k as int]);
            return false;
        }
        k = k + 1;
    }
    assert(p@.subrange(i as int, i + m) =~= lit@);
    true
}

/// The first position at or after `i` whose character cannot stand
/// unescaped in a JSON string, or the end.
fn scan_plain(p: &str, n: usize, i: usize) -> (j: usize)
    requires
        n == p@.len(),
        i <= n,
    ensures
        i <= j <= n,
        forall|k: int| i <= k < j ==> plain_char(#[trigger] p@[k]),
        j < n ==> !plain_char(p@[j as int]),
{
    let mut j = i;
    while j < n
        invariant
            i <= j <= n,
            n == p@.len(),
            forall|k: int| i <= k < j ==> plain_char(#[trigger] p@[k]),
        decreases n - j,
    {
        let c = p.get_char(j);
        if c == '"' || c == '\\' || ' ' > c {
            return j;
        }
        j = j + 1;
    }
    j
}

proof fn lemma_dec_value_prefix(s: Seq<char>, k: int)
    requires
        all_digits(s),
        0 <= k <= s.len(),
    ensures
        dec_value(s.subrange(0, k)) <= dec_value(s),
    decreases s.len(),
{
    if k < s.len() {
        assert(all_digits(s.drop_last()));
        assert(s.drop_last().subrange(0, k) == s.subrange(0, k));
        lemma_dec_value_prefix(s.drop_last(), k);
    } else {
        assert(s.subrange(0, k) == s);
    }
}

/// The number that `p[i..j]` stands for, if it is all digits and fits.
pub(crate) fn digits_value(p: &str, i: usize, j: usize) -> (r: Option<u64>)
    requires
        i <= j <= p@.len(),
    ensures
        r matches Some(v) ==> all_digits(p@.subrange(i as int, j as int)) && v == dec_value(
            p@.subrange(i as int, j as int),
        ),
        r is None ==> !all_digits(p@.subrange(i as int, j as int)) || dec_value(
            p@.subrange(i as int, j as int),
        ) > EXP_MAX,
{
    let ghost s = p@.subrange(i as int, j as int);
    let mut acc: u64 = 0;
    let mut k = i;
    while k < j
        invariant
            i <= k <= j <= p@.len(),
            s == p@.subrange(i as int, j as int),
            all_digits(s.subrange(0, k - i)),
            acc == dec_value(s.subrange(0, k - i)),
        decreases j - k,
    {
        let c = p.get_char(k);
        if '0' > c || c > '9' {
            assert(!is_digit(s[k - i]));
            return None;
        }
        let d = (c as u32 - 48) as u64;
        proof {
            assert(s.subrange(0, k + 1 - i).drop_last() == s.subrange(0, k - i));
            assert(s.subrange(0, k + 1 - i).last() == c);
        }
        if acc > (EXP_MAX - d) / 10 {
            proof {
                assert(dec_value(s.subrange(0, k + 1 - i)) > EXP_MAX);
                if all_digits(s) {
                    lemma_dec_value_prefix(s, k + 1 - i);
                }
            }
            return None;
        }
        acc = acc * 10 + d;
        k = k + 1;
    }
    assert(s.subrange(0, j - i) == s);
    Some(acc)
}


/// If `s` is the canonical text of some claims, the layout of those claims.
proof fn lemma_layout_if_parses(s: Seq<char>)
    ensures
        spec_parse(s) matches Some(t) ==> decodes_to(s, t) && layout(s, t),
{
    if spec_parse(s) is Some {
        let t = spec_parse(s)->Some_0;
        lemma_layout(s, t);
    }
}

/// The claims that `p` is the canonical text of, if any.
pub fn parse_claims(p: &str) -> (r: Option<Claims>)
    ensures
        r matches Some(c) ==> spec_parse(p@) == Some(c@),
        r is None ==> spec_parse(p@) is None,
{
    let ghost s = p@;
    proof {
        lemma_literals();
        lemma_layout_if_parses(s);
    }
    let n = p.unicode_len();
    if !matches_at(p, n, 0, "{\"sub\":\"") {
        return None;
    }
    let j = scan_plain(p, n, 8);
    proof {
        if spec_parse(s) is Some {
            let t = spec_parse(s)->Some_0;
            let jt: int = 8 + t.sub.len() as int;
            if j < jt {
                assert(plain_char(s[j as int]));
            }
            if j > jt {
                assert(plain_char(s[jt]));
            }
        }
    }
    if !matches_at(p, n, j, "\",\"role\":\"") {
        return None;
    }
    let i = j + 10;
    if i >= n {
        return None;
    }
    let c0 = p.get_char(i);
    let role = if c0 == 'a' {
        Role::Admin
    } else if c0 == 'v' {
        Role::Validator
    } else if c0 == 'c' {
        Role::Certificator
    } else {
        return None;
    };
    let rn = role.as_str();
    if !matches_at(p, n, i, rn) {
        return None;
    }
    let i1 = i + rn.unicode_len();
    if !matches_at(p, n, i1, "\",\"auth_type\":\"") {
        return None;
    }
    let i2 = i1 + 15;
    if i2 >= n {
        return None;
    }
    let c1 = p.get_char(i2);
    let kind = if c1 == 'e' {
        CredentialKind::Email
    } else if c1 == 'w' {
        CredentialKind::Wallet
    } else {
        return None;
    };
    let kn = kind.as_str();
    if !matches_at(p, n, i2, kn) {
        return None;
    }
    let i3a = i2 + kn.unicode_len();
    if !matches_at(p, n, i3a, "\",\"exp\":") {
        return None;
    }
    let i3 = i3a + 8;
    if n - i3 < 2 {
        return None;
    }
    if p.get_char(n - 1) != '}' {
        return None;
    }
    proof {
        if spec_parse(s) is Some {
            let t = spec_parse(s)->Some_0;
            lemma_dec_digits(t.exp as nat);
        }
    }
    let exp = match digits_value(p, i3, n - 1) {
        Some(v) => v,
        None => {
            return None;
        },
    };
    let c = Claims { sub: String::from_str(p.substring_char(8, j)), role, auth_type: kind, exp };
    let text = render_claims(&c);
    let whole = String::from_str(p);
    if text == whole {
        proof {
            assert forall|k: int| 0 <= k < c.sub@.len() implies plain_char(#[trigger] c.sub@[k]) by {
                assert(c.sub@[k] == s[8 + k]);
            }
            assert(decodes_to(s, c@));
            let t = spec_parse(s)->Some_0;
            lemma_claims_json_injective(s, c@, t);
        }
        Some(c)
    } else {
        None
    }
}

} // verus!
