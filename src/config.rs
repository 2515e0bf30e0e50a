//! Process-wide configuration consumed by the core.
use vstd::prelude::*;
use crate::address::{lower_of, lowercase};

verus! {

/// Signing secret, admin wallet allow-list and serving parameters.
#[derive(Clone)]
pub struct Config {
    /// Secret the token codec signs and checks with.
    pub jwt_secret: String,
    /// Lowercase wallet addresses that resolve to the admin role, each once.
    pub admin_addresses: Vec<String>,
    pub bind_addr: String,
    pub public_base_url: String,
    pub metadata_dir: String,
}

/// The value of a setting, or its default when unset.
pub open spec fn setting_or(v: Option<String>, default: Seq<char>) -> Seq<char> {
    match v {
        Some(s) => s@,
        None => default,
    }
}

fn value_or(v: Option<String>, default: &str) -> (r: String)
    ensures
        r@ == setting_or(v, default@),
{
    match v {
        Some(s) => s,
        None => String::from_str(default),
    }
}

impl Config {
    /// Configuration from the raw settings (each `None` when unset): the
    /// signing secret, the comma-separated admin allow-list, the bind
    /// address, the public base URL and the metadata directory, with their
    /// defaults.
    pub fn from_settings(
        jwt_secret: Option<String>,
        admin_addresses: Option<String>,
        bind_addr: Option<String>,
        public_base_url: Option<String>,
        metadata_dir: Option<String>,
    ) -> (r: Config)
        ensures
            r.jwt_secret@ == setting_or(jwt_secret, "super-secret"@),
            r.wf(),
            r.admin_set() == admin_entries(split_commas(setting_or(admin_addresses, ""@))).to_set(),
            r.bind_addr@ == setting_or(bind_addr, "0.0.0.0:8080"@),
            r.public_base_url@ == setting_or(public_base_url, "http://localhost:8080"@),
            r.metadata_dir@ == setting_or(metadata_dir, "./data/metadata"@),
    {
        let admins = value_or(admin_addresses, "");
        Config {
            jwt_secret: value_or(jwt_secret, "super-secret"),
            admin_addresses: parse_admin_addresses(admins.as_str()),
            bind_addr: value_or(bind_addr, "0.0.0.0:8080"),
            public_base_url: value_or(public_base_url, "http://localhost:8080"),
            metadata_dir: value_or(metadata_dir, "./data/metadata"),
        }
    }

    /// Each admin address is listed once.
    pub open spec fn wf(&self) -> bool {
        self.admin_addresses.deep_view().no_duplicates()
    }

    /// The admin allow-list as a set of addresses.
    pub open spec fn admin_set(&self) -> Set<Seq<char>> {
        self.admin_addresses.deep_view().to_set()
    }
}


/// The pieces of `s` between commas, in order (one piece when there is no
/// comma).
pub open spec fn split_commas(s: Seq<char>) -> Seq<Seq<char>>
    decreases s.len(),
{
    if s.len() == 0 {
        seq![Seq::<char>::empty()]
    } else {
        let prev = split_commas(s.drop_last());
        if s.last() == ',' {
            prev.push(Seq::<char>::empty())
        } else {
            prev.update(prev.len() - 1, prev.last().push(s.last()))
        }
    }
}

/// A character with the Unicode White_Space property.
pub open spec fn is_white_space(c: char) -> bool {
    let u = c as u32;
    (0x9 <= u && u <= 0xD) || u == 0x20 || u == 0x85 || u == 0xA0 || u == 0x1680 || (0x2000 <= u && u
        <= 0x200A) || u == 0x2028 || u == 0x2029 || u == 0x202F || u == 0x205F || u == 0x3000
}

/// `s` without its leading white space.
pub open spec fn trim_start_of(s: Seq<char>) -> Seq<char>
    decreases s.len(),
{
    if s.len() > 0 && is_white_space(s[0]) {
        trim_start_of(s.drop_first())
    } else {
        s
    }
}

/// `s` without its trailing white space.
pub open spec fn trim_end_of(s: Seq<char>) -> Seq<char>
    decreases s.len(),
{
    if s.len() > 0 && is_white_space(s.last()) {
        trim_end_of(s.drop_last())
    } else {
        s
    }
}

/// `s` without leading and trailing white space.
pub open spec fn trim_of(s: Seq<char>) -> Seq<char> {
    trim_end_of(trim_start_of(s))
}

/// Relies on `str::trim`, which removes leading and trailing characters
/// with the Unicode White_Space property.
#[verifier::external_body]
pub(crate) fn trimmed(s: &str) -> (r: String)
    ensures
        r@ == trim_of(s@),
{
    s.trim().to_string()
}

/// The allow-list entries that pieces of text stand for: each piece
/// trimmed, blank ones dropped, the rest in lowercase.
pub open spec fn admin_entries(pieces: Seq<Seq<char>>) -> Seq<Seq<char>>
    decreases pieces.len(),
{
    if pieces.len() == 0 {
        Seq::empty()
    } else {
        let rest = admin_entries(pieces.drop_last());
        let t = trim_of(pieces.last());
        if t.len() == 0 {
            rest
        } else {
            rest.push(lower_of(t))
        }
    }
}

/// The pieces of `s` between commas.
fn split_on_commas(s: &str) -> (r: Vec<String>)
    ensures
        r.deep_view() == split_commas(s@),
{
    let n = s.unicode_len();
    let mut done: Vec<String> = Vec::new();
    let mut start: usize = 0;
    let mut i: usize = 0;
    proof {
        assert(s@.subrange(0, 0) =~= Seq::<char>::empty());
        assert(done.deep_view() =~= Seq::<Seq<char>>::empty());
        assert(split_commas(Seq::<char>::empty()) =~= seq![Seq::<char>::empty()]);
        assert(done.deep_view().push(s@.subrange(0, 0)) =~= seq![Seq::<char>::empty()]);
    }
    while i < n
        invariant
            n == s@.len(),
            start <= i <= n,
            split_commas(s@.subrange(0, i as int)) == done.deep_view().push(s@.subrange(start as int, i as int)),
        decreases n - i,
    {
        proof {
            assert(s@.subrange(0, i + 1).drop_last() == s@.subrange(0, i as int));
            assert(s@.subrange(0, i + 1).last() == s@[i as int]);
        }
        if s.get_char(i) == ',' {
            let piece = String::from_str(s.substring_char(start, i));
            done.push(piece);
            start = i + 1;
            proof {
                assert(s@.subrange(start as int, i + 1) =~= Seq::<char>::empty());
            }
        } else {
            proof {
                assert(s@.subrange(start as int, i + 1) =~= s@.subrange(start as int, i as int).push(s@[i as int]));
            }
        }
        i = i + 1;
    }
    let last = String::from_str(s.substring_char(start, n));
    done.push(last);
    proof {
        assert(s@.subrange(0, n as int) =~= s@);
    }
    done
}

/// Whether `list` holds `x`.
fn list_contains(list: &Vec<String>, x: &String) -> (r: bool)
    ensures
        r == list.deep_view().contains(x@),
{
    let mut i: usize = 0;
    while i < list.len()
        invariant
            i <= list@.len(),
            forall|k: int| 0 <= k < i ==> list.deep_view()[k] != x@,
        decreases list@.len() - i,
    {
        if list[i] == *x {
            assert(list.deep_view()[i as int] == x@);
            return true;
        }
        i = i + 1;
    }
    false
}

/// The admin allow-list written as comma-separated addresses: entries
/// trimmed, blank ones dropped, the rest in lowercase, each address once.
pub fn parse_admin_addresses(s: &str) -> (r: Vec<String>)
    ensures
        r.deep_view().no_duplicates(),
        r.deep_view().to_set() == admin_entries(split_commas(s@)).to_set(),
{
    let pieces = split_on_commas(s);
    let mut out: Vec<String> = Vec::new();
    let mut k: usize = 0;
    proof {
        assert(out.deep_view() =~= Seq::<Seq<char>>::empty());
        assert(pieces.deep_view().subrange(0, 0) =~= Seq::<Seq<char>>::empty());
        assert(out.deep_view().to_set() =~= Set::<Seq<char>>::empty());
        assert(Seq::<Seq<char>>::empty().to_set() =~= Set::<Seq<char>>::empty());
    }
    while k < pieces.len()
        invariant
            k <= pieces@.len(),
            out.deep_view().no_duplicates(),
            out.deep_view().to_set() == admin_entries(pieces.deep_view().subrange(0, k as int)).to_set(),
        decreases pieces@.len() - k,
    {
        let ghost before = out.deep_view();
        let ghost prefix = pieces.deep_view().subrange(0, k as int);
        proof {
            assert(pieces.deep_view().subrange(0, k + 1).drop_last() == prefix);
            assert(pieces.deep_view().subrange(0, k + 1).last() == pieces.deep_view()[k as int]);
        }
        let t = trimmed(pieces[k].as_str());
        if t.unicode_len() > 0 {
            let entry = lowercase(t.as_str());
            proof {
                admin_entries(prefix).lemma_push_to_set_commute(entry@);
            }
            if !list_contains(&out, &entry) {
                out.push(entry);
                proof {
                    assert(out.deep_view() =~= before.push(entry@));
                    before.lemma_push_to_set_commute(entry@);
                    assert forall|a: int, b: int| 0 <= a < b < out.deep_view().len() implies out.deep_view()[a]
                        != out.deep_view()[b] by {
                        if b == before.len() {
                            assert(before.contains(before[a]));
                        }
                    }
                }
            } else {
                proof {
                    assert(before.to_set().contains(entry@));
                    assert(before.to_set().insert(entry@) =~= before.to_set());
                }
            }
        }
        k = k + 1;
    }
    proof {
        assert(pieces.deep_view().subrange(0, pieces@.len() as int) == pieces.deep_view());
    }
    out
}

} // verus!
