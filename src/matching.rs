use vstd::prelude::*;
use vstd::string::*;

verus! {

/// What `str::to_lowercase` returns: a function of the characters alone.
pub uninterp spec fn lower_of(s: Seq<char>) -> Seq<char>;

/// Relies on `str::to_lowercase`, whose result depends on the characters of `s` alone.
#[verifier::external_body]
fn to_lower(s: &str) -> (r: String)
    ensures
        r@ == lower_of(s@),
{
    s.to_lowercase()
}

/// The address with its leading `0x` marker removed, if it has one.
pub open spec fn strip_marker(a: Seq<char>) -> Seq<char> {
    if a.len() >= 2 && a[0] == '0' && a[1] == 'x' {
        a.subrange(2, a.len() as int)
    } else {
        a
    }
}

pub open spec fn has_prefix(s: Seq<char>, p: Seq<char>) -> bool {
    p.len() <= s.len() && s.subrange(0, p.len() as int) == p
}

pub open spec fn has_suffix(s: Seq<char>, p: Seq<char>) -> bool {
    p.len() <= s.len() && s.subrange(s.len() - p.len(), s.len() as int) == p
}

pub open spec fn opt_view(o: Option<String>) -> Option<Seq<char>> {
    match o {
        Some(s) => Some(s@),
        None => None,
    }
}

pub open spec fn opt_lower(o: Option<String>) -> Option<Seq<char>> {
    match o {
        Some(s) => Some(lower_of(s@)),
        None => None,
    }
}

/// Each part of the criteria that is given holds of `addr`; no criteria accept everything.
pub open spec fn lowered_accepts(
    addr: Seq<char>,
    prefix: Option<Seq<char>>,
    suffix: Option<Seq<char>>,
) -> bool {
    &&& match prefix {
        Some(p) => has_prefix(addr, p),
        None => true,
    }
    &&& match suffix {
        Some(q) => has_suffix(addr, q),
        None => true,
    }
}

/// The search predicate: the address, marker stripped, compared case-insensitively.
pub open spec fn accepts(
    address: Seq<char>,
    prefix: Option<String>,
    suffix: Option<String>,
) -> bool {
    lowered_accepts(lower_of(strip_marker(address)), opt_lower(prefix), opt_lower(suffix))
}

fn starts_with_chars(s: &str, p: &str) -> (r: bool)
    ensures
        r == has_prefix(s@, p@),
{
    let n = s.unicode_len();
    let m = p.unicode_len();
    if m > n {
        return false;
    }
    let mut i: usize = 0;
    while i < m
        invariant
            i <= m <= n,
            n == s@.len(),
            m == p@.len(),
            forall|j: int| 0 <= j < i ==> s@[j] == p@[j],
        decreases m - i,
    {
        if s.get_char(i) != p.get_char(i) {
            assert(s@.subrange(0, m as int)[i as int] != p@[i as int]);
            return false;
        }
        i = i + 1;
    }
    assert(s@.subrange(0, m as int) =~= p@);
    true
}

fn ends_with_chars(s: &str, p: &str) -> (r: bool)
    ensures
        r == has_suffix(s@, p@),
{
    let n = s.unicode_len();
    let m = p.unicode_len();
    if m > n {
        return false;
    }
    let off = n - m;
    let mut i: usize = 0;
    while i < m
        invariant
            i <= m <= n,
            off == n - m,
            n == s@.len(),
            m == p@.len(),
            forall|j: int| 0 <= j < i ==> s@[off + j] == p@[j],
        decreases m - i,
    {
        if s.get_char(off + i) != p.get_char(i) {
            assert(s@.subrange(off as int, n as int)[i as int] != p@[i as int]);
            return false;
        }
        i = i + 1;
    }
    assert(s@.subrange(off as int, n as int) =~= p@);
    true
}

pub(crate) fn strip_marker_str<'a>(a: &'a str) -> (r: &'a str)
    ensures
        r@ == strip_marker(a@),
{
    let n = a.unicode_len();
    if n >= 2 && a.get_char(0) == '0' && a.get_char(1) == 'x' {
        a.substring_char(2, n)
    } else {
        a
    }
}

/// Decides the criteria on values that are already lower-cased and stripped of the marker.
pub fn matches_lowered(address: &str, prefix: &Option<String>, suffix: &Option<String>) -> (r:
    bool)
    ensures
        r == lowered_accepts(address@, opt_view(*prefix), opt_view(*suffix)),
{
    if let Some(p) = prefix {
        if !starts_with_chars(address, p.as_str()) {
            return false;
        }
    }
    if let Some(q) = suffix {
        if !ends_with_chars(address, q.as_str()) {
            return false;
        }
    }
    true
}

fn lower_opt(o: &Option<String>) -> (r: Option<String>)
    ensures
        opt_view(r) == opt_lower(*o),
{
    match o {
        Some(s) => Some(to_lower(s.as_str())),
        None => None,
    }
}

/// Whether `address` satisfies the prefix and suffix: a leading `0x` is ignored,
/// letters compare without regard to case, and an absent part always holds.
pub fn address_matches(address: &str, prefix: &Option<String>, suffix: &Option<String>) -> (r:
    bool)
    ensures
        r == accepts(address@, *prefix, *suffix),
{
    let stripped = strip_marker_str(address);
    let lowered = to_lower(stripped);
    let lp = lower_opt(prefix);
    let ls = lower_opt(suffix);
    matches_lowered(lowered.as_str(), &lp, &ls)
}

} // verus!
