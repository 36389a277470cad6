//! Text helpers over `Seq<char>` views: substring search and the heartbeat
//! endpoint.
use vstd::prelude::*;
use vstd::string::StrSliceExecFns;
use vstd::string::StringExecFns;

verus! {

/// `p` occurs in `s` at position `i`.
pub open spec fn occurs_at(s: Seq<char>, p: Seq<char>, i: int) -> bool {
    0 <= i && i + p.len() <= s.len() && s.subrange(i, i + p.len()) == p
}

/// `p` occurs somewhere in `s`.
pub open spec fn contains_seq(s: Seq<char>, p: Seq<char>) -> bool {
    exists|i: int| occurs_at(s, p, i)
}

/// Servers of this domain are never sent heartbeats.
pub open spec fn blocked_domain() -> Seq<char> {
    seq!['r', 'u', 's', 't', 'd', 'e', 's', 'k', '.', 'c', 'o', 'm']
}

/// Path appended to the API base to reach the heartbeat endpoint.
pub open spec fn heartbeat_path() -> Seq<char> {
    seq!['/', 'a', 'p', 'i', '/', 'h', 'e', 'a', 'r', 't', 'b', 'e', 'a', 't']
}

/// The heartbeat endpoint for an API base URL; empty when no usable server is
/// configured.
pub open spec fn heartbeat_url_of(api: Seq<char>) -> Seq<char> {
    if api.len() == 0 || contains_seq(api, blocked_domain()) {
        Seq::empty()
    } else {
        api + heartbeat_path()
    }
}

/// Whether `p` occurs at position `i` of `s`, comparing character by character.
fn matches_at(s: &str, n: usize, p: &str, m: usize, i: usize) -> (r: bool)
    requires
        n == s@.len(),
        m == p@.len(),
        i + m <= n,
    ensures
        r == occurs_at(s@, p@, i as int),
{
    let mut j: usize = 0;
    while j < m
        invariant
            n == s@.len(),
            m == p@.len(),
            i + m <= n,
            j <= m,
            forall|k: int| 0 <= k < j ==> s@[i + k] == p@[k],
        decreases m - j,
    {
        if s.get_char(i + j) != p.get_char(j) {
            assert(s@.subrange(i as int, i + m)[j as int] != p@[j as int]);
            return false;
        }
        j = j + 1;
    }
    assert(s@.subrange(i as int, i + m) =~= p@);
    true
}

/// Whether `p` occurs somewhere in `s`.
pub fn contains_text(s: &str, p: &str) -> (r: bool)
    ensures
        r == contains_seq(s@, p@),
{
    let n = s.unicode_len();
    let m = p.unicode_len();
    if m > n {
        assert forall|i: int| !occurs_at(s@, p@, i) by {}
        return false;
    }
    if m == 0 {
        assert(s@.subrange(0, 0) =~= p@);
        assert(occurs_at(s@, p@, 0));
        return true;
    }
    let mut i: usize = 0;
    while i <= n - m
        invariant
            n == s@.len(),
            m == p@.len(),
            m <= n,
            i <= n - m + 1,
            n - m < usize::MAX,
            forall|k: int| 0 <= k < i ==> !occurs_at(s@, p@, k),
        decreases n + 1 - i,
    {
        if matches_at(s, n, p, m, i) {
            return true;
        }
        i = i + 1;
    }
    assert forall|k: int| !occurs_at(s@, p@, k) by {
        if 0 <= k < i {
        }
    }
    false
}

/// The heartbeat endpoint derived from the API base URL: empty when the base is
/// empty or names the blocked vendor domain, else the base followed by
/// `/api/heartbeat`.
pub fn heartbeat_url(api: &str) -> (r: String)
    ensures
        r@ == heartbeat_url_of(api@),
{
    let domain = "rustdesk.com";
    proof {
        reveal_strlit("rustdesk.com");
    }
    assert(domain@ =~= blocked_domain());
    if api.unicode_len() == 0 || contains_text(api, domain) {
        return String::new();
    }
    let path = "/api/heartbeat";
    proof {
        reveal_strlit("/api/heartbeat");
    }
    assert(path@ =~= heartbeat_path());
    let mut r = String::from_str(api);
    r.append(path);
    r
}

/// `s` with every non-overlapping occurrence of the non-empty `p`, scanned from
/// the left, replaced by `r`.
pub open spec fn replaced(s: Seq<char>, p: Seq<char>, r: Seq<char>) -> Seq<char>
    decreases s.len(),
{
    if p.len() == 0 || s.len() < p.len() {
        s
    } else if s.subrange(0, p.len() as int) == p {
        r + replaced(s.subrange(p.len() as int, s.len() as int), p, r)
    } else {
        seq![s[0]] + replaced(s.subrange(1, s.len() as int), p, r)
    }
}

/// Relies on `str::replace`: every non-overlapping match of `from`, taken from
/// the left, is replaced by `to`.
#[verifier::external_body]
fn replace_text(s: &str, from: &str, to: &str) -> (r: String)
    requires
        from@.len() > 0,
    ensures
        r@ == replaced(s@, from@, to@),
{
    s.replace(from, to)
}

/// Endpoint next to the heartbeat endpoint: each `heartbeat` in `url` becomes
/// `name`.
pub open spec fn sibling_endpoint(url: Seq<char>, name: Seq<char>) -> Seq<char> {
    replaced(url, seq!['h', 'e', 'a', 'r', 't', 'b', 'e', 'a', 't'], name)
}

/// The sysinfo upload endpoint derived from the heartbeat endpoint.
pub fn sysinfo_url(url: &str) -> (r: String)
    ensures
        r@ == sibling_endpoint(url@, seq!['s', 'y', 's', 'i', 'n', 'f', 'o']),
{
    let from = "heartbeat";
    let to = "sysinfo";
    proof {
        reveal_strlit("heartbeat");
        reveal_strlit("sysinfo");
    }
    assert(from@ =~= seq!['h', 'e', 'a', 'r', 't', 'b', 'e', 'a', 't']);
    assert(to@ =~= seq!['s', 'y', 's', 'i', 'n', 'f', 'o']);
    replace_text(url, from, to)
}

/// The sysinfo version endpoint derived from the heartbeat endpoint.
pub fn sysinfo_ver_url(url: &str) -> (r: String)
    ensures
        r@ == sibling_endpoint(url@, seq!['s', 'y', 's', 'i', 'n', 'f', 'o', '_', 'v', 'e', 'r']),
{
    let from = "heartbeat";
    let to = "sysinfo_ver";
    proof {
        reveal_strlit("heartbeat");
        reveal_strlit("sysinfo_ver");
    }
    assert(from@ =~= seq!['h', 'e', 'a', 'r', 't', 'b', 'e', 'a', 't']);
    assert(to@ =~= seq!['s', 'y', 's', 'i', 'n', 'f', 'o', '_', 'v', 'e', 'r']);
    replace_text(url, from, to)
}

/// Every character of `s` is an ASCII decimal digit.
pub open spec fn all_digits(s: Seq<char>) -> bool {
    forall|i: int| 0 <= i < s.len() ==> '0' <= #[trigger] s[i] <= '9'
}

/// The number written by a string of decimal digits.
pub open spec fn digits_value(s: Seq<char>) -> int
    decreases s.len(),
{
    if s.len() == 0 {
        0
    } else {
        digits_value(s.drop_last()) * 10 + (s.last() as int - '0' as int)
    }
}

/// A signed decimal integer: an optional `+` or `-`, then at least one digit,
/// with a value that fits in `i64`.
pub open spec fn parse_i64_of(s: Seq<char>) -> Option<i64> {
    let signed = s.len() > 0 && (s[0] == '-' || s[0] == '+');
    let body = if signed {
        s.drop_first()
    } else {
        s
    };
    let v = if signed && s[0] == '-' {
        -digits_value(body)
    } else {
        digits_value(body)
    };
    if body.len() == 0 || !all_digits(body) || v < i64::MIN || v > i64::MAX {
        None
    } else {
        Some(v as i64)
    }
}

/// Relies on `str::parse::<i64>` (`i64::from_str`): an optional sign and
/// decimal digits whose value fits, and nothing else, parse.
#[verifier::external_body]
fn parse_i64(s: &str) -> (r: Option<i64>)
    ensures
        r == parse_i64_of(s@),
{
    s.parse::<i64>().ok()
}

/// The settings version stamp held as text: its integer value, or 0 when it
/// does not parse.
pub open spec fn stamp_of(s: Seq<char>) -> i64 {
    match parse_i64_of(s) {
        Some(v) => v,
        None => 0,
    }
}

/// Reads the locally stored settings version stamp.
pub fn stamp_value(s: &str) -> (r: i64)
    ensures
        r == stamp_of(s@),
{
    match parse_i64(s) {
        Some(v) => v,
        None => 0,
    }
}

} // verus!
