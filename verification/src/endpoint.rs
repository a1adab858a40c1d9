//! Parsing of an endpoint-address token of the form `host` or `host:port`.
//!
//! The token is split at its first `:`; what follows is read as a decimal
//! unsigned 16-bit port. A token without a `:` is a bare host and gets the
//! default port.

use vstd::prelude::*;
use vstd::string::StrSliceExecFns;

verus! {

/// Port used when the endpoint token names no port of its own.
pub const DEFAULT_PORT: u16 = 41270;

/// Whether `c` is a decimal digit.
pub open spec fn is_digit(c: char) -> bool {
    '0' as int <= c as int && c as int <= '9' as int
}

/// The value of a decimal digit.
pub open spec fn digit_value(c: char) -> int {
    c as int - '0' as int
}

/// Whether every character of `s` is a decimal digit.
pub open spec fn all_digits(s: Seq<char>) -> bool {
    forall|i: int| 0 <= i < s.len() ==> is_digit(#[trigger] s[i])
}

/// The number written in decimal by `s`, most significant digit first.
pub open spec fn digits_value(s: Seq<char>) -> int
    decreases s.len(),
{
    if s.len() == 0 {
        0
    } else {
        digits_value(s.drop_last()) * 10 + digit_value(s.last())
    }
}

/// The port a string denotes: its decimal reading, provided the string is
/// non-empty, all digits, and the value fits in sixteen bits; `None` otherwise.
pub open spec fn parse_port(s: Seq<char>) -> Option<u16> {
    if s.len() > 0 && all_digits(s) && digits_value(s) <= 65535 {
        Some(digits_value(s) as u16)
    } else {
        None
    }
}

proof fn lemma_digits_value_nonneg(s: Seq<char>)
    requires
        all_digits(s),
    ensures
        digits_value(s) >= 0,
    decreases s.len(),
{
    if s.len() > 0 {
        lemma_digits_value_nonneg(s.drop_last());
    }
}

proof fn lemma_digits_value_step(s: Seq<char>, i: int)
    requires
        0 <= i < s.len(),
    ensures
        digits_value(s.subrange(0, i + 1)) == digits_value(s.subrange(0, i)) * 10 + digit_value(
            s[i],
        ),
{
    let t = s.subrange(0, i + 1);
    assert(t.drop_last() =~= s.subrange(0, i));
    assert(t.last() == s[i]);
}

proof fn lemma_digits_value_prefix_le(s: Seq<char>, k: int)
    requires
        all_digits(s),
        0 <= k <= s.len(),
    ensures
        digits_value(s.subrange(0, k)) <= digits_value(s),
    decreases s.len() - k,
{
    if k == s.len() {
        assert(s.subrange(0, k) =~= s);
    } else {
        lemma_digits_value_step(s, k);
        lemma_digits_value_nonneg(s.subrange(0, k));
        lemma_digits_value_prefix_le(s, k + 1);
    }
}

/// Whether `s` contains a `:` anywhere.
pub open spec fn has_colon(s: Seq<char>) -> bool {
    s.contains(':')
}

/// Whether `i` is the position of the first `:` in `s`.
pub open spec fn is_first_colon(s: Seq<char>, i: int) -> bool {
    &&& 0 <= i < s.len()
    &&& s[i] == ':'
    &&& forall|j: int| 0 <= j < i ==> s[j] != ':'
}

/// The position of the first `:` in `s`; meaningful only when [`has_colon`]
/// holds, see [`lemma_first_colon`].
pub open spec fn first_colon(s: Seq<char>) -> int {
    choose|i: int| is_first_colon(s, i)
}

/// A string that contains a `:` at all has a well-defined first one, and
/// [`first_colon`] names it.
pub proof fn lemma_first_colon(s: Seq<char>)
    requires
        has_colon(s),
    ensures
        is_first_colon(s, first_colon(s)),
    decreases s.len(),
{
    let k = choose|k: int| 0 <= k < s.len() && s[k] == ':';
    if s[0] == ':' {
        assert(is_first_colon(s, 0));
    } else {
        let sub = s.subrange(1, s.len() as int);
        assert(sub[k - 1] == ':');
        assert(has_colon(sub));
        lemma_first_colon(sub);
        let i = first_colon(sub);
        assert forall|j: int| 0 <= j < i + 1 implies s[j] != ':' by {
            if j >= 1 {
                assert(sub[j - 1] != ':');
            }
        }
        assert(is_first_colon(s, i + 1));
    }
}

/// No two positions are both the first `:` of `s`.
pub proof fn lemma_first_colon_unique(s: Seq<char>, i: int, j: int)
    requires
        is_first_colon(s, i),
        is_first_colon(s, j),
    ensures
        i == j,
{
}

/// Finds the position of the first `:` in `s`, if any.
pub fn find_first_colon(s: &str) -> (r: Option<usize>)
    ensures
        match r {
            Some(i) => is_first_colon(s@, i as int),
            None => !has_colon(s@),
        },
{
    let n = s.unicode_len();
    let mut i: usize = 0;
    while i < n
        invariant
            n == s@.len(),
            i <= n,
            forall|j: int| 0 <= j < i ==> s@[j] != ':',
        decreases n - i,
    {
        if s.get_char(i) == ':' {
            return Some(i);
        }
        i = i + 1;
    }
    None
}

/// Reads `s` as a decimal port number, per [`parse_port`].
pub fn parse_port_str(s: &str) -> (r: Option<u16>)
    ensures
        r == parse_port(s@),
{
    let n = s.unicode_len();
    if n == 0 {
        return None;
    }
    let mut acc: u32 = 0;
    let mut i: usize = 0;
    while i < n
        invariant
            n == s@.len(),
            i <= n,
            all_digits(s@.subrange(0, i as int)),
            acc == digits_value(s@.subrange(0, i as int)),
            acc <= 65535,
        decreases n - i,
    {
        let c = s.get_char(i);
        let v = c as u32;
        if v < 48 || v > 57 {
            proof {
                assert(!is_digit(s@[i as int]));
            }
            return None;
        }
        let next = acc * 10 + (v - 48);
        proof {
            lemma_digits_value_step(s@, i as int);
        }
        if next > 65535 {
            proof {
                if all_digits(s@) {
                    lemma_digits_value_prefix_le(s@, i as int + 1);
                }
            }
            return None;
        }
        acc = next;
        i = i + 1;
    }
    proof {
        assert(s@.subrange(0, n as int) =~= s@);
    }
    Some(acc as u16)
}

/// A port string is readable exactly when it is non-empty, all digits, and
/// its decimal value is at most 65535; and then it reads to that value.
pub proof fn lemma_port_in_range(s: Seq<char>)
    ensures
        parse_port(s) is Some <==> (s.len() > 0 && all_digits(s) && 0 <= digits_value(s)
            <= 65535),
        parse_port(s) matches Some(p) ==> p as int == digits_value(s),
{
    if s.len() > 0 && all_digits(s) {
        lemma_digits_value_nonneg(s);
    }
}

/// The (host, port) pair an endpoint token denotes. With a `:` present, the
/// host is everything before the first `:` (possibly empty) and the port is
/// the decimal reading of everything after it; an unreadable port makes the
/// whole token unreadable. Without a `:`, the whole token is the host and the
/// port is [`DEFAULT_PORT`].
pub open spec fn parse_endpoint(s: Seq<char>) -> Option<(Seq<char>, u16)> {
    if has_colon(s) {
        let i = first_colon(s);
        match parse_port(s.subrange(i + 1, s.len() as int)) {
            Some(p) => Some((s.subrange(0, i), p)),
            None => None,
        }
    } else {
        Some((s, DEFAULT_PORT))
    }
}

/// Round trip: a token assembled as `host:port`, with a colon-free host and
/// a readable port string, parses back to exactly that host and that port —
/// the split happens at the `:` that joined them.
pub proof fn lemma_endpoint_round_trip(host: Seq<char>, port_str: Seq<char>, p: u16)
    requires
        !has_colon(host),
        parse_port(port_str) == Some(p),
    ensures
        parse_endpoint(host + seq![':'] + port_str) == Some((host, p)),
{
    let hl = host.len() as int;
    let s = host + seq![':'] + port_str;
    assert(s[hl] == ':');
    assert forall|j: int| 0 <= j < hl implies s[j] != ':' by {
        assert(s[j] == host[j]);
    }
    assert(is_first_colon(s, hl));
    assert(has_colon(s));
    lemma_first_colon(s);
    lemma_first_colon_unique(s, hl, first_colon(s));
    assert(s.subrange(0, hl) =~= host);
    assert(s.subrange(hl + 1, s.len() as int) =~= port_str);
}

/// The error text reported for an endpoint token whose port part cannot be
/// read.
pub open spec fn invalid_port_message() -> Seq<char> {
    "invalid port"@
}

/// Splits an endpoint token into host text and port, per [`parse_endpoint`].
pub fn parse_endpoint_str(arg: String) -> (r: Result<(String, u16), String>)
    ensures
        match parse_endpoint(arg@) {
            Some((h, p)) => r matches Ok(hp) && hp.0@ == h && hp.1 == p,
            None => r matches Err(e) && e@ == invalid_port_message(),
        },
{
    match find_first_colon(arg.as_str()) {
        Some(i) => {
            proof {
                assert(arg@[i as int] == ':');
                assert(has_colon(arg@));
                lemma_first_colon(arg@);
                lemma_first_colon_unique(arg@, i as int, first_colon(arg@));
            }
            let n = arg.as_str().unicode_len();
            let port_part = arg.as_str().substring_char(i + 1, n);
            match parse_port_str(port_part) {
                Some(p) => {
                    let host = arg.as_str().substring_char(0, i).to_owned();
                    Ok((host, p))
                },
                None => Err("invalid port".to_string()),
            }
        },
        None => Ok((arg, DEFAULT_PORT)),
    }
}

} // verus!
