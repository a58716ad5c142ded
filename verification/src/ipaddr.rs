//! Recognition of IPv4 and IPv6 address literals, following the grammar that
//! the standard library's `IpAddr` parser accepts: dotted quads of decimal
//! octets without leading zeros, and colon-separated groups of one to four
//! hexadecimal digits with at most one `::` and an optional trailing
//! dotted quad.

use vstd::prelude::*;
use vstd::string::*;
use crate::text::{is_ascii_digit, is_ascii_hexdigit, is_ascii_digit_exec, is_ascii_hexdigit_exec};

verus! {

/// Number of consecutive decimal digits of `s` from position `i`.
pub open spec fn dec_run(s: Seq<char>, i: int) -> nat
    decreases s.len() - i,
{
    if 0 <= i < s.len() && is_ascii_digit(s[i]) {
        1 + dec_run(s, i + 1)
    } else {
        0
    }
}

/// Number of consecutive hexadecimal digits of `s` from position `i`.
pub open spec fn hex_run(s: Seq<char>, i: int) -> nat
    decreases s.len() - i,
{
    if 0 <= i < s.len() && is_ascii_hexdigit(s[i]) {
        1 + hex_run(s, i + 1)
    } else {
        0
    }
}

/// Value of the decimal digits `s[i..i+k]`.
pub open spec fn dec_value(s: Seq<char>, i: int, k: nat) -> nat
    decreases k,
{
    if k == 0 {
        0
    } else {
        dec_value(s, i, (k - 1) as nat) * 10 + ((s[i + k - 1] as u32) - 48) as nat
    }
}

/// One octet of a dotted quad starting at `i`: one to three digits, no
/// leading zero, at most 255. Gives the position after it.
pub open spec fn octet_end(s: Seq<char>, i: int) -> Option<int> {
    let k = dec_run(s, i);
    if k == 0 || k > 3 {
        None
    } else if s[i] == '0' && k > 1 {
        None
    } else if dec_value(s, i, k) > 255 {
        None
    } else {
        Some(i + k)
    }
}

/// Octets `idx..4` of a dotted quad, the first of them at `i` (preceded by
/// a `.` unless it is the first octet).
pub open spec fn quad_from(s: Seq<char>, i: int, idx: nat) -> Option<int>
    decreases 4 - idx,
{
    if idx >= 4 {
        Some(i)
    } else {
        let start = if idx > 0 {
            if 0 <= i < s.len() && s[i] == '.' {
                Some(i + 1)
            } else {
                None
            }
        } else {
            Some(i)
        };
        match start {
            None => None,
            Some(st) => match octet_end(s, st) {
                None => None,
                Some(e) => quad_from(s, e, idx + 1),
            },
        }
    }
}

/// A dotted quad read from position `i`; gives the position after it.
pub open spec fn quad_end(s: Seq<char>, i: int) -> Option<int> {
    quad_from(s, i, 0)
}

/// A group of one to four hexadecimal digits at `i`.
pub open spec fn group_end(s: Seq<char>, i: int) -> Option<int> {
    let k = hex_run(s, i);
    if 1 <= k <= 4 {
        Some(i + k)
    } else {
        None
    }
}

/// Reads up to `limit` groups, the `idx`-th at `pos` (preceded by `:` when
/// `idx > 0`). A dotted quad may stand for two groups when two slots are
/// left. Gives the number of groups read, the position after the last, and
/// whether the last was a dotted quad.
pub open spec fn groups_from(s: Seq<char>, pos: int, idx: nat, limit: nat) -> (nat, int, bool)
    decreases limit - idx,
{
    if idx >= limit {
        (limit, pos, false)
    } else {
        let start = if idx > 0 {
            if 0 <= pos < s.len() && s[pos] == ':' {
                Some(pos + 1)
            } else {
                None
            }
        } else {
            Some(pos)
        };
        match start {
            None => (idx, pos, false),
            Some(st) => {
                if idx + 1 < limit && quad_end(s, st) is Some {
                    ((idx + 2) as nat, quad_end(s, st)->0, true)
                } else {
                    match group_end(s, st) {
                        None => (idx, pos, false),
                        Some(e) => groups_from(s, e, idx + 1, limit),
                    }
                }
            },
        }
    }
}

/// `s` is an IPv4 address literal.
pub open spec fn is_ipv4_literal(s: Seq<char>) -> bool {
    quad_end(s, 0) == Some(s.len() as int)
}

/// `s` is an IPv6 address literal.
pub open spec fn is_ipv6_literal(s: Seq<char>) -> bool {
    let (h, hend, hquad) = groups_from(s, 0, 0, 8);
    if h == 8 {
        hend == s.len()
    } else if hquad {
        false
    } else if hend + 2 <= s.len() && s[hend] == ':' && s[hend + 1] == ':' {
        let (t, tend, tquad) = groups_from(s, hend + 2, 0, (8 - (h + 1)) as nat);
        tend == s.len()
    } else {
        false
    }
}

/// 4 for an IPv4 literal, 6 for an IPv6 literal, 0 otherwise. A text that
/// begins with a dotted quad is read as IPv4 only.
pub open spec fn ip_version(s: Seq<char>) -> u8 {
    if quad_end(s, 0) is Some {
        if is_ipv4_literal(s) {
            4
        } else {
            0
        }
    } else if is_ipv6_literal(s) {
        6
    } else {
        0
    }
}

fn dec_run_exec(s: &str, n: usize, i: usize) -> (k: usize)
    requires
        n == s@.len(),
        i <= n,
    ensures
        k == dec_run(s@, i as int),
        i + k <= n,
    decreases n - i,
{
    if i < n && is_ascii_digit_exec(s.get_char(i)) {
        1 + dec_run_exec(s, n, i + 1)
    } else {
        0
    }
}

fn hex_run_exec(s: &str, n: usize, i: usize) -> (k: usize)
    requires
        n == s@.len(),
        i <= n,
    ensures
        k == hex_run(s@, i as int),
        i + k <= n,
    decreases n - i,
{
    if i < n && is_ascii_hexdigit_exec(s.get_char(i)) {
        1 + hex_run_exec(s, n, i + 1)
    } else {
        0
    }
}

proof fn lemma_dec_run_digits(s: Seq<char>, i: int, j: int)
    requires
        0 <= i <= j < i + dec_run(s, i),
    ensures
        is_ascii_digit(s[j]),
    decreases j - i,
{
    if i < j {
        lemma_dec_run_digits(s, i + 1, j);
    }
}

proof fn lemma_dec_value_small(s: Seq<char>, i: int, k: nat)
    requires
        forall|j: int| i <= j < i + k ==> is_ascii_digit(#[trigger] s[j]),
        k <= 2,
    ensures
        k == 0 ==> dec_value(s, i, k) == 0,
        k == 1 ==> dec_value(s, i, k) < 10,
        k == 2 ==> dec_value(s, i, k) < 100,
    decreases k,
{
    if k > 0 {
        lemma_dec_value_small(s, i, (k - 1) as nat);
    }
}

fn octet_end_exec(s: &str, n: usize, i: usize) -> (r: Option<usize>)
    requires
        n == s@.len(),
        i <= n,
    ensures
        match octet_end(s@, i as int) {
            None => r is None,
            Some(e) => r == Some(e as usize) && i <= e <= n,
        },
{
    let k: usize = dec_run_exec(s, n, i);
    if k == 0 || k > 3 {
        return None;
    }
    if s.get_char(i) == '0' && k > 1 {
        return None;
    }
    let mut v: u32 = 0;
    let mut j: usize = 0;
    proof {
        assert forall|t: int| i <= t < i + k implies is_ascii_digit(#[trigger] s@[t]) by {
            lemma_dec_run_digits(s@, i as int, t);
        }
    }
    while j < k
        invariant
            n == s@.len(),
            i + k <= n,
            k <= 3,
            j <= k,
            forall|t: int| i <= t < i + k ==> is_ascii_digit(#[trigger] s@[t]),
            v == dec_value(s@, i as int, j as nat),
            v < 1000,
        decreases k - j,
    {
        let c: char = s.get_char(i + j);
        let d: u32 = (c as u32) - 48;
        proof {
            lemma_dec_value_small(s@, i as int, j as nat);
            assert(is_ascii_digit(s@[i + j]));
        }
        v = v * 10 + d;
        j += 1;
    }
    if v > 255 {
        return None;
    }
    Some(i + k)
}

fn quad_from_exec(s: &str, n: usize, i: usize, idx: usize) -> (r: Option<usize>)
    requires
        n == s@.len(),
        i <= n,
        idx <= 4,
    ensures
        match quad_from(s@, i as int, idx as nat) {
            None => r is None,
            Some(e) => r == Some(e as usize) && i <= e <= n,
        },
    decreases 4 - idx,
{
    if idx >= 4 {
        return Some(i);
    }
    let st: usize;
    if idx > 0 {
        if i < n && s.get_char(i) == '.' {
            st = i + 1;
        } else {
            return None;
        }
    } else {
        st = i;
    }
    match octet_end_exec(s, n, st) {
        None => None,
        Some(e) => quad_from_exec(s, n, e, idx + 1),
    }
}

fn group_end_exec(s: &str, n: usize, i: usize) -> (r: Option<usize>)
    requires
        n == s@.len(),
        i <= n,
    ensures
        match group_end(s@, i as int) {
            None => r is None,
            Some(e) => r == Some(e as usize) && i <= e <= n,
        },
{
    let k: usize = hex_run_exec(s, n, i);
    if 1 <= k && k <= 4 {
        Some(i + k)
    } else {
        None
    }
}

fn groups_from_exec(s: &str, n: usize, pos: usize, idx: usize, limit: usize) -> (r: (
    usize,
    usize,
    bool,
))
    requires
        n == s@.len(),
        pos <= n,
        idx <= limit,
        limit <= 8,
    ensures
        r.0 as nat == groups_from(s@, pos as int, idx as nat, limit as nat).0,
        r.1 as int == groups_from(s@, pos as int, idx as nat, limit as nat).1,
        r.2 == groups_from(s@, pos as int, idx as nat, limit as nat).2,
        pos <= r.1 <= n,
        r.0 <= limit,
    decreases limit - idx,
{
    if idx >= limit {
        return (limit, pos, false);
    }
    let st: usize;
    if idx > 0 {
        if pos < n && s.get_char(pos) == ':' {
            st = pos + 1;
        } else {
            return (idx, pos, false);
        }
    } else {
        st = pos;
    }
    if idx + 1 < limit {
        match quad_from_exec(s, n, st, 0) {
            Some(e) => {
                return (idx + 2, e, true);
            },
            None => {},
        }
    }
    match group_end_exec(s, n, st) {
        None => (idx, pos, false),
        Some(e) => groups_from_exec(s, n, e, idx + 1, limit),
    }
}

/// Which kind of IP address literal `s` is: 4, 6, or 0 for neither.
pub fn ip_version_of(s: &str) -> (v: u8)
    ensures
        v == ip_version(s@),
{
    let n: usize = s.unicode_len();
    match quad_from_exec(s, n, 0, 0) {
        Some(e) => {
            return if e == n {
                4
            } else {
                0
            };
        },
        None => {},
    }
    let (h, hend, hquad) = groups_from_exec(s, n, 0, 0, 8);
    if h == 8 {
        return if hend == n {
            6
        } else {
            0
        };
    }
    if hquad {
        return 0;
    }
    if n - hend >= 2 && s.get_char(hend) == ':' && s.get_char(hend + 1) == ':' {
        let (t, tend, tquad) = groups_from_exec(s, n, hend + 2, 0, 8 - (h + 1));
        if tend == n {
            6
        } else {
            0
        }
    } else {
        0
    }
}

} // verus!
