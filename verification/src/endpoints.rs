//! The construction surface: a comma-separated list of endpoint address
//! strings.  Whitespace around each entry is trimmed and empty entries are
//! discarded; what remains is the candidate endpoint list that discovery
//! validates.

use vstd::prelude::*;
use vstd::string::StrSliceExecFns;
use crate::discovery::views_of;
use crate::search::{first_where, lemma_first_where_is};

verus! {

/// The whitespace trimmed around an endpoint entry.
pub open spec fn is_space_char(c: char) -> bool {
    c == ' ' || c == '\t' || c == '\r' || c == '\n'
}

pub open spec fn spec_trim_start(s: Seq<char>) -> Seq<char>
    decreases s.len(),
{
    if s.len() > 0 && is_space_char(s[0]) {
        spec_trim_start(s.drop_first())
    } else {
        s
    }
}

pub open spec fn spec_trim_end(s: Seq<char>) -> Seq<char>
    decreases s.len(),
{
    if s.len() > 0 && is_space_char(s.last()) {
        spec_trim_end(s.drop_last())
    } else {
        s
    }
}

/// `s` with leading and trailing whitespace removed.
pub open spec fn spec_trim(s: Seq<char>) -> Seq<char> {
    spec_trim_end(spec_trim_start(s))
}

pub open spec fn comma_pred() -> spec_fn(char) -> bool {
    |c: char| c == ','
}

/// The entry list denoted by a comma-separated string: split on every
/// comma, trim each piece, drop the pieces that are then empty.
pub open spec fn spec_parse_endpoints(s: Seq<char>) -> Seq<Seq<char>>
    decreases s.len(),
{
    let i = first_where(s, comma_pred());
    if 0 <= i && i < s.len() {
        let t = spec_trim(s.take(i));
        let rest = spec_parse_endpoints(s.skip(i + 1));
        if t.len() > 0 {
            seq![t] + rest
        } else {
            rest
        }
    } else {
        let t = spec_trim(s);
        if t.len() > 0 {
            seq![t]
        } else {
            Seq::empty()
        }
    }
}

fn is_space(c: char) -> (b: bool)
    ensures
        b == is_space_char(c),
{
    c == ' ' || c == '\t' || c == '\r' || c == '\n'
}

proof fn lemma_trim_start_at(s: Seq<char>, a: int)
    requires
        0 <= a <= s.len(),
        forall|k: int| 0 <= k < a ==> is_space_char(#[trigger] s[k]),
        a < s.len() ==> !is_space_char(s[a]),
    ensures
        spec_trim_start(s) == s.subrange(a, s.len() as int),
    decreases a,
{
    if a == 0 {
        assert(s.subrange(0, s.len() as int) =~= s);
    } else {
        assert(is_space_char(s[0]));
        let d = s.drop_first();
        assert(forall|k: int| 0 <= k < a - 1 ==> #[trigger] d[k] == s[k + 1]);
        lemma_trim_start_at(d, a - 1);
        assert(d.subrange(a - 1, d.len() as int) =~= s.subrange(a, s.len() as int));
    }
}

proof fn lemma_trim_end_at(s: Seq<char>, b: int)
    requires
        0 <= b <= s.len(),
        forall|k: int| b <= k < s.len() ==> is_space_char(#[trigger] s[k]),
        b > 0 ==> !is_space_char(s[b - 1]),
    ensures
        spec_trim_end(s) == s.subrange(0, b),
    decreases s.len() - b,
{
    if b == s.len() {
        assert(s.subrange(0, b) =~= s);
    } else {
        assert(is_space_char(s.last()));
        let d = s.drop_last();
        assert(forall|k: int| 0 <= k < d.len() ==> #[trigger] d[k] == s[k]);
        lemma_trim_end_at(d, b);
        assert(d.subrange(0, b) =~= s.subrange(0, b));
    }
}

/// Remove the whitespace around `s`, character for character what
/// [`spec_trim`] denotes.
pub fn trim_str(s: &str) -> (r: &str)
    ensures
        r@ == spec_trim(s@),
{
    let n = s.unicode_len();
    let mut a: usize = 0;
    while a < n && is_space(s.get_char(a))
        invariant
            0 <= a <= n,
            n == s@.len(),
            forall|k: int| 0 <= k < a ==> is_space_char(#[trigger] s@[k]),
        decreases n - a,
    {
        a += 1;
    }
    let mut b: usize = n;
    while b > a && is_space(s.get_char(b - 1))
        invariant
            a <= b <= n,
            n == s@.len(),
            forall|k: int| b <= k < n ==> is_space_char(#[trigger] s@[k]),
        decreases b,
    {
        b -= 1;
    }
    let r = s.substring_char(a, b);
    proof {
        lemma_trim_start_at(s@, a as int);
        let t = s@.subrange(a as int, n as int);
        assert(forall|k: int|
            (b - a) <= k < t.len() ==> is_space_char(#[trigger] t[k]) == is_space_char(
                s@[k + a],
            ));
        lemma_trim_end_at(t, b - a);
        assert(t.subrange(0, b - a) =~= s@.subrange(a as int, b as int));
    }
    r
}

/// Split the configured string on commas, trim each entry, and discard the
/// entries that are then empty — exactly [`spec_parse_endpoints`].
pub fn parse_endpoints(s: &str) -> (r: Vec<String>)
    ensures
        views_of(r@) == spec_parse_endpoints(s@),
{
    let n = s.unicode_len();
    let mut result: Vec<String> = Vec::new();
    let mut pos: usize = 0;
    proof {
        assert(s@.skip(0) =~= s@);
        assert(views_of(result@) + spec_parse_endpoints(s@) =~= spec_parse_endpoints(s@));
    }
    loop
        invariant_except_break
            spec_parse_endpoints(s@) == views_of(result@) + spec_parse_endpoints(
                s@.skip(pos as int),
            ),
        invariant
            0 <= pos <= n,
            n == s@.len(),
        ensures
            views_of(result@) == spec_parse_endpoints(s@),
        decreases n - pos,
    {
        let ghost tail = s@.skip(pos as int);
        let mut c: usize = pos;
        while c < n && s.get_char(c) != ','
            invariant
                pos <= c <= n,
                n == s@.len(),
                forall|k: int| pos <= k < c ==> #[trigger] s@[k] != ',',
            decreases n - c,
        {
            c += 1;
        }
        let seg = s.substring_char(pos, c);
        let t = trim_str(seg);
        let ghost before = result@;
        if !t.is_empty() {
            result.push(t.to_owned());
        }
        proof {
            assert(forall|k: int| 0 <= k < tail.len() ==> #[trigger] tail[k] == s@[k + pos]);
            lemma_first_where_is(tail, comma_pred(), c - pos);
            assert(tail.take(c - pos) =~= s@.subrange(pos as int, c as int));
            assert(seg@ == tail.take(c - pos));
            if t@.len() > 0 {
                assert(views_of(result@) =~= views_of(before) + seq![t@]);
            } else {
                assert(views_of(result@) + spec_parse_endpoints(s@.skip(c as int + 1))
                    =~= views_of(before) + spec_parse_endpoints(s@.skip(c as int + 1)));
            }
        }
        if c == n {
            proof {
                assert(spec_parse_endpoints(tail) == if t@.len() > 0 {
                    seq![t@]
                } else {
                    Seq::<Seq<char>>::empty()
                });
                assert(views_of(result@) =~= views_of(before) + spec_parse_endpoints(
                    tail,
                ));
            }
            break ;
        }
        proof {
            assert(tail.skip(c - pos + 1) =~= s@.skip(c as int + 1));
            assert(spec_parse_endpoints(tail) == (if t@.len() > 0 {
                seq![t@]
            } else {
                Seq::<Seq<char>>::empty()
            }) + spec_parse_endpoints(s@.skip(c as int + 1)));
            assert(views_of(result@) + spec_parse_endpoints(s@.skip(c as int + 1))
                =~= views_of(before) + spec_parse_endpoints(tail));
        }
        pos = c + 1;
    }
    result
}

pub open spec fn colon_pred() -> spec_fn(char) -> bool {
    |c: char| c == ':'
}

pub open spec fn is_ascii_digit(c: char) -> bool {
    '0' as int <= c as int && c as int <= '9' as int
}

pub open spec fn digit_val(c: char) -> int
    recommends
        is_ascii_digit(c),
{
    c as int - '0' as int
}

/// The decimal value denoted by a digit string.
pub open spec fn digits_value(s: Seq<char>) -> int
    decreases s.len(),
{
    if s.len() == 0 {
        0
    } else {
        digits_value(s.drop_last()) * 10 + digit_val(s.last())
    }
}

pub open spec fn all_digits(s: Seq<char>) -> bool {
    forall|k: int| 0 <= k < s.len() ==> is_ascii_digit(#[trigger] s[k])
}

/// A usable port field: at least one character, digits only, value within
/// sixteen bits.
pub open spec fn valid_port(s: Seq<char>) -> bool {
    s.len() > 0 && all_digits(s) && digits_value(s) <= 65535
}

/// The host and port denoted by an address string: the host is everything
/// before the first colon, the port field everything between the first and
/// the second colon (or the end).  `None` when there is no colon or the
/// port field is unusable.
pub open spec fn spec_split_host_port(s: Seq<char>) -> Option<(Seq<char>, u16)> {
    let i = first_where(s, colon_pred());
    if i < s.len() {
        let rest = s.skip(i + 1);
        let p = rest.take(first_where(rest, colon_pred()));
        if valid_port(p) {
            Some((s.take(i), digits_value(p) as u16))
        } else {
            None
        }
    } else {
        None
    }
}

proof fn lemma_digits_value_bounds(s: Seq<char>)
    requires
        all_digits(s),
    ensures
        digits_value(s) >= 0,
        s.len() > 0 ==> digits_value(s) >= digits_value(s.drop_last()),
    decreases s.len(),
{
    if s.len() > 0 {
        assert(all_digits(s.drop_last()));
        lemma_digits_value_bounds(s.drop_last());
    }
}

/// A prefix of a digit string never denotes more than the whole string.
proof fn lemma_digits_value_prefix(s: Seq<char>, k: int)
    requires
        all_digits(s),
        0 <= k <= s.len(),
    ensures
        digits_value(s.take(k)) <= digits_value(s),
    decreases s.len() - k,
{
    if k < s.len() {
        lemma_digits_value_prefix(s, k + 1);
        assert(s.take(k + 1).drop_last() =~= s.take(k));
        assert(all_digits(s.take(k + 1)));
        lemma_digits_value_bounds(s.take(k + 1));
    } else {
        assert(s.take(k) =~= s);
    }
}

fn scan_colon(s: &str, from: usize) -> (c: usize)
    requires
        from <= s@.len(),
    ensures
        from <= c <= s@.len(),
        forall|k: int| from <= k < c ==> #[trigger] s@[k] != ':',
        c < s@.len() ==> s@[c as int] == ':',
{
    let n = s.unicode_len();
    let mut c: usize = from;
    while c < n && s.get_char(c) != ':'
        invariant
            from <= c <= n,
            n == s@.len(),
            forall|k: int| from <= k < c ==> #[trigger] s@[k] != ':',
        decreases n - c,
    {
        c += 1;
    }
    c
}

/// Split an address into the host and the numeric port that a channel is
/// opened to — exactly [`spec_split_host_port`].
pub fn split_host_port(addr: &str) -> (r: Option<(String, u16)>)
    ensures
        r matches Some(hp) ==> (spec_split_host_port(addr@) matches Some(shp) && hp.0@ == shp.0
            && hp.1 == shp.1),
        r is None ==> spec_split_host_port(addr@) is None,
{
    let n = addr.unicode_len();
    let i = scan_colon(addr, 0);
    proof {
        lemma_first_where_is(addr@, colon_pred(), i as int);
    }
    if i == n {
        return None;
    }
    let j = scan_colon(addr, i + 1);
    let ghost rest = addr@.skip(i as int + 1);
    proof {
        assert(forall|k: int| 0 <= k < rest.len() ==> #[trigger] rest[k] == addr@[k + i + 1]);
        lemma_first_where_is(rest, colon_pred(), j - (i + 1));
        assert(rest.take(j - (i + 1)) =~= addr@.subrange(i as int + 1, j as int));
    }
    let port_str = addr.substring_char(i + 1, j);
    let ghost p = port_str@;
    if port_str.is_empty() {
        return None;
    }
    let m = port_str.unicode_len();
    let mut val: u32 = 0;
    let mut k: usize = 0;
    while k < m
        invariant
            0 <= k <= m,
            m == p.len(),
            p == port_str@,
            p.len() > 0,
            first_where(addr@, colon_pred()) == i as int,
            (i as int) < addr@.len(),
            p == addr@.skip(i as int + 1).take(
                first_where(addr@.skip(i as int + 1), colon_pred()),
            ),
            all_digits(p.take(k as int)),
            val == digits_value(p.take(k as int)),
            val <= 65535,
        decreases m - k,
    {
        let c = port_str.get_char(k);
        let cu = c as u32;
        if cu < 48 || cu > 57 {
            proof {
                assert(p[k as int] == c && !is_ascii_digit(c));
                assert(!valid_port(p));
            }
            return None;
        }
        let d: u32 = cu - 48;
        proof {
            assert(p.take(k as int + 1).drop_last() =~= p.take(k as int));
            assert(p.take(k as int + 1).last() == c);
            assert(all_digits(p.take(k as int + 1)));
        }
        let next: u32 = val * 10 + d;
        if next > 65535 {
            proof {
                assert(digits_value(p.take(k as int + 1)) == val * 10 + d);
                if all_digits(p) {
                    lemma_digits_value_prefix(p, k as int + 1);
                }
                assert(!valid_port(p));
            }
            return None;
        }
        val = next;
        k += 1;
    }
    proof {
        assert(p.take(m as int) =~= p);
    }
    let host = addr.substring_char(0, i);
    proof {
        assert(addr@.subrange(0, i as int) =~= addr@.take(i as int));
    }
    Some((host.to_owned(), val as u16))
}

} // verus!
