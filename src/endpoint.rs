//! Destination endpoints: `A.B.C.D:PORT`, or `[IPV6]:PORT` with hexadecimal
//! groups and at most one `::`.

use vstd::prelude::*;

verus! {

/// A socket address.
#[derive(Clone, Copy, Debug, PartialEq, Eq)]
pub enum Endpoint {
    V4 { octets: [u8; 4], port: u16 },
    V6 { segments: [u16; 8], port: u16 },
}

pub open spec fn is_digit(c: char) -> bool {
    '0' <= c && c <= '9'
}

pub open spec fn digit_value(c: char) -> nat {
    ((c as u32) - ('0' as u32)) as nat
}

/// The value of a run of decimal digits, most significant first.
pub open spec fn decimal_value(s: Seq<char>) -> nat
    decreases s.len(),
{
    if s.len() == 0 {
        0
    } else {
        decimal_value(s.drop_last()) * 10 + digit_value(s.last())
    }
}

/// A non-empty run of decimal digits whose value is at most `max`.
pub open spec fn is_decimal(s: Seq<char>, max: nat) -> bool {
    &&& 0 < s.len()
    &&& forall|i: int| 0 <= i < s.len() ==> is_digit(#[trigger] s[i])
    &&& decimal_value(s) <= max
}

pub open spec fn is_hex_digit(c: char) -> bool {
    ('0' <= c && c <= '9') || ('a' <= c && c <= 'f') || ('A' <= c && c <= 'F')
}

pub open spec fn hex_digit_value(c: char) -> nat {
    if '0' <= c && c <= '9' {
        ((c as u32) - ('0' as u32)) as nat
    } else if 'a' <= c && c <= 'f' {
        ((c as u32) - ('a' as u32) + 10) as nat
    } else {
        ((c as u32) - ('A' as u32) + 10) as nat
    }
}

/// The value of a run of hexadecimal digits, most significant first.
pub open spec fn hex_value(s: Seq<char>) -> nat
    decreases s.len(),
{
    if s.len() == 0 {
        0
    } else {
        hex_value(s.drop_last()) * 16 + hex_digit_value(s.last())
    }
}

/// One to four hexadecimal digits.
pub open spec fn is_group(s: Seq<char>) -> bool {
    &&& 0 < s.len() <= 4
    &&& forall|i: int| 0 <= i < s.len() ==> is_hex_digit(#[trigger] s[i])
}

/// The pieces of `s` between occurrences of `sep` (always at least one).
pub open spec fn pieces(s: Seq<char>, sep: char) -> Seq<Seq<char>>
    decreases s.len(),
{
    if s.len() == 0 {
        seq![Seq::empty()]
    } else {
        let p = pieces(s.drop_last(), sep);
        if s.last() == sep {
            p.push(Seq::empty())
        } else {
            p.update(p.len() - 1, p.last().push(s.last()))
        }
    }
}

/// A decimal octet: at most three digits, no leading zero, at most 255.
pub open spec fn is_octet(s: Seq<char>) -> bool {
    &&& is_decimal(s, 255)
    &&& s.len() <= 3
    &&& s.len() > 1 ==> s[0] != '0'
}

pub open spec fn is_port(s: Seq<char>) -> bool {
    is_decimal(s, 65535)
}

/// The groups of `s` separated by single colons (none for the empty text).
pub open spec fn groups_of(s: Seq<char>) -> Option<Seq<u16>> {
    if s.len() == 0 {
        Some(Seq::empty())
    } else {
        let p = pieces(s, ':');
        if forall|i: int| 0 <= i < p.len() ==> is_group(#[trigger] p[i]) {
            Some(p.map_values(|g: Seq<char>| hex_value(g) as u16))
        } else {
            None
        }
    }
}

pub open spec fn double_colon_at(s: Seq<char>, k: int) -> bool {
    0 <= k && k + 1 < s.len() && s[k] == ':' && s[k + 1] == ':'
}

/// The first position from `from` on where `::` starts, or -1.
pub open spec fn find_double_colon(s: Seq<char>, from: int) -> int
    decreases s.len() - from,
{
    if from < 0 || from + 1 >= s.len() {
        -1
    } else if double_colon_at(s, from) {
        from
    } else {
        find_double_colon(s, from + 1)
    }
}

/// The eight segments of an IPv6 address text: eight groups, or fewer with
/// one `::` that stands for at least one zero segment.
pub open spec fn ipv6_of(s: Seq<char>) -> Option<Seq<u16>> {
    let k = find_double_colon(s, 0);
    if k < 0 {
        match groups_of(s) {
            Some(g) => if g.len() == 8 {
                Some(g)
            } else {
                None
            },
            None => None,
        }
    } else {
        match (groups_of(s.take(k)), groups_of(s.skip(k + 2))) {
            (Some(h), Some(t)) => if h.len() + t.len() <= 7 {
                Some(h + Seq::new((8 - h.len() - t.len()) as nat, |i: int| 0u16) + t)
            } else {
                None
            },
            _ => None,
        }
    }
}

/// The endpoint that the text `s` denotes, if it is of the form
/// `A.B.C.D:PORT` or `[IPV6]:PORT`.
pub open spec fn endpoint_of(s: Seq<char>) -> Option<Endpoint> {
    if s.len() > 0 && s[0] == '[' {
        let hp = pieces(s.drop_first(), ']');
        if hp.len() == 2 && hp[1].len() > 0 && hp[1][0] == ':' && is_port(hp[1].drop_first())
            && ipv6_of(hp[0]) is Some {
            let g = ipv6_of(hp[0])->Some_0;
            Some(
                Endpoint::V6 {
                    segments: [g[0], g[1], g[2], g[3], g[4], g[5], g[6], g[7]],
                    port: decimal_value(hp[1].drop_first()) as u16,
                },
            )
        } else {
            None
        }
    } else {
        let hp = pieces(s, ':');
        let q = pieces(hp[0], '.');
        if hp.len() == 2 && is_port(hp[1]) && q.len() == 4 && is_octet(q[0]) && is_octet(q[1])
            && is_octet(q[2]) && is_octet(q[3]) {
            Some(
                Endpoint::V4 {
                    octets: [
                        decimal_value(q[0]) as u8,
                        decimal_value(q[1]) as u8,
                        decimal_value(q[2]) as u8,
                        decimal_value(q[3]) as u8,
                    ],
                    port: decimal_value(hp[1]) as u16,
                },
            )
        } else {
            None
        }
    }
}

proof fn lemma_pieces_nonempty(s: Seq<char>, sep: char)
    ensures
        pieces(s, sep).len() >= 1,
    decreases s.len(),
{
    if s.len() > 0 {
        lemma_pieces_nonempty(s.drop_last(), sep);
    }
}

proof fn lemma_decimal_prefix(s: Seq<char>, j: int)
    requires
        0 <= j <= s.len(),
    ensures
        decimal_value(s.take(j)) <= decimal_value(s),
    decreases s.len(),
{
    if j < s.len() {
        assert(s.drop_last().take(j) =~= s.take(j));
        lemma_decimal_prefix(s.drop_last(), j);
    } else {
        assert(s.take(j) =~= s);
    }
}

/// Splits the characters of `s` at every `sep`.
fn split_chars(s: &Vec<char>, sep: char) -> (r: Vec<Vec<char>>)
    ensures
        r.deep_view() == pieces(s@, sep),
{
    let n = s.len();
    let mut done: Vec<Vec<char>> = Vec::new();
    let mut cur: Vec<char> = Vec::new();
    let mut i: usize = 0;
    proof {
        assert(s@.take(0) =~= Seq::<char>::empty());
    }
    while i < n
        invariant
            n == s@.len(),
            i <= n,
            done.deep_view().push(cur@) == pieces(s@.take(i as int), sep),
        decreases n - i,
    {
        let c = s[i];
        proof {
            let t = s@.take(i as int + 1);
            assert(t.drop_last() =~= s@.take(i as int));
            assert(t.last() == c);
            lemma_pieces_nonempty(s@.take(i as int), sep);
        }
        if c == sep {
            let ghost before = done.deep_view();
            let ghost cv = cur@;
            assert(cur.deep_view() =~= cv);
            done.push(cur);
            cur = Vec::new();
            proof {
                assert(done.deep_view() =~= before.push(cv));
                assert(cur@ =~= Seq::<char>::empty());
            }
        } else {
            let ghost before = done.deep_view().push(cur@);
            cur.push(c);
            proof {
                assert(done.deep_view().push(cur@) =~= before.update(
                    before.len() - 1,
                    before.last().push(c),
                ));
            }
        }
        i = i + 1;
    }
    assert(s@.take(n as int) =~= s@);
    let ghost before = done.deep_view();
    let ghost cv = cur@;
    assert(cur.deep_view() =~= cv);
    done.push(cur);
    assert(done.deep_view() =~= before.push(cv));
    done
}

/// The characters of `s`.
fn to_chars(s: &str) -> (r: Vec<char>)
    ensures
        r@ == s@,
{
    let n = s.unicode_len();
    let mut r: Vec<char> = Vec::new();
    let mut i: usize = 0;
    while i < n
        invariant
            n == s@.len(),
            i <= n,
            r@ == s@.take(i as int),
        decreases n - i,
    {
        r.push(s.get_char(i));
        i = i + 1;
        assert(r@ =~= s@.take(i as int));
    }
    assert(s@.take(n as int) =~= s@);
    r
}

/// The characters of `v` from `from` up to `to`.
fn sub_chars(v: &Vec<char>, from: usize, to: usize) -> (r: Vec<char>)
    requires
        from <= to <= v@.len(),
    ensures
        r@ == v@.subrange(from as int, to as int),
{
    let mut r: Vec<char> = Vec::new();
    let mut i: usize = from;
    while i < to
        invariant
            from <= i <= to <= v@.len(),
            r@ == v@.subrange(from as int, i as int),
        decreases to - i,
    {
        r.push(v[i]);
        i = i + 1;
        assert(r@ =~= v@.subrange(from as int, i as int));
    }
    r
}

/// Reads a non-empty run of decimal digits whose value is at most `max`.
fn parse_decimal(s: &Vec<char>, max: u64) -> (r: Option<u64>)
    requires
        max <= 65535,
    ensures
        r == (if is_decimal(s@, max as nat) {
            Some(decimal_value(s@) as u64)
        } else {
            None::<u64>
        }),
{
    let n = s.len();
    if n == 0 {
        return None;
    }
    let mut acc: u64 = 0;
    let mut i: usize = 0;
    assert(s@.take(0) =~= Seq::<char>::empty());
    while i < n
        invariant
            n == s@.len(),
            max <= 65535,
            i <= n,
            forall|j: int| 0 <= j < i ==> is_digit(#[trigger] s@[j]),
            acc == decimal_value(s@.take(i as int)),
            acc <= max,
        decreases n - i,
    {
        let c = s[i];
        if !('0' <= c && c <= '9') {
            return None;
        }
        proof {
            let t = s@.take(i as int + 1);
            assert(t.drop_last() =~= s@.take(i as int));
            assert(t.last() == c);
        }
        let d = (c as u32 - '0' as u32) as u64;
        acc = acc * 10 + d;
        i = i + 1;
        if acc > max {
            proof {
                lemma_decimal_prefix(s@, i as int);
            }
            return None;
        }
    }
    assert(s@.take(n as int) =~= s@);
    Some(acc)
}

/// Reads a decimal octet.
fn parse_octet(s: &Vec<char>) -> (r: Option<u8>)
    ensures
        r == (if is_octet(s@) {
            Some(decimal_value(s@) as u8)
        } else {
            None::<u8>
        }),
{
    if s.len() > 3 || (s.len() > 1 && s[0] == '0') {
        return None;
    }
    match parse_decimal(s, 255) {
        Some(v) => Some(v as u8),
        None => None,
    }
}

/// Reads a group of one to four hexadecimal digits.
fn parse_group(s: &Vec<char>) -> (r: Option<u16>)
    ensures
        r == (if is_group(s@) {
            Some(hex_value(s@) as u16)
        } else {
            None::<u16>
        }),
{
    let n = s.len();
    if n == 0 || n > 4 {
        return None;
    }
    let mut acc: u32 = 0;
    let mut i: usize = 0;
    assert(s@.take(0) =~= Seq::<char>::empty());
    proof {
        vstd::arithmetic::power::lemma_pow0(16);
    }
    while i < n
        invariant
            n == s@.len(),
            0 < n <= 4,
            i <= n,
            forall|j: int| 0 <= j < i ==> is_hex_digit(#[trigger] s@[j]),
            acc == hex_value(s@.take(i as int)),
            acc < vstd::arithmetic::power::pow(16, i as nat),
        decreases n - i,
    {
        let c = s[i];
        let d: u32 = if '0' <= c && c <= '9' {
            c as u32 - '0' as u32
        } else if 'a' <= c && c <= 'f' {
            c as u32 - 'a' as u32 + 10
        } else if 'A' <= c && c <= 'F' {
            c as u32 - 'A' as u32 + 10
        } else {
            return None;
        };
        proof {
            let t = s@.take(i as int + 1);
            assert(t.drop_last() =~= s@.take(i as int));
            assert(t.last() == c);
            vstd::arithmetic::power::lemma_pow_adds(16, i as nat, 1);
            vstd::arithmetic::power::lemma_pow1(16);
            vstd::arithmetic::power::lemma_pow_increases(16, i as nat, 3);
            reveal_with_fuel(vstd::arithmetic::power::pow, 5);
            let p = vstd::arithmetic::power::pow(16, i as nat);
            assert(acc * 16 + d < p * 16) by (nonlinear_arith)
                requires
                    acc < p,
                    d < 16,
            ;
        }
        acc = acc * 16 + d;
        i = i + 1;
    }
    assert(s@.take(n as int) =~= s@);
    proof {
        vstd::arithmetic::power::lemma_pow_increases(16, n as nat, 4);
        reveal_with_fuel(vstd::arithmetic::power::pow, 5);
    }
    Some(acc as u16)
}

/// Reads the groups of `s` separated by single colons.
fn parse_groups(s: &Vec<char>) -> (r: Option<Vec<u16>>)
    ensures
        match r {
            Some(v) => groups_of(s@) == Some(v@),
            None => groups_of(s@) is None,
        },
{
    if s.len() == 0 {
        let v: Vec<u16> = Vec::new();
        assert(v@ =~= Seq::<u16>::empty());
        return Some(v);
    }
    let p = split_chars(s, ':');
    let ghost pv = p.deep_view();
    let mut v: Vec<u16> = Vec::new();
    let mut i: usize = 0;
    while i < p.len()
        invariant
            pv == p.deep_view(),
            pv == pieces(s@, ':'),
            s@.len() > 0,
            pv.len() == p.len(),
            i <= p.len(),
            forall|j: int| 0 <= j < i ==> is_group(#[trigger] pv[j]),
            v@ == pv.take(i as int).map_values(|g: Seq<char>| hex_value(g) as u16),
        decreases p.len() - i,
    {
        assert(pv[i as int] =~= p[i as int]@);
        match parse_group(&p[i]) {
            Some(g) => {
                v.push(g);
                i = i + 1;
                assert(v@ =~= pv.take(i as int).map_values(|g: Seq<char>| hex_value(g) as u16));
            },
            None => {
                assert(!is_group(pv[i as int]));
                assert(!(forall|j: int| 0 <= j < pv.len() ==> is_group(#[trigger] pv[j])));
                return None;
            },
        }
    }
    assert(pv.take(i as int) =~= pv);
    Some(v)
}

/// The first position where `::` starts in `s`, if any.
fn find_double(s: &Vec<char>) -> (r: Option<usize>)
    ensures
        match r {
            Some(k) => find_double_colon(s@, 0) == k as int && k + 1 < s@.len(),
            None => find_double_colon(s@, 0) < 0,
        },
{
    let n = s.len();
    let mut k: usize = 0;
    while n > 0 && k < n - 1
        invariant
            n == s@.len(),
            k <= n,
            find_double_colon(s@, 0) == find_double_colon(s@, k as int),
        decreases n - k,
    {
        if s[k] == ':' && s[k + 1] == ':' {
            return Some(k);
        }
        k = k + 1;
    }
    None
}

/// Reads an IPv6 address text into its eight segments.
fn parse_ipv6(s: &Vec<char>) -> (r: Option<Vec<u16>>)
    ensures
        match r {
            Some(v) => ipv6_of(s@) == Some(v@),
            None => ipv6_of(s@) is None,
        },
{
    match find_double(s) {
        None => match parse_groups(s) {
            Some(g) => if g.len() == 8 {
                Some(g)
            } else {
                None
            },
            None => None,
        },
        Some(k) => {
            let n = s.len();
            assert(k + 1 < n);
            let head = sub_chars(s, 0, k);
            let tail = sub_chars(s, k + 2, n);
            assert(head@ =~= s@.take(k as int));
            assert(tail@ =~= s@.skip(k as int + 2));
            match (parse_groups(&head), parse_groups(&tail)) {
                (Some(h), Some(t)) => {
                    if h.len() > 7 || t.len() > 7 - h.len() {
                        return None;
                    }
                    let zeros = 8 - h.len() - t.len();
                    let mut v = h;
                    let ghost hv = v@;
                    let mut j: usize = 0;
                    while j < zeros
                        invariant
                            j <= zeros,
                            v@ == hv + Seq::new(j as nat, |i: int| 0u16),
                        decreases zeros - j,
                    {
                        v.push(0);
                        j = j + 1;
                        assert(v@ =~= hv + Seq::new(j as nat, |i: int| 0u16));
                    }
                    let ghost mid = v@;
                    let mut j: usize = 0;
                    while j < t.len()
                        invariant
                            j <= t@.len(),
                            v@ == mid + t@.take(j as int),
                        decreases t.len() - j,
                    {
                        v.push(t[j]);
                        j = j + 1;
                        assert(v@ =~= mid + t@.take(j as int));
                    }
                    assert(t@.take(t@.len() as int) =~= t@);
                    Some(v)
                },
                _ => None,
            }
        },
    }
}

/// Reads `text` as an endpoint `A.B.C.D:PORT` or `[IPV6]:PORT`.
pub fn parse_endpoint(text: &str) -> (r: Option<Endpoint>)
    ensures
        r == endpoint_of(text@),
{
    let chars = to_chars(text);
    if chars.len() > 0 && chars[0] == '[' {
        let rest = sub_chars(&chars, 1, chars.len());
        assert(rest@ =~= text@.drop_first());
        let hp = split_chars(&rest, ']');
        proof {
            lemma_pieces_nonempty(rest@, ']');
        }
        if hp.len() != 2 {
            return None;
        }
        assert(hp.deep_view()[1] =~= hp[1]@);
        assert(hp.deep_view()[0] =~= hp[0]@);
        if hp[1].len() == 0 || hp[1][0] != ':' {
            return None;
        }
        let port_text = sub_chars(&hp[1], 1, hp[1].len());
        assert(port_text@ =~= hp[1]@.drop_first());
        let port = parse_decimal(&port_text, 65535);
        let addr = parse_ipv6(&hp[0]);
        match (port, addr) {
            (Some(port), Some(g)) => {
                assert(g@.len() == 8);
                Some(
                    Endpoint::V6 {
                        segments: [g[0], g[1], g[2], g[3], g[4], g[5], g[6], g[7]],
                        port: port as u16,
                    },
                )
            },
            _ => None,
        }
    } else {
        let hp = split_chars(&chars, ':');
        proof {
            lemma_pieces_nonempty(text@, ':');
        }
        if hp.len() != 2 {
            return None;
        }
        let port = parse_decimal(&hp[1], 65535);
        let q = split_chars(&hp[0], '.');
        proof {
            assert(hp.deep_view()[1] =~= hp[1]@);
            assert(hp.deep_view()[0] =~= hp[0]@);
        }
        if q.len() != 4 {
            return None;
        }
        proof {
            assert forall|k: int| 0 <= k < 4 implies q.deep_view()[k] =~= (#[trigger] q[k])@ by {}
        }
        let a = parse_octet(&q[0]);
        let b = parse_octet(&q[1]);
        let c = parse_octet(&q[2]);
        let d = parse_octet(&q[3]);
        match (port, a, b, c, d) {
            (Some(port), Some(a), Some(b), Some(c), Some(d)) => Some(
                Endpoint::V4 { octets: [a, b, c, d], port: port as u16 },
            ),
            _ => None,
        }
    }
}

} // verus!
