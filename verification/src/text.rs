//! Verified character-level text utilities: trimming, prefix tests,
//! substring search, case-insensitive comparison, integer parsing and
//! decimal formatting.  Specifications are stated over `Seq<char>`.

use vstd::prelude::*;
use vstd::string::*;
use vstd::std_specs::iter::IteratorSpec;

verus! {

/// The whitespace characters that trimming removes.
pub open spec fn is_space(c: char) -> bool {
    c == ' ' || c == '\t' || c == '\n' || c == '\r'
}

pub open spec fn trim_start_spec(s: Seq<char>) -> Seq<char>
    decreases s.len(),
{
    if s.len() > 0 && is_space(s[0]) {
        trim_start_spec(s.drop_first())
    } else {
        s
    }
}

pub open spec fn trim_end_spec(s: Seq<char>) -> Seq<char>
    decreases s.len(),
{
    if s.len() > 0 && is_space(s.last()) {
        trim_end_spec(s.drop_last())
    } else {
        s
    }
}

/// What trimming leading and trailing whitespace leaves of `s`.
pub open spec fn trim_spec(s: Seq<char>) -> Seq<char> {
    trim_end_spec(trim_start_spec(s))
}

pub open spec fn starts_with_spec(s: Seq<char>, p: Seq<char>) -> bool {
    s.len() >= p.len() && s.subrange(0, p.len() as int) == p
}

/// `n` occurs in `h` as a contiguous subsequence.
pub open spec fn contains_spec(h: Seq<char>, n: Seq<char>) -> bool {
    exists|i: int| 0 <= i && i + n.len() <= h.len() && #[trigger] h.subrange(i, i + n.len()) == n
}

/// ASCII lowercasing of a single character; other characters are kept.
pub open spec fn lower_char(c: char) -> char {
    if 'A' <= c && c <= 'Z' {
        ((c as u8) + 32) as char
    } else {
        c
    }
}

pub open spec fn lower_spec(s: Seq<char>) -> Seq<char> {
    s.map_values(|c: char| lower_char(c))
}

pub open spec fn is_digit(c: char) -> bool {
    '0' <= c && c <= '9'
}

pub open spec fn digit_val(c: char) -> int {
    c as int - '0' as int
}

/// Every character of `s` is a decimal digit and there is at least one.
pub open spec fn all_digits(s: Seq<char>) -> bool {
    s.len() > 0 && forall|i: int| 0 <= i < s.len() ==> is_digit(#[trigger] s[i])
}

/// Value of a digit string, most significant digit first.
pub open spec fn digits_val(s: Seq<char>) -> int
    decreases s.len(),
{
    if s.len() == 0 {
        0
    } else {
        digits_val(s.drop_last()) * 10 + digit_val(s.last())
    }
}

/// What `str::parse::<i32>` accepts: an optional sign, then only digits,
/// with the value in `i32` range; anything else is rejected.
pub open spec fn parse_i32_spec(s: Seq<char>) -> Option<i32> {
    let ds = if s.len() > 0 && (s[0] == '-' || s[0] == '+') {
        s.drop_first()
    } else {
        s
    };
    let neg = s.len() > 0 && s[0] == '-';
    if all_digits(ds) {
        let v = if neg {
            -digits_val(ds)
        } else {
            digits_val(ds)
        };
        if -2147483648 <= v <= 2147483647 {
            Some(v as i32)
        } else {
            None
        }
    } else {
        None
    }
}

/// Decimal rendering of a natural number, most significant digit first.
pub open spec fn dec_spec(n: int) -> Seq<char>
    decreases n,
{
    if n <= 0 {
        seq!['0']
    } else {
        dec_rec(n)
    }
}

pub open spec fn dec_rec(n: int) -> Seq<char>
    decreases n,
{
    if n <= 0 {
        Seq::empty()
    } else {
        dec_rec(n / 10).push((('0' as u8) + (n % 10) as u8) as char)
    }
}

/// The characters of `s`, one element per `char`.
pub fn chars_vec(s: &str) -> (r: Vec<char>)
    ensures
        r@ == s@,
{
    broadcast use vstd::string::next_postcondition, vstd::string::axiom_spec_iter;

    let mut it = s.chars();
    let mut out: Vec<char> = Vec::new();
    loop
        invariant_except_break
            it.obeys_prophetic_iter_laws(),
            out@ + it.remaining() == s@,
            out@.len() <= s@.len(),
        ensures
            out@ == s@,
        decreases s@.len() - out@.len(),
    {
        let ghost prev_rem = it.remaining();
        let ghost prev_out = out@;
        match it.next() {
            Some(c) => {
                proof {
                    assert(prev_rem.len() > 0);
                    assert(prev_out.push(c) + it.remaining() =~= prev_out + prev_rem);
                    assert((prev_out + prev_rem).len() == s@.len());
                }
                out.push(c);
            },
            None => {
                proof {
                    assert(prev_rem.len() == 0);
                    assert(prev_out + prev_rem =~= prev_out);
                }
                break ;
            },
        }
    }
    out
}

proof fn lemma_trim_start_shift(v: Seq<char>, lo: int, hi: int)
    requires
        0 <= lo < hi <= v.len(),
        is_space(v[lo]),
    ensures
        trim_start_spec(v.subrange(lo, hi)) == trim_start_spec(v.subrange(lo + 1, hi)),
{
    assert(v.subrange(lo, hi).drop_first() =~= v.subrange(lo + 1, hi));
}

proof fn lemma_trim_end_shift(v: Seq<char>, lo: int, hi: int)
    requires
        0 <= lo < hi <= v.len(),
        is_space(v[hi - 1]),
    ensures
        trim_end_spec(v.subrange(lo, hi)) == trim_end_spec(v.subrange(lo, hi - 1)),
{
    assert(v.subrange(lo, hi).drop_last() =~= v.subrange(lo, hi - 1));
}

/// Bounds of the whitespace-trimmed part of `v[from..to]`.
pub fn trim_bounds(v: &Vec<char>, from: usize, to: usize) -> (r: (usize, usize))
    requires
        from <= to <= v@.len(),
    ensures
        from <= r.0 <= r.1 <= to,
        v@.subrange(r.0 as int, r.1 as int) == trim_spec(v@.subrange(from as int, to as int)),
{
    let mut lo: usize = from;
    while lo < to && is_space_exec(v[lo])
        invariant
            from <= lo <= to <= v@.len(),
            trim_start_spec(v@.subrange(from as int, to as int)) == trim_start_spec(
                v@.subrange(lo as int, to as int),
            ),
        decreases to - lo,
    {
        proof {
            lemma_trim_start_shift(v@, lo as int, to as int);
        }
        lo = lo + 1;
    }
    assert(trim_start_spec(v@.subrange(lo as int, to as int)) == v@.subrange(
        lo as int,
        to as int,
    ));
    let mut hi: usize = to;
    while lo < hi && is_space_exec(v[hi - 1])
        invariant
            from <= lo <= hi <= to <= v@.len(),
            trim_end_spec(v@.subrange(lo as int, to as int)) == trim_end_spec(
                v@.subrange(lo as int, hi as int),
            ),
        decreases hi,
    {
        proof {
            lemma_trim_end_shift(v@, lo as int, hi as int);
        }
        hi = hi - 1;
    }
    assert(trim_end_spec(v@.subrange(lo as int, hi as int)) == v@.subrange(
        lo as int,
        hi as int,
    ));
    (lo, hi)
}

pub fn is_space_exec(c: char) -> (r: bool)
    ensures
        r == is_space(c),
{
    c == ' ' || c == '\t' || c == '\n' || c == '\r'
}

/// Does `v[from..to]` start with the characters of `p`?
pub fn starts_with_at(v: &Vec<char>, from: usize, to: usize, p: &Vec<char>) -> (r: bool)
    requires
        from <= to <= v@.len(),
    ensures
        r == starts_with_spec(v@.subrange(from as int, to as int), p@),
{
    let n = p.len();
    if to - from < n {
        return false;
    }
    let mut j: usize = 0;
    while j < n
        invariant
            from + n <= to <= v@.len(),
            n == p@.len(),
            0 <= j <= n,
            forall|k: int| 0 <= k < j ==> v@[from + k] == p@[k],
        decreases n - j,
    {
        if v[from + j] != p[j] {
            assert(v@.subrange(from as int, to as int).subrange(0, n as int)[j as int]
                != p@[j as int]);
            return false;
        }
        j = j + 1;
    }
    assert(v@.subrange(from as int, to as int).subrange(0, n as int) =~= p@);
    true
}

/// Is `needle` a contiguous part of `hay[from..to]`?
pub fn contains_at(hay: &Vec<char>, from: usize, to: usize, needle: &Vec<char>) -> (r: bool)
    requires
        from <= to <= hay@.len(),
    ensures
        r == contains_spec(hay@.subrange(from as int, to as int), needle@),
{
    let n = needle.len();
    if to - from < n {
        assert(!contains_spec(hay@.subrange(from as int, to as int), needle@));
        return false;
    }
    let mut i: usize = from;
    while i <= to - n
        invariant
            from <= i,
            i <= to - n + 1,
            from + n <= to <= hay@.len(),
            n == needle@.len(),
            forall|k: int|
                from <= k < i ==> #[trigger] hay@.subrange(from as int, to as int).subrange(
                    k - from,
                    k - from + n,
                ) != needle@,
        decreases to - i,
    {
        let mut j: usize = 0;
        let mut ok: bool = true;
        while j < n
            invariant
                from <= i,
                i + n <= to <= hay@.len(),
                n == needle@.len(),
                0 <= j <= n,
                ok <==> (forall|k: int| 0 <= k < j ==> hay@[i + k] == needle@[k]),
            decreases n - j,
        {
            if hay[i + j] != needle[j] {
                ok = false;
                j = n;
            } else {
                j = j + 1;
            }
        }
        if ok {
            assert(hay@.subrange(from as int, to as int).subrange(
                i - from,
                i - from + n,
            ) =~= needle@);
            return true;
        }
        assert(hay@.subrange(from as int, to as int).subrange(i - from, i - from + n)
            != needle@) by {
            assert(exists|k: int| 0 <= k < n && hay@[i + k] != needle@[k]);
            let k = choose|k: int| 0 <= k < n && hay@[i + k] != needle@[k];
            assert(hay@.subrange(from as int, to as int).subrange(i - from, i - from + n)[k]
                == hay@[i + k]);
        }
        i = i + 1;
    }
    assert(!contains_spec(hay@.subrange(from as int, to as int), needle@)) by {
        let s = hay@.subrange(from as int, to as int);
        assert forall|d: int| 0 <= d && d + needle@.len() <= s.len() implies #[trigger] s.subrange(
            d,
            d + needle@.len(),
        ) != needle@ by {
            assert(s.subrange((d + from) - from, (d + from) - from + n) != needle@);
        }
    }
    false
}

/// Case-insensitive (ASCII) equality of `v[from..to]` and `p`.
pub fn eq_lower_at(v: &Vec<char>, from: usize, to: usize, p: &Vec<char>) -> (r: bool)
    requires
        from <= to <= v@.len(),
    ensures
        r == (lower_spec(v@.subrange(from as int, to as int)) == lower_spec(p@)),
{
    let n = p.len();
    if to - from != n {
        assert(lower_spec(v@.subrange(from as int, to as int)).len() != lower_spec(p@).len());
        return false;
    }
    let mut j: usize = 0;
    while j < n
        invariant
            from + n == to,
            to <= v@.len(),
            n == p@.len(),
            0 <= j <= n,
            forall|k: int| 0 <= k < j ==> lower_char(v@[from + k]) == lower_char(p@[k]),
        decreases n - j,
    {
        if lower_char_exec(v[from + j]) != lower_char_exec(p[j]) {
            assert(lower_spec(v@.subrange(from as int, to as int))[j as int]
                != lower_spec(p@)[j as int]);
            return false;
        }
        j = j + 1;
    }
    assert(lower_spec(v@.subrange(from as int, to as int)) =~= lower_spec(p@));
    true
}

pub fn lower_char_exec(c: char) -> (r: char)
    ensures
        r == lower_char(c),
{
    if 'A' <= c && c <= 'Z' {
        (((c as u8) + 32) as char)
    } else {
        c
    }
}

/// Lowercased (ASCII) copy of the characters of `v`.
pub fn lower_vec(v: &Vec<char>) -> (r: Vec<char>)
    ensures
        r@ == lower_spec(v@),
{
    let mut out: Vec<char> = Vec::new();
    let mut i: usize = 0;
    while i < v.len()
        invariant
            0 <= i <= v@.len(),
            out@ == lower_spec(v@.subrange(0, i as int)),
        decreases v@.len() - i,
    {
        out.push(lower_char_exec(v[i]));
        proof {
            assert(v@.subrange(0, i + 1).map_values(|c: char| lower_char(c)) =~= v@.subrange(
                0,
                i as int,
            ).map_values(|c: char| lower_char(c)).push(lower_char(v@[i as int])));
        }
        i = i + 1;
    }
    proof {
        assert(v@.subrange(0, v@.len() as int) =~= v@);
    }
    out
}

/// Parse `v[from..to]` as an `i32`, as `str::parse` would.
pub fn parse_i32_at(v: &Vec<char>, from: usize, to: usize) -> (r: Option<i32>)
    requires
        from <= to <= v@.len(),
    ensures
        r == parse_i32_spec(v@.subrange(from as int, to as int)),
{
    let ghost s = v@.subrange(from as int, to as int);
    let mut p: usize = from;
    let mut neg: bool = false;
    if p < to && (v[p] == '-' || v[p] == '+') {
        neg = v[p] == '-';
        p = p + 1;
    }
    let ghost ds = v@.subrange(p as int, to as int);
    proof {
        if s.len() > 0 && (s[0] == '-' || s[0] == '+') {
            assert(s.drop_first() =~= ds);
        } else {
            assert(s =~= ds);
        }
    }
    if p == to {
        assert(!all_digits(ds));
        return None;
    }
    let mut acc: i64 = 0;
    let mut over: bool = false;
    let mut i: usize = p;
    while i < to
        invariant
            from <= p <= i <= to <= v@.len(),
            s == v@.subrange(from as int, to as int),
            ds == v@.subrange(p as int, to as int),
            ds == (if s.len() > 0 && (s[0] == '-' || s[0] == '+') {
                s.drop_first()
            } else {
                s
            }),
            neg == (s.len() > 0 && s[0] == '-'),
            forall|k: int| 0 <= k < i - p ==> is_digit(#[trigger] ds[k]),
            !over ==> 0 <= acc <= 2147483648 && acc == digits_val(
                v@.subrange(p as int, i as int),
            ),
            over ==> digits_val(v@.subrange(p as int, i as int)) > 2147483648,
        decreases to - i,
    {
        let c = v[i];
        if !('0' <= c && c <= '9') {
            assert(!all_digits(ds)) by {
                assert(ds[i - p] == c);
            }
            return None;
        }
        let d: i64 = (c as u32 as i64) - 48;
        proof {
            let sub1 = v@.subrange(p as int, i + 1);
            assert(sub1.drop_last() =~= v@.subrange(p as int, i as int));
            assert(sub1.last() == c);
            assert(digit_val(c) == d as int);
            assert(0 <= d < 10);
        }
        if over {
            assert(digits_val(v@.subrange(p as int, i + 1)) > 2147483648);
        } else {
            let next = acc * 10 + d;
            if next > 2147483648 {
                over = true;
            } else {
                acc = next;
            }
        }
        i = i + 1;
    }
    assert(all_digits(ds)) by {
        assert(ds.len() > 0);
    }
    proof {
        if neg {
            assert(s.len() > 0 && s[0] == '-');
        } else {
            assert(!(s.len() > 0 && s[0] == '-'));
        }
        if over {
            assert(digits_val(ds) > 2147483648);
        } else {
            assert(acc == digits_val(ds));
        }
    }
    if over {
        return None;
    }
    if neg {
        if acc > 2147483648 {
            return None;
        }
        Some((-acc) as i32)
    } else {
        if acc > 2147483647 {
            return None;
        }
        Some(acc as i32)
    }
}

/// Decimal rendering of `n`, for report strings.
pub fn dec_string(n: u64) -> (r: String)
    ensures
        r@ == dec_spec(n as int),
{
    if n == 0 {
        let z = String::from_str("0");
        proof {
            reveal_strlit("0");
            assert(z@ =~= dec_spec(0));
        }
        z
    } else {
        dec_pos(n)
    }
}

fn dec_pos(n: u64) -> (r: String)
    requires
        n > 0,
    ensures
        r@ == dec_rec(n as int),
    decreases n,
{
    let q = n / 10;
    let d = n % 10;
    if q == 0 {
        let mut out = String::new();
        append_digit(&mut out, d);
        proof {
            assert(out@ =~= dec_rec(0).push((('0' as u8) + (d % 10) as u8) as char));
        }
        out
    } else {
        let mut out = dec_pos(q);
        append_digit(&mut out, d);
        out
    }
}

fn append_digit(out: &mut String, d: u64)
    requires
        d < 10,
    ensures
        final(out)@ == old(out)@.push((('0' as u8) + (d % 10) as u8) as char),
{
    let s: &str = match d {
        0 => "0",
        1 => "1",
        2 => "2",
        3 => "3",
        4 => "4",
        5 => "5",
        6 => "6",
        7 => "7",
        8 => "8",
        _ => "9",
    };
    proof {
        reveal_strlit("0");
        reveal_strlit("1");
        reveal_strlit("2");
        reveal_strlit("3");
        reveal_strlit("4");
        reveal_strlit("5");
        reveal_strlit("6");
        reveal_strlit("7");
        reveal_strlit("8");
        reveal_strlit("9");
    }
    out.append(s);
    proof {
        assert(old(out)@ + s@ =~= old(out)@.push((('0' as u8) + (d % 10) as u8) as char));
    }
}

/// Exact character equality of two strings.
pub fn str_eq(a: &str, b: &str) -> (r: bool)
    ensures
        r == (a@ == b@),
{
    let va = chars_vec(a);
    let vb = chars_vec(b);
    if va.len() != vb.len() {
        return false;
    }
    let r = starts_with_at(&va, 0, va.len(), &vb);
    proof {
        assert(va@.subrange(0, va@.len() as int) =~= va@);
        if starts_with_spec(va@, vb@) {
            assert(va@ =~= vb@);
        }
    }
    r
}

/// The first `n` characters of `s` (all of `s` when it is shorter).
pub fn truncate_chars(s: &str, n: usize) -> (r: String)
    ensures
        r@ == s@.take(if s@.len() < n {
            s@.len() as int
        } else {
            n as int
        }),
{
    let v = chars_vec(s);
    let k = if v.len() < n {
        v.len()
    } else {
        n
    };
    let out = s.substring_char(0, k);
    proof {
        assert(s@.subrange(0, k as int) =~= s@.take(k as int));
    }
    out.to_owned()
}

/// Exact equality of `v[from..to]` with the characters of `p`.
pub fn seg_eq(v: &Vec<char>, from: usize, to: usize, p: &Vec<char>) -> (r: bool)
    ensures
        from <= to <= v@.len() ==> r == (v@.subrange(from as int, to as int) == p@),
{
    if !(from <= to && to <= v.len()) {
        return false;
    }
    if to - from != p.len() {
        return false;
    }
    let r = starts_with_at(v, from, to, p);
    proof {
        let s = v@.subrange(from as int, to as int);
        assert(s.subrange(0, p@.len() as int) =~= s);
        if starts_with_spec(s, p@) {
            assert(s =~= p@);
        }
    }
    r
}

/// The whitespace-trimmed copy of `s`.
pub fn trim_string(s: &str) -> (r: String)
    ensures
        r@ == trim_spec(s@),
{
    let v = chars_vec(s);
    let (lo, hi) = trim_bounds(&v, 0, v.len());
    proof {
        assert(v@.subrange(0, v@.len() as int) =~= v@);
    }
    s.substring_char(lo, hi).to_owned()
}

/// Greedy left-to-right removal of every occurrence of `pat`, as
/// `str::replace(pat, "")` removes them.
pub open spec fn remove_all(s: Seq<char>, pat: Seq<char>) -> Seq<char>
    decreases s.len(),
    when pat.len() > 0
{
    if s.len() < pat.len() {
        s
    } else if s.subrange(0, pat.len() as int) == pat {
        remove_all(s.skip(pat.len() as int), pat)
    } else {
        seq![s[0]].add(remove_all(s.drop_first(), pat))
    }
}

/// Remove every occurrence of `pat` from `v`, left to right.
pub fn remove_all_chars(v: &Vec<char>, pat: &Vec<char>) -> (r: Vec<char>)
    requires
        pat@.len() > 0,
    ensures
        r@ == remove_all(v@, pat@),
{
    let mut out: Vec<char> = Vec::new();
    let mut i: usize = 0;
    let n = v.len();
    let plen = pat.len();
    proof {
        assert(v@.skip(0) =~= v@);
    }
    while i < n
        invariant
            0 <= i <= n,
            n == v@.len(),
            plen == pat@.len(),
            plen > 0,
            out@ + remove_all(v@.skip(i as int), pat@) == remove_all(v@, pat@),
        decreases n - i,
    {
        let ghost rest = v@.skip(i as int);
        if plen <= n - i && starts_with_at(v, i, n, pat) {
            proof {
                assert(v@.subrange(i as int, n as int).subrange(0, plen as int) =~= v@.subrange(
                    i as int,
                    i + plen,
                ));
                assert(rest.subrange(0, plen as int) =~= v@.subrange(i as int, i + plen));
                assert(rest.subrange(0, plen as int) == pat@);
                assert(rest.skip(plen as int) =~= v@.skip(i + plen));
            }
            i = i + plen;
        } else {
            proof {
                if plen <= n - i {
                    assert(v@.subrange(i as int, n as int).subrange(0, plen as int)
                        =~= v@.subrange(i as int, i + plen));
                    assert(rest.subrange(0, plen as int) =~= v@.subrange(i as int, i + plen));
                    assert(rest.subrange(0, plen as int) != pat@);
                } else {
                    assert(rest.len() < plen);
                }
                assert(rest.len() >= plen ==> remove_all(rest, pat@) == seq![rest[0]].add(
                    remove_all(rest.drop_first(), pat@),
                ));
                assert(rest[0] == v@[i as int]);
                assert(rest.drop_first() =~= v@.skip(i + 1));
                assert(out@.push(v@[i as int]) + remove_all(v@.skip(i + 1), pat@) =~= out@
                    + seq![v@[i as int]].add(remove_all(v@.skip(i + 1), pat@)));
            }
            out.push(v[i]);
            i = i + 1;
        }
    }
    proof {
        assert(v@.skip(n as int).len() == 0);
        assert(remove_all(v@.skip(n as int), pat@) =~= v@.skip(n as int));
        assert(out@ + v@.skip(n as int) =~= out@);
    }
    out
}

} // verus!
