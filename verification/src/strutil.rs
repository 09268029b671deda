//! Verified helpers for character sequences and strings: searching,
//! trimming, numeric conversion and substring tests.

use vstd::prelude::*;
use vstd::string::*;

verus! {

/// The Unicode white-space characters, as `str::trim` removes them.
pub open spec fn is_ws_char(c: char) -> bool {
    let u = c as u32;
    (9 <= u && u <= 13) || u == 32 || u == 0x85 || u == 0xa0 || u == 0x1680 || (0x2000 <= u && u
        <= 0x200a) || u == 0x2028 || u == 0x2029 || u == 0x202f || u == 0x205f || u == 0x3000
}

pub fn is_ws(c: char) -> (r: bool)
    ensures
        r == is_ws_char(c),
{
    let u: u32 = c as u32;
    (9 <= u && u <= 13) || u == 32 || u == 0x85 || u == 0xa0 || u == 0x1680 || (0x2000 <= u && u
        <= 0x200a) || u == 0x2028 || u == 0x2029 || u == 0x202f || u == 0x205f || u == 0x3000
}

/// Index of the first occurrence of `c` in `s`, or -1 when `c` does not occur.
pub open spec fn first_idx(s: Seq<char>, c: char) -> int
    decreases s.len(),
{
    if s.len() == 0 {
        -1
    } else if s[0] == c {
        0
    } else {
        let r = first_idx(s.drop_first(), c);
        if r < 0 {
            -1
        } else {
            r + 1
        }
    }
}

/// Index of the last occurrence of `c` in `s`, or -1 when `c` does not occur.
pub open spec fn last_idx(s: Seq<char>, c: char) -> int
    decreases s.len(),
{
    if s.len() == 0 {
        -1
    } else if s[s.len() - 1] == c {
        s.len() - 1
    } else {
        last_idx(s.drop_last(), c)
    }
}

pub proof fn lemma_first_idx_bounds(s: Seq<char>, c: char)
    ensures
        -1 <= first_idx(s, c) < s.len(),
        first_idx(s, c) >= 0 ==> s[first_idx(s, c)] == c,
        first_idx(s, c) >= 0 ==> forall|j: int| 0 <= j < first_idx(s, c) ==> s[j] != c,
        first_idx(s, c) == -1 ==> forall|j: int| 0 <= j < s.len() ==> s[j] != c,
    decreases s.len(),
{
    if s.len() > 0 && s[0] != c {
        lemma_first_idx_bounds(s.drop_first(), c);
        let r = first_idx(s.drop_first(), c);
        if r >= 0 {
            assert(s[r + 1] == s.drop_first()[r]);
            assert forall|j: int| 0 <= j < r + 1 implies s[j] != c by {
                if j > 0 {
                    assert(s[j] == s.drop_first()[j - 1]);
                }
            }
        } else {
            assert forall|j: int| 0 <= j < s.len() implies s[j] != c by {
                if j > 0 {
                    assert(s[j] == s.drop_first()[j - 1]);
                }
            }
        }
    }
}

pub proof fn lemma_last_idx_bounds(s: Seq<char>, c: char)
    ensures
        -1 <= last_idx(s, c) < s.len(),
        last_idx(s, c) >= 0 ==> s[last_idx(s, c)] == c,
        last_idx(s, c) >= 0 ==> forall|j: int| last_idx(s, c) < j < s.len() ==> s[j] != c,
        last_idx(s, c) == -1 ==> forall|j: int| 0 <= j < s.len() ==> s[j] != c,
    decreases s.len(),
{
    if s.len() > 0 && s[s.len() - 1] != c {
        lemma_last_idx_bounds(s.drop_last(), c);
        let r = last_idx(s.drop_last(), c);
        if r >= 0 {
            assert(s[r] == s.drop_last()[r]);
            assert forall|j: int| r < j < s.len() implies s[j] != c by {
                if j < s.len() - 1 {
                    assert(s[j] == s.drop_last()[j]);
                }
            }
        } else {
            assert forall|j: int| 0 <= j < s.len() implies s[j] != c by {
                if j < s.len() - 1 {
                    assert(s[j] == s.drop_last()[j]);
                }
            }
        }
    }
}

/// The first occurrence is pinned by its defining properties.
pub proof fn lemma_first_idx_is(s: Seq<char>, c: char, i: int)
    requires
        0 <= i < s.len(),
        s[i] == c,
        forall|j: int| 0 <= j < i ==> s[j] != c,
    ensures
        first_idx(s, c) == i,
    decreases s.len(),
{
    if i > 0 {
        assert forall|j: int| 0 <= j < i - 1 implies s.drop_first()[j] != c by {
            assert(s.drop_first()[j] == s[j + 1]);
        }
        assert(s.drop_first()[i - 1] == s[i]);
        lemma_first_idx_is(s.drop_first(), c, i - 1);
    }
}

pub proof fn lemma_last_idx_is(s: Seq<char>, c: char, i: int)
    requires
        0 <= i < s.len(),
        s[i] == c,
        forall|j: int| i < j < s.len() ==> s[j] != c,
    ensures
        last_idx(s, c) == i,
    decreases s.len(),
{
    if i < s.len() - 1 {
        assert forall|j: int| i < j < s.drop_last().len() implies s.drop_last()[j] != c by {
            assert(s.drop_last()[j] == s[j]);
        }
        assert(s.drop_last()[i] == s[i]);
        lemma_last_idx_is(s.drop_last(), c, i);
    }
}

/// First position of `c` in `s`, scanning left to right.
pub fn find_char(s: &str, c: char) -> (r: Option<usize>)
    ensures
        match r {
            Some(i) => i == first_idx(s@, c) && i < s@.len() && s@[i as int] == c,
            None => first_idx(s@, c) == -1,
        },
{
    let n: usize = s.unicode_len();
    let mut i: usize = 0;
    while i < n
        invariant
            n == s@.len(),
            0 <= i <= n,
            forall|j: int| 0 <= j < i ==> s@[j] != c,
        decreases n - i,
    {
        if s.get_char(i) == c {
            proof {
                lemma_first_idx_is(s@, c, i as int);
            }
            return Some(i);
        }
        i = i + 1;
    }
    proof {
        lemma_first_idx_bounds(s@, c);
        if first_idx(s@, c) >= 0 {
            assert(s@[first_idx(s@, c)] == c);
        }
    }
    None
}

/// Last position of `c` in `s`, scanning right to left.
pub fn rfind_char(s: &str, c: char) -> (r: Option<usize>)
    ensures
        match r {
            Some(i) => i == last_idx(s@, c) && i < s@.len() && s@[i as int] == c,
            None => last_idx(s@, c) == -1,
        },
{
    let n: usize = s.unicode_len();
    let mut i: usize = n;
    while i > 0
        invariant
            n == s@.len(),
            0 <= i <= n,
            forall|j: int| i <= j < n ==> s@[j] != c,
        decreases i,
    {
        i = i - 1;
        if s.get_char(i) == c {
            proof {
                lemma_last_idx_is(s@, c, i as int);
            }
            return Some(i);
        }
    }
    proof {
        lemma_last_idx_bounds(s@, c);
        if last_idx(s@, c) >= 0 {
            assert(s@[last_idx(s@, c)] == c);
        }
    }
    None
}

/// `s` with white space removed from both ends.
pub open spec fn trimmed(s: Seq<char>) -> Seq<char>
    decreases s.len(),
{
    if s.len() == 0 {
        s
    } else if is_ws_char(s[0]) {
        trimmed(s.drop_first())
    } else if is_ws_char(s[s.len() - 1]) {
        trimmed(s.drop_last())
    } else {
        s
    }
}

/// A string whose ends hold no white space is its own trim.
pub proof fn lemma_trimmed_fixpoint(s: Seq<char>)
    requires
        s.len() == 0 || (!is_ws_char(s[0]) && !is_ws_char(s[s.len() - 1])),
    ensures
        trimmed(s) == s,
{
}

pub proof fn lemma_trimmed_subrange(s: Seq<char>, i: int, j: int)
    requires
        0 <= i <= j <= s.len(),
        forall|k: int| 0 <= k < i ==> is_ws_char(s[k]),
        forall|k: int| j <= k < s.len() ==> is_ws_char(s[k]),
        i < j ==> !is_ws_char(s[i]) && !is_ws_char(s[j - 1]),
    ensures
        trimmed(s) == s.subrange(i, j),
    decreases s.len(),
{
    if s.len() == 0 {
        assert(trimmed(s) =~= s.subrange(i, j));
    } else if is_ws_char(s[0]) {
        assert(i > 0 || j == 0) by {
            if i == 0 && j > 0 {
                assert(!is_ws_char(s[0]));
            }
        }
        if j == 0 && i == 0 {
            lemma_trimmed_subrange(s.drop_first(), 0, 0);
            assert(s.subrange(0, 0) =~= s.drop_first().subrange(0, 0));
        } else {
            let t = s.drop_first();
            assert forall|k: int| 0 <= k < i - 1 implies is_ws_char(t[k]) by {
                assert(t[k] == s[k + 1]);
            }
            assert forall|k: int| j - 1 <= k < t.len() implies is_ws_char(t[k]) by {
                assert(t[k] == s[k + 1]);
            }
            if i - 1 < j - 1 {
                assert(t[i - 1] == s[i]);
                assert(t[j - 2] == s[j - 1]);
            }
            lemma_trimmed_subrange(t, i - 1, j - 1);
            assert(t.subrange(i - 1, j - 1) =~= s.subrange(i, j));
        }
    } else if is_ws_char(s[s.len() - 1]) {
        let t = s.drop_last();
        assert(j <= s.len() - 1) by {
            if j == s.len() {
                assert(is_ws_char(s[j - 1]));
                assert(i < j);
            }
        }
        if i < j {
            assert(t[i] == s[i]);
            assert(t[j - 1] == s[j - 1]);
        }
        lemma_trimmed_subrange(t, i, j);
        assert(t.subrange(i, j) =~= s.subrange(i, j));
    } else {
        assert(i == 0) by {
            if i > 0 {
                assert(is_ws_char(s[0]));
            }
        }
        assert(j == s.len()) by {
            if j < s.len() {
                assert(is_ws_char(s[s.len() - 1]));
            }
        }
        assert(s.subrange(0, s.len() as int) =~= s);
    }
}

/// White space stripped from both ends, as `str::trim` does.
pub fn trim_ws<'a>(s: &'a str) -> (r: &'a str)
    ensures
        r@ == trimmed(s@),
{
    let n: usize = s.unicode_len();
    let mut i: usize = 0;
    while i < n && is_ws(s.get_char(i))
        invariant
            n == s@.len(),
            0 <= i <= n,
            forall|k: int| 0 <= k < i ==> is_ws_char(s@[k]),
        decreases n - i,
    {
        i = i + 1;
    }
    let mut j: usize = n;
    while j > i && is_ws(s.get_char(j - 1))
        invariant
            n == s@.len(),
            i <= j <= n,
            forall|k: int| j <= k < n ==> is_ws_char(s@[k]),
        decreases j,
    {
        j = j - 1;
    }
    proof {
        lemma_trimmed_subrange(s@, i as int, j as int);
    }
    s.substring_char(i, j)
}

/// Trimming keeps the ends free of white space.
pub proof fn lemma_trimmed_edges(s: Seq<char>)
    ensures
        trimmed(s).len() > 0 ==> !is_ws_char(trimmed(s)[0]) && !is_ws_char(
            trimmed(s)[trimmed(s).len() - 1],
        ),
    decreases s.len(),
{
    if s.len() > 0 {
        if is_ws_char(s[0]) {
            lemma_trimmed_edges(s.drop_first());
        } else if is_ws_char(s[s.len() - 1]) {
            lemma_trimmed_edges(s.drop_last());
        }
    }
}

/// Trimming introduces no character that was not in the string.
pub proof fn lemma_trimmed_no_char(s: Seq<char>, c: char)
    requires
        forall|k: int| 0 <= k < s.len() ==> s[k] != c,
    ensures
        forall|k: int| 0 <= k < trimmed(s).len() ==> trimmed(s)[k] != c,
    decreases s.len(),
{
    if s.len() > 0 {
        if is_ws_char(s[0]) {
            assert forall|k: int| 0 <= k < s.drop_first().len() implies s.drop_first()[k] != c by {
                assert(s.drop_first()[k] == s[k + 1]);
            }
            lemma_trimmed_no_char(s.drop_first(), c);
        } else if is_ws_char(s[s.len() - 1]) {
            assert forall|k: int| 0 <= k < s.drop_last().len() implies s.drop_last()[k] != c by {
                assert(s.drop_last()[k] == s[k]);
            }
            lemma_trimmed_no_char(s.drop_last(), c);
        }
    }
    assert forall|k: int| 0 <= k < trimmed(s).len() implies trimmed(s)[k] != c by {
        if s.len() > 0 && is_ws_char(s[0]) {
            assert(trimmed(s) == trimmed(s.drop_first()));
        } else if s.len() > 0 && is_ws_char(s[s.len() - 1]) {
            assert(trimmed(s) == trimmed(s.drop_last()));
        } else {
            assert(trimmed(s) == s);
            assert(trimmed(s)[k] == s[k]);
        }
    }
}

/// `pat` stripped from the front of `s` as often as it occurs there,
/// as `str::trim_start_matches` does.
pub open spec fn strip_all(s: Seq<char>, pat: Seq<char>) -> Seq<char>
    decreases s.len(),
{
    if pat.len() > 0 && spec_starts_with(s, pat) {
        strip_all(s.skip(pat.len() as int), pat)
    } else {
        s
    }
}

/// Every copy of `pat` stripped from the front of `s`.
pub fn strip_prefix_all<'a>(s: &'a str, pat: &str) -> (r: &'a str)
    requires
        pat@.len() > 0,
    ensures
        r@ == strip_all(s@, pat@),
{
    let m: usize = pat.unicode_len();
    let mut cur: &str = s;
    while starts_with(cur, pat)
        invariant
            m == pat@.len(),
            m > 0,
            strip_all(cur@, pat@) == strip_all(s@, pat@),
        decreases cur@.len(),
    {
        let n: usize = cur.unicode_len();
        let next = cur.substring_char(m, n);
        proof {
            assert(next@ =~= cur@.skip(m as int));
        }
        cur = next;
    }
    cur
}

/// Character equality up to ASCII case.
pub open spec fn ic_eq_char(c: char, d: char) -> bool {
    let x = c as u32;
    let y = d as u32;
    x == y || (65 <= x && x <= 90 && y == x + 32) || (65 <= y && y <= 90 && x == y + 32)
}

/// String equality up to ASCII case, as comparing after
/// `to_ascii_lowercase` does.
pub open spec fn ic_eq(a: Seq<char>, b: Seq<char>) -> bool {
    a.len() == b.len() && forall|i: int| 0 <= i < a.len() ==> ic_eq_char(a[i], b[i])
}

/// Whether `a` and `b` hold the same characters up to ASCII case.
pub fn eq_ignore_case(a: &str, b: &str) -> (r: bool)
    ensures
        r == ic_eq(a@, b@),
{
    let na: usize = a.unicode_len();
    let nb: usize = b.unicode_len();
    if na != nb {
        return false;
    }
    let mut i: usize = 0;
    while i < na
        invariant
            na == a@.len(),
            nb == b@.len(),
            na == nb,
            0 <= i <= na,
            forall|j: int| 0 <= j < i ==> ic_eq_char(a@[j], b@[j]),
        decreases na - i,
    {
        let x: u32 = a.get_char(i) as u32;
        let y: u32 = b.get_char(i) as u32;
        let same = x == y || (65 <= x && x <= 90 && y == x + 32) || (65 <= y && y <= 90 && x == y
            + 32);
        if !same {
            return false;
        }
        i = i + 1;
    }
    true
}

pub open spec fn is_digit_char(c: char) -> bool {
    48 <= (c as u32) && (c as u32) <= 57
}

pub open spec fn all_digits(s: Seq<char>) -> bool {
    forall|i: int| 0 <= i < s.len() ==> is_digit_char(s[i])
}

/// Value of a sequence of decimal digits (0 for the empty sequence).
pub open spec fn digits_val(s: Seq<char>) -> int
    decreases s.len(),
{
    if s.len() == 0 {
        0
    } else {
        digits_val(s.drop_last()) * 10 + ((s[s.len() - 1] as u32) - 48)
    }
}

pub proof fn lemma_digits_val_nonneg(s: Seq<char>)
    requires
        all_digits(s),
    ensures
        digits_val(s) >= 0,
    decreases s.len(),
{
    if s.len() > 0 {
        assert(all_digits(s.drop_last()));
        lemma_digits_val_nonneg(s.drop_last());
    }
}

/// A longer digit prefix never has a smaller value.
pub proof fn lemma_digits_val_take_grows(s: Seq<char>, a: int, b: int)
    requires
        all_digits(s),
        0 <= a <= b <= s.len(),
    ensures
        digits_val(s.take(a)) <= digits_val(s.take(b)),
    decreases b - a,
{
    if a < b {
        lemma_digits_val_take_grows(s, a, b - 1);
        let t = s.take(b);
        assert(t.drop_last() =~= s.take(b - 1));
        assert(all_digits(s.take(b - 1)));
        lemma_digits_val_nonneg(s.take(b - 1));
        assert(digits_val(s.take(b)) == digits_val(s.take(b - 1)) * 10 + ((s[b - 1] as u32) - 48));
    }
}

/// The text a `u16` parses from: an optional leading `+`,
/// then decimal digits whose value fits.
pub open spec fn u16_body(s: Seq<char>) -> Seq<char> {
    if s.len() > 0 && s[0] == '+' {
        s.drop_first()
    } else {
        s
    }
}

pub open spec fn valid_u16_text(s: Seq<char>) -> bool {
    let b = u16_body(s);
    b.len() > 0 && all_digits(b) && digits_val(b) <= 0xffff
}

pub open spec fn u16_text_val(s: Seq<char>) -> int {
    digits_val(u16_body(s))
}

/// Decimal parse of a `u16`, accepting exactly what `str::parse::<u16>` does.
pub fn parse_u16(s: &str) -> (r: Option<u16>)
    ensures
        match r {
            Some(v) => valid_u16_text(s@) && v == u16_text_val(s@),
            None => !valid_u16_text(s@),
        },
{
    let n: usize = s.unicode_len();
    let mut i: usize = 0;
    if n > 0 && s.get_char(0) == '+' {
        i = 1;
    }
    let ghost b = u16_body(s@);
    let start: usize = i;
    if i >= n {
        return None;
    }
    let mut acc: u32 = 0;
    while i < n
        invariant
            n == s@.len(),
            start <= i <= n,
            start == if s@.len() > 0 && s@[0] == '+' { 1int } else { 0int },
            b == u16_body(s@),
            b =~= s@.subrange(start as int, n as int),
            acc <= 0xffff,
            all_digits(b.take(i - start)),
            acc == digits_val(b.take(i - start)),
        decreases n - i,
    {
        let c = s.get_char(i);
        let u: u32 = c as u32;
        if u < 48 || u > 57 {
            assert(b[i - start] == s@[i as int]);
            return None;
        }
        let d: u32 = u - 48;
        proof {
            assert(b.take(i - start + 1).drop_last() =~= b.take(i - start));
            assert(b.take(i - start + 1)[i - start] == s@[i as int]);
        }
        let next: u32 = acc * 10 + d;
        if next > 0xffff {
            proof {
                assert(all_digits(b.take(i - start + 1)));
                assert(digits_val(b.take(i - start + 1)) == next);
                if valid_u16_text(s@) {
                    assert(all_digits(b));
                    lemma_digits_val_take_grows(b, i - start + 1, b.len() as int);
                    assert(b.take(b.len() as int) =~= b);
                }
            }
            return None;
        }
        acc = next;
        i = i + 1;
    }
    proof {
        assert(b.take(i - start) =~= b);
    }
    Some(acc as u16)
}

/// The decimal digits of `n`, most significant first.
pub open spec fn dec_str(n: int) -> Seq<char>
    decreases n,
{
    if n < 0 {
        Seq::empty()
    } else if n < 10 {
        seq![digit_char(n)]
    } else {
        dec_str(n / 10) + seq![digit_char(n % 10)]
    }
}

pub open spec fn digit_char(d: int) -> char {
    if d == 0 {
        '0'
    } else if d == 1 {
        '1'
    } else if d == 2 {
        '2'
    } else if d == 3 {
        '3'
    } else if d == 4 {
        '4'
    } else if d == 5 {
        '5'
    } else if d == 6 {
        '6'
    } else if d == 7 {
        '7'
    } else if d == 8 {
        '8'
    } else {
        '9'
    }
}

fn digit_str(d: u64) -> (r: &'static str)
    requires
        d < 10,
    ensures
        r@ =~= seq![digit_char(d as int)],
{
    proof {
        reveal_strlit("0");
        reveal_strlit("1");
        reveal_strlit("2");
        reveal_strlit("3");
        reveal_strlit("4");
        reveal_strlit("5");
        reveal_strlit("6");
        reveal_strlit("7");
        reveal_strlit("8");
        reveal_strlit("9");
    }
    match d {
        0 => "0",
        1 => "1",
        2 => "2",
        3 => "3",
        4 => "4",
        5 => "5",
        6 => "6",
        7 => "7",
        8 => "8",
        _ => "9",
    }
}

/// The decimal text of `n`, as `format!` would print it.
pub fn u64_to_string(n: u64) -> (r: String)
    ensures
        r@ == dec_str(n as int),
    decreases n,
{
    if n < 10 {
        let mut out = String::new();
        out.append(digit_str(n));
        proof {
            assert(out@ =~= dec_str(n as int));
        }
        out
    } else {
        let mut out = u64_to_string(n / 10);
        out.append(digit_str(n % 10));
        proof {
            assert(out@ =~= dec_str(n as int));
        }
        out
    }
}

pub proof fn lemma_dec_str_digits(n: int)
    requires
        n >= 0,
    ensures
        dec_str(n).len() > 0,
        all_digits(dec_str(n)),
        digits_val(dec_str(n)) == n,
    decreases n,
{
    if n < 10 {
        assert(dec_str(n) =~= seq![digit_char(n)]);
        assert(is_digit_char(digit_char(n)));
        assert(digits_val(dec_str(n)) == digits_val(dec_str(n).drop_last()) * 10 + ((dec_str(
            n,
        )[0] as u32) - 48));
        assert(dec_str(n).drop_last() =~= Seq::<char>::empty());
        assert((digit_char(n) as u32) - 48 == n);
    } else {
        lemma_dec_str_digits(n / 10);
        let s = dec_str(n);
        assert(s =~= dec_str(n / 10) + seq![digit_char(n % 10)]);
        assert(s.drop_last() =~= dec_str(n / 10));
        assert(is_digit_char(digit_char(n % 10)));
        assert forall|i: int| 0 <= i < s.len() implies is_digit_char(s[i]) by {
            if i < s.len() - 1 {
                assert(s[i] == dec_str(n / 10)[i]);
            }
        }
        assert((digit_char(n % 10) as u32) - 48 == n % 10);
        assert(digits_val(s) == (n / 10) * 10 + n % 10);
        assert((n / 10) * 10 + n % 10 == n) by (nonlinear_arith);
    }
}

/// Whether `a` and `b` hold the same characters.
pub fn eq_str(a: &str, b: &str) -> (r: bool)
    ensures
        r == (a@ == b@),
{
    let na: usize = a.unicode_len();
    let nb: usize = b.unicode_len();
    if na != nb {
        return false;
    }
    let mut i: usize = 0;
    while i < na
        invariant
            na == a@.len(),
            nb == b@.len(),
            na == nb,
            0 <= i <= na,
            forall|j: int| 0 <= j < i ==> a@[j] == b@[j],
        decreases na - i,
    {
        if a.get_char(i) != b.get_char(i) {
            return false;
        }
        i = i + 1;
    }
    proof {
        assert(a@ =~= b@);
    }
    true
}

/// Whether `pat` occurs in `s` starting at `at`.
pub open spec fn matches_at(s: Seq<char>, pat: Seq<char>, at: int) -> bool {
    0 <= at && at + pat.len() <= s.len() && s.subrange(at, at + pat.len()) == pat
}

pub open spec fn spec_contains(s: Seq<char>, pat: Seq<char>) -> bool {
    exists|i: int| matches_at(s, pat, i)
}

pub open spec fn spec_starts_with(s: Seq<char>, pat: Seq<char>) -> bool {
    matches_at(s, pat, 0)
}

fn check_at(s: &str, pat: &str, at: usize) -> (r: bool)
    requires
        at + pat@.len() <= s@.len(),
    ensures
        r == matches_at(s@, pat@, at as int),
{
    let n: usize = s.unicode_len();
    let m: usize = pat.unicode_len();
    let mut i: usize = 0;
    while i < m
        invariant
            n == s@.len(),
            m == pat@.len(),
            at + m <= n,
            0 <= i <= m,
            forall|j: int| 0 <= j < i ==> s@[at + j] == pat@[j],
        decreases m - i,
    {
        if s.get_char(at + i) != pat.get_char(i) {
            assert(s@.subrange(at as int, at + pat@.len())[i as int] != pat@[i as int]);
            return false;
        }
        i = i + 1;
    }
    proof {
        assert(s@.subrange(at as int, at + pat@.len()) =~= pat@);
    }
    true
}

/// Whether `s` begins with `pat`.
pub fn starts_with(s: &str, pat: &str) -> (r: bool)
    ensures
        r == spec_starts_with(s@, pat@),
{
    let n: usize = s.unicode_len();
    let m: usize = pat.unicode_len();
    if m > n {
        return false;
    }
    check_at(s, pat, 0)
}

/// Whether `pat` occurs anywhere in `s`.
pub fn contains_sub(s: &str, pat: &str) -> (r: bool)
    ensures
        r == spec_contains(s@, pat@),
{
    let n: usize = s.unicode_len();
    let m: usize = pat.unicode_len();
    if m > n {
        assert(forall|i: int| !matches_at(s@, pat@, i));
        return false;
    }
    if m == 0 {
        assert(s@.subrange(0, 0) =~= pat@);
        assert(matches_at(s@, pat@, 0));
        return true;
    }
    let mut i: usize = 0;
    while i <= n - m
        invariant
            n == s@.len(),
            m == pat@.len(),
            0 < m <= n,
            0 <= i <= n - m + 1,
            forall|j: int| 0 <= j < i ==> !matches_at(s@, pat@, j),
        decreases n - i,
    {
        if check_at(s, pat, i) {
            return true;
        }
        i = i + 1;
    }
    assert forall|j: int| !matches_at(s@, pat@, j) by {
        if 0 <= j <= n - m {
            assert(!matches_at(s@, pat@, j));
        }
    }
    false
}

/// At most the first `n` characters of `s`.
pub fn truncate_chars(s: &str, n: usize) -> (r: String)
    ensures
        r@ == s@.take(if s@.len() < n { s@.len() as int } else { n as int }),
{
    let len: usize = s.unicode_len();
    let end: usize = if len < n {
        len
    } else {
        n
    };
    let part = s.substring_char(0, end);
    proof {
        assert(part@ =~= s@.take(end as int));
    }
    String::from_str(part)
}

} // verus!
