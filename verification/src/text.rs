//! Character-sequence helpers shared by the parsers: whitespace, equality
//! against literals, and building `String`s from characters.

use vstd::prelude::*;
use vstd::string::*;

verus! {

/// The Unicode `White_Space` property, which is what `char::is_whitespace` tests.
pub open spec fn spec_is_ws(c: char) -> bool {
    ||| ('\u{9}' <= c && c <= '\u{d}')
    ||| c == ' '
    ||| c == '\u{85}'
    ||| c == '\u{a0}'
    ||| c == '\u{1680}'
    ||| ('\u{2000}' <= c && c <= '\u{200a}')
    ||| c == '\u{2028}'
    ||| c == '\u{2029}'
    ||| c == '\u{202f}'
    ||| c == '\u{205f}'
    ||| c == '\u{3000}'
}

pub fn is_ws(c: char) -> (r: bool)
    ensures
        r == spec_is_ws(c),
{
    ('\u{9}' <= c && c <= '\u{d}') || c == ' ' || c == '\u{85}' || c == '\u{a0}' || c == '\u{1680}'
        || ('\u{2000}' <= c && c <= '\u{200a}') || c == '\u{2028}' || c == '\u{2029}' || c
        == '\u{202f}' || c == '\u{205f}' || c == '\u{3000}'
}

/// The characters of `s`, in order.
pub fn chars_of(s: &str) -> (v: Vec<char>)
    ensures
        v@ == s@,
{
    let n = s.unicode_len();
    let mut v: Vec<char> = Vec::new();
    let mut i: usize = 0;
    while i < n
        invariant
            n == s@.len(),
            i <= n,
            v@ == s@.take(i as int),
        decreases n - i,
    {
        v.push(s.get_char(i));
        i += 1;
        assert(v@ =~= s@.take(i as int));
    }
    assert(s@.take(n as int) =~= s@);
    v
}

/// Whether the characters `s` spell exactly `lit`.
pub fn eq_lit(s: &[char], lit: &str) -> (r: bool)
    ensures
        r == (s@ == lit@),
{
    let l = chars_of(lit);
    if s.len() != l.len() {
        return false;
    }
    let mut i: usize = 0;
    while i < s.len()
        invariant
            s@.len() == l@.len(),
            l@ == lit@,
            i <= s@.len(),
            forall|j: int| 0 <= j < i ==> s@[j] == l@[j],
        decreases s@.len() - i,
    {
        if s[i] != l[i] {
            return false;
        }
        i += 1;
    }
    assert(s@ =~= l@);
    true
}

/// Appends one character to `s` (`String::push`).
#[verifier::external_body]
pub(crate) fn push_char(s: &mut String, c: char)
    ensures
        final(s)@ == old(s)@.push(c),
{
    s.push(c);
}

/// A `String` holding exactly the characters `v`.
pub fn string_of(v: &[char]) -> (s: String)
    ensures
        s@ == v@,
{
    let mut s = String::new();
    let mut i: usize = 0;
    while i < v.len()
        invariant
            i <= v@.len(),
            s@ == v@.take(i as int),
        decreases v@.len() - i,
    {
        push_char(&mut s, v[i]);
        i += 1;
        assert(s@ =~= v@.take(i as int));
    }
    assert(v@.take(v@.len() as int) =~= v@);
    s
}

/// A `String` copy of the literal or slice `s`.
pub fn owned(s: &str) -> (r: String)
    ensures
        r@ == s@,
{
    s.to_owned()
}

// ── Whitespace-separated tokens ──────────────────────────────────────────────

/// Length of the run of non-whitespace characters that starts `s`.
pub open spec fn run_len(s: Seq<char>) -> nat
    decreases s.len(),
{
    if s.len() == 0 || spec_is_ws(s[0]) {
        0
    } else {
        1 + run_len(s.drop_first())
    }
}

pub proof fn lemma_run_len_bounds(s: Seq<char>)
    ensures
        run_len(s) <= s.len(),
        s.len() > 0 && !spec_is_ws(s[0]) ==> run_len(s) >= 1,
    decreases s.len(),
{
    if s.len() > 0 && !spec_is_ws(s[0]) {
        lemma_run_len_bounds(s.drop_first());
    }
}

/// The maximal runs of non-whitespace characters of `s`, in order: what
/// `str::split_whitespace` yields.
pub open spec fn tokens(s: Seq<char>) -> Seq<Seq<char>>
    decreases s.len(),
{
    if s.len() == 0 {
        seq![]
    } else if spec_is_ws(s[0]) {
        tokens(s.drop_first())
    } else {
        proof { lemma_run_len_bounds(s); }
        seq![s.take(run_len(s) as int)] + tokens(s.skip(run_len(s) as int))
    }
}

proof fn lemma_run_len_exact(s: Seq<char>, n: int)
    requires
        0 <= n <= s.len(),
        forall|k: int| 0 <= k < n ==> !spec_is_ws(#[trigger] s[k]),
        n == s.len() || spec_is_ws(s[n]),
    ensures
        run_len(s) == n,
    decreases n,
{
    if n > 0 {
        assert forall|k: int| 0 <= k < n - 1 implies !spec_is_ws(#[trigger] s.drop_first()[k]) by {
            assert(s.drop_first()[k] == s[k + 1]);
        }
        if n < s.len() {
            assert(s.drop_first()[n - 1] == s[n]);
        }
        lemma_run_len_exact(s.drop_first(), n - 1);
    }
}

/// The whitespace-separated tokens of `s`.
pub fn split_tokens(s: &[char]) -> (r: Vec<Vec<char>>)
    ensures
        r@.len() == tokens(s@).len(),
        forall|i: int| 0 <= i < r@.len() ==> (#[trigger] r@[i])@ == tokens(s@)[i],
{
    let mut out: Vec<Vec<char>> = Vec::new();
    let ghost mut outv: Seq<Seq<char>> = seq![];
    let mut i: usize = 0;
    assert(s@.skip(0) =~= s@);
    while i < s.len()
        invariant
            i <= s@.len(),
            out@.len() == outv.len(),
            forall|k: int| 0 <= k < out@.len() ==> (#[trigger] out@[k])@ == outv[k],
            tokens(s@) == outv + tokens(s@.skip(i as int)),
        decreases s@.len() - i,
    {
        if is_ws(s[i]) {
            assert(s@.skip(i as int).drop_first() =~= s@.skip(i + 1));
            i += 1;
        } else {
            let mut j: usize = i;
            let mut tok: Vec<char> = Vec::new();
            while j < s.len() && !is_ws(s[j])
                invariant
                    i <= j <= s@.len(),
                    tok@ == s@.subrange(i as int, j as int),
                    forall|k: int| i <= k < j ==> !spec_is_ws(#[trigger] s@[k]),
                decreases s@.len() - j,
            {
                tok.push(s[j]);
                j += 1;
                assert(tok@ =~= s@.subrange(i as int, j as int));
            }
            proof {
                let t = s@.skip(i as int);
                assert forall|k: int| 0 <= k < j - i implies !spec_is_ws(#[trigger] t[k]) by {
                    assert(t[k] == s@[i + k]);
                }
                if j < s.len() {
                    assert(t[j - i] == s@[j as int]);
                }
                lemma_run_len_exact(t, j - i);
                assert(t.take(j - i) =~= tok@);
                assert(t.skip(j - i) =~= s@.skip(j as int));
                assert(t[0] == s@[i as int]);
                outv = outv.push(tok@);
                assert(tokens(s@) == outv + tokens(s@.skip(j as int))) by {
                    assert(tokens(t) == seq![tok@] + tokens(s@.skip(j as int)));
                }
            }
            out.push(tok);
            i = j;
        }
    }
    assert(s@.skip(i as int) =~= Seq::<char>::empty());
    assert(outv + tokens(Seq::<char>::empty()) =~= outv);
    out
}

// ── Decimal integers ─────────────────────────────────────────────────────────

pub open spec fn is_digit(c: char) -> bool {
    '0' <= c && c <= '9'
}

/// A non-empty run of ASCII digits.
pub open spec fn all_digits(s: Seq<char>) -> bool {
    s.len() > 0 && forall|i: int| 0 <= i < s.len() ==> is_digit(#[trigger] s[i])
}

/// The value of a string of ASCII digits.
pub open spec fn digits_value(s: Seq<char>) -> int
    decreases s.len(),
{
    if s.len() == 0 {
        0
    } else {
        digits_value(s.drop_last()) * 10 + (s.last() as int - '0' as int)
    }
}

/// The integer that a decimal literal spells, as integer `FromStr` reads it: an
/// optional `+` (or, when `signed`, `-`) followed by at least one ASCII digit.
pub open spec fn spec_decimal(s: Seq<char>, signed: bool) -> Option<int> {
    if s.len() > 0 && s[0] == '+' {
        if all_digits(s.drop_first()) { Some(digits_value(s.drop_first())) } else { None }
    } else if signed && s.len() > 0 && s[0] == '-' {
        if all_digits(s.drop_first()) { Some(-digits_value(s.drop_first())) } else { None }
    } else if all_digits(s) {
        Some(digits_value(s))
    } else {
        None
    }
}

/// The value of `s` when it is a decimal literal whose value lies in `lo..=hi`.
pub open spec fn spec_parse_in(s: Seq<char>, signed: bool, lo: int, hi: int) -> Option<int> {
    match spec_decimal(s, signed) {
        Some(v) => if lo <= v <= hi { Some(v) } else { None },
        None => None,
    }
}

proof fn lemma_digits_value_grows(s: Seq<char>, i: int)
    requires
        0 <= i <= s.len(),
        forall|k: int| 0 <= k < s.len() ==> is_digit(#[trigger] s[k]),
    ensures
        0 <= digits_value(s.take(i)) <= digits_value(s),
    decreases s.len() - i,
{
    if i < s.len() {
        lemma_digits_value_grows(s, i + 1);
        assert(s.take(i + 1).drop_last() =~= s.take(i));
    } else {
        assert(s.take(i) =~= s);
        lemma_digits_nonneg(s);
    }
}

proof fn lemma_digits_nonneg(s: Seq<char>)
    requires
        forall|k: int| 0 <= k < s.len() ==> is_digit(#[trigger] s[k]),
    ensures
        digits_value(s) >= 0,
    decreases s.len(),
{
    if s.len() > 0 {
        assert forall|k: int| 0 <= k < s.drop_last().len() implies is_digit(#[trigger] s.drop_last()[k]) by {
            assert(s.drop_last()[k] == s[k]);
        }
        lemma_digits_nonneg(s.drop_last());
        assert(is_digit(s[s.len() - 1]));
    }
}

/// Reads a decimal literal whose value must lie in `lo..=hi`.
pub fn parse_in(s: &[char], signed: bool, lo: i64, hi: i64) -> (r: Option<i64>)
    requires
        -0x1_0000_0000_0000 <= lo <= hi <= 0x1_0000_0000_0000,
    ensures
        r is Some <==> spec_parse_in(s@, signed, lo as int, hi as int) is Some,
        r matches Some(v) ==> spec_parse_in(s@, signed, lo as int, hi as int) == Some(v as int),
{
    let bound: i64 = if -lo > hi { -lo } else { hi };
    let mut start: usize = 0;
    let mut neg = false;
    if s.len() > 0 && s[0] == '+' {
        start = 1;
    } else if signed && s.len() > 0 && s[0] == '-' {
        start = 1;
        neg = true;
    }
    let ghost digits = s@.skip(start as int);
    assert(start == 1 ==> digits =~= s@.drop_first());
    assert(start == 0 ==> digits =~= s@);
    assert(spec_decimal(s@, signed) == if all_digits(digits) {
        Some(if neg { -digits_value(digits) } else { digits_value(digits) })
    } else {
        None::<int>
    }) by {
        if start == 0 && s@.len() > 0 && s@[0] == '-' {
            assert(!is_digit(s@[0]));
        }
        if start == 0 && s@.len() > 0 && s@[0] == '+' {
            assert(!is_digit(s@[0]));
        }
    }
    if start >= s.len() {
        assert(!all_digits(digits));
        return None;
    }
    let mut acc: i64 = 0;
    let mut i: usize = start;
    while i < s.len()
        invariant
            start <= i <= s@.len(),
            digits == s@.skip(start as int),
            0 <= bound <= 0x1_0000_0000_0000,
            0 <= acc <= bound,
            forall|k: int| start <= k < i ==> is_digit(#[trigger] s@[k]),
            acc == digits_value(digits.take(i - start)),
            bound >= hi,
            bound >= -lo,
            spec_decimal(s@, signed) == if all_digits(digits) {
                Some(if neg { -digits_value(digits) } else { digits_value(digits) })
            } else {
                None::<int>
            },
        decreases s@.len() - i,
    {
        let c = s[i];
        if !('0' <= c && c <= '9') {
            assert(digits[i - start] == c);
            assert(!all_digits(digits));
            return None;
        }
        proof {
            assert(digits.take(i - start + 1).drop_last() =~= digits.take(i - start));
            assert(digits.take(i - start + 1).last() == c);
        }
        acc = acc * 10 + (c as i64 - '0' as i64);
        i += 1;
        if acc > bound {
            proof {
                if all_digits(digits) {
                    lemma_digits_value_grows(digits, i - start);
                }
            }
            return None;
        }
    }
    proof {
        assert(digits.take(i - start) =~= digits);
        assert forall|k: int| 0 <= k < digits.len() implies is_digit(#[trigger] digits[k]) by {
            assert(digits[k] == s@[k + start]);
        }
    }
    let v: i64 = if neg { -acc } else { acc };
    if lo <= v && v <= hi { Some(v) } else { None }
}

// ── Words, trimming, case ───────────────────────────────────────────────────

/// `s` past its first whitespace-separated word (and the whitespace before it).
pub open spec fn after_first_token(s: Seq<char>) -> Seq<char>
    decreases s.len(),
{
    if s.len() == 0 {
        s
    } else if spec_is_ws(s[0]) {
        after_first_token(s.drop_first())
    } else {
        proof {
            lemma_run_len_bounds(s);
        }
        s.skip(run_len(s) as int)
    }
}

/// The position just past the first whitespace-separated word of `s`.
pub fn first_token_end(s: &[char]) -> (k: usize)
    ensures
        k <= s@.len(),
        s@.skip(k as int) == after_first_token(s@),
{
    let mut i: usize = 0;
    assert(s@.skip(0) =~= s@);
    while i < s.len() && is_ws(s[i])
        invariant
            i <= s@.len(),
            after_first_token(s@) == after_first_token(s@.skip(i as int)),
        decreases s@.len() - i,
    {
        assert(s@.skip(i as int).drop_first() =~= s@.skip(i + 1));
        i += 1;
    }
    let mut j: usize = i;
    while j < s.len() && !is_ws(s[j])
        invariant
            i <= j <= s@.len(),
            forall|k: int| i <= k < j ==> !spec_is_ws(#[trigger] s@[k]),
        decreases s@.len() - j,
    {
        j += 1;
    }
    proof {
        let t = s@.skip(i as int);
        let n = (j - i) as int;
        if i < s@.len() {
            assert forall|k: int| 0 <= k < n implies !spec_is_ws(#[trigger] t[k]) by {
                assert(t[k] == s@[i + k]);
            }
            if j < s@.len() {
                assert(t[n] == s@[j as int]);
            }
            lemma_run_len_exact(t, n);
            assert(t.skip(n) =~= s@.skip(j as int));
        } else {
            assert(t.len() == 0);
        }
    }
    j
}

/// `s` without its leading ASCII spaces (`trim_start_matches(' ')`).
pub open spec fn skip_spaces(s: Seq<char>) -> Seq<char>
    decreases s.len(),
{
    if s.len() > 0 && s[0] == ' ' {
        skip_spaces(s.drop_first())
    } else {
        s
    }
}

/// `s` without its trailing whitespace (`trim_end`).
pub open spec fn trim_end_ws(s: Seq<char>) -> Seq<char>
    decreases s.len(),
{
    if s.len() > 0 && spec_is_ws(s.last()) {
        trim_end_ws(s.drop_last())
    } else {
        s
    }
}

/// The characters of `s` from `start` on, without leading spaces and trailing whitespace.
pub fn trimmed_tail(s: &[char], start: usize) -> (r: Vec<char>)
    requires
        start <= s@.len(),
    ensures
        r@ == trim_end_ws(skip_spaces(s@.skip(start as int))),
{
    let mut i: usize = start;
    while i < s.len() && s[i] == ' '
        invariant
            start <= i <= s@.len(),
            skip_spaces(s@.skip(start as int)) == skip_spaces(s@.skip(i as int)),
        decreases s@.len() - i,
    {
        assert(s@.skip(i as int).drop_first() =~= s@.skip(i + 1));
        i += 1;
    }
    let mut j: usize = s.len();
    let ghost mid = s@.skip(i as int);
    assert(skip_spaces(s@.skip(start as int)) == mid);
    assert(mid.take(mid.len() as int) =~= mid);
    while j > i && is_ws(s[j - 1])
        invariant
            i <= j <= s@.len(),
            mid == s@.skip(i as int),
            trim_end_ws(mid) == trim_end_ws(mid.take(j - i)),
        decreases j,
    {
        assert(mid.take(j - i).drop_last() =~= mid.take(j - i - 1));
        assert(mid.take(j - i).last() == s@[j - 1]);
        j -= 1;
    }
    let mut out: Vec<char> = Vec::new();
    let mut k: usize = i;
    while k < j
        invariant
            i <= k <= j <= s@.len(),
            out@ == s@.subrange(i as int, k as int),
        decreases j - k,
    {
        out.push(s[k]);
        k += 1;
        assert(out@ =~= s@.subrange(i as int, k as int));
    }
    proof {
        assert(out@ =~= mid.take(j - i));
        if j > i {
            assert(mid.take(j - i).last() == s@[j - 1]);
        }
    }
    out
}

/// The ASCII-lowercase code of `c` (`to_ascii_lowercase`).
pub open spec fn lower_code(c: char) -> u32 {
    if 'A' <= c && c <= 'Z' {
        (c as u32 + 32) as u32
    } else {
        c as u32
    }
}

/// Character equality ignoring ASCII case (`eq_ignore_ascii_case`).
pub fn eq_ignore_case(a: char, b: char) -> (r: bool)
    ensures
        r == (lower_code(a) == lower_code(b)),
{
    let la: u32 = if 'A' <= a && a <= 'Z' { a as u32 + 32 } else { a as u32 };
    let lb: u32 = if 'A' <= b && b <= 'Z' { b as u32 + 32 } else { b as u32 };
    la == lb
}

/// Sequences equal up to ASCII case.
pub open spec fn seq_eq_ignore_case(a: Seq<char>, b: Seq<char>) -> bool {
    a.len() == b.len() && forall|i: int| 0 <= i < a.len() ==> lower_code(#[trigger] a[i]) == lower_code(b[i])
}

/// Whether `s` spells `lit` ignoring ASCII case.
pub fn eq_lit_ignore_case(s: &[char], lit: &str) -> (r: bool)
    ensures
        r == seq_eq_ignore_case(s@, lit@),
{
    let l = chars_of(lit);
    if s.len() != l.len() {
        return false;
    }
    let mut i: usize = 0;
    while i < s.len()
        invariant
            s@.len() == l@.len(),
            l@ == lit@,
            i <= s@.len(),
            forall|j: int| 0 <= j < i ==> lower_code(#[trigger] s@[j]) == lower_code(l@[j]),
        decreases s@.len() - i,
    {
        if !eq_ignore_case(s[i], l[i]) {
            return false;
        }
        i += 1;
    }
    true
}

/// `a` followed by `b`.
pub fn join2(a: &str, b: &str) -> (r: String)
    ensures
        r@ == a@ + b@,
{
    let mut s = owned(a);
    s.append(b);
    s
}

// ── Paths ────────────────────────────────────────────────────────────────────

/// `dir` joined with the relative name `name` (`Path::join`): a `/` goes between
/// them unless `dir` is empty or already ends in one.
pub open spec fn spec_path_join(dir: Seq<char>, name: Seq<char>) -> Seq<char> {
    if dir.len() == 0 || dir.last() == '/' {
        dir + name
    } else {
        dir.push('/') + name
    }
}

/// Joins the relative name `name` onto `dir`.
pub fn path_join(dir: &str, name: &str) -> (r: String)
    ensures
        r@ == spec_path_join(dir@, name@),
{
    let d = chars_of(dir);
    let mut s = owned(dir);
    if d.len() > 0 && d[d.len() - 1] != '/' {
        push_char(&mut s, '/');
    }
    s.append(name);
    s
}

/// The characters of each string.
pub open spec fn strings_view(v: Seq<String>) -> Seq<Seq<char>> {
    v.map_values(|s: String| s@)
}

} // verus!
