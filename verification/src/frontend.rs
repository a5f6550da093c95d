//! Small decisions of the interactive front end: where saves live, the loading
//! line, whether a game echoed the player's command, the saves list order,
//! timestamps, the command prefix, the quit prompt and search scrolling.

use vstd::prelude::*;
use crate::strmap::{key_order, lex_lt, lemma_lex_asym, lemma_lex_total, lemma_lex_trans, Duplicate, KeyOrder};
use crate::text::{
    chars_of, eq_ignore_case, is_ws, lower_code, owned, path_join, push_char, spec_is_ws,
    spec_path_join,
};

verus! {

/// The directory holding the per-game save archives: `user_dir/saves`.
pub fn saves_dir(user_dir: &str) -> (r: String)
    ensures
        r@ == spec_path_join(user_dir@, "saves"@),
{
    path_join(user_dir, "saves")
}

// ── Loading line ─────────────────────────────────────────────────────────────

/// `bytes` in tenths of a megabyte (2^20 bytes), rounded to the nearest tenth
/// with ties to even, as `{:.1}` prints the exact quotient.
pub open spec fn mb_tenths(bytes: nat) -> nat {
    let q = (bytes * 10) / 1048576;
    let r = (bytes * 10) % 1048576;
    if 2 * r > 1048576 || (2 * r == 1048576 && q % 2 == 1) {
        q + 1
    } else {
        q
    }
}

/// The decimal digits of `n`.
pub open spec fn decimal(n: nat) -> Seq<char>
    decreases n,
{
    if n < 10 {
        seq![digit_char(n)]
    } else {
        decimal(n / 10).push(digit_char(n % 10))
    }
}

/// The ASCII digit of `d` (0–9).
pub open spec fn digit_char(d: nat) -> char {
    ('0' as u32 + d) as char
}

/// The loading indicator: `babelmap: loading <name> (<size> MB) <frame>`, the
/// size to one decimal.
pub open spec fn spec_loading_line(name: Seq<char>, bytes: nat, frame: char) -> Seq<char> {
    let t = mb_tenths(bytes);
    "babelmap: loading "@ + name + " ("@ + decimal(t / 10) + seq!['.', digit_char(t % 10)] + " MB) "@
        + seq![frame]
}

fn digit_of(d: u64) -> (c: char)
    requires
        d < 10,
    ensures
        c == digit_char(d as nat),
{
    let c = (('0' as u32) + (d as u32)) as u8 as char;
    assert(c == digit_char(d as nat)) by {
        assert(('0' as u32 + d as u32) < 256);
    }
    c
}

fn push_decimal(s: &mut String, n: u64)
    ensures
        final(s)@ == old(s)@ + decimal(n as nat),
    decreases n,
{
    if n < 10 {
        push_char(s, digit_of(n));
        assert(final(s)@ =~= old(s)@ + decimal(n as nat));
    } else {
        push_decimal(s, n / 10);
        push_char(s, digit_of(n % 10));
        assert(final(s)@ =~= old(s)@ + decimal(n as nat));
    }
}

/// The one-line indicator shown while a story boots: its name, its size in
/// megabytes to one decimal, and the spinner glyph. Sizes are exact below 2^53
/// bytes, where a byte count converts to a float without rounding.
pub fn loading_line(name: &str, bytes: usize, frame: char) -> (r: String)
    requires
        bytes < 0x20_0000_0000_0000,
    ensures
        r@ == spec_loading_line(name@, bytes as nat, frame),
{
    let b: u64 = bytes as u64;
    let q: u64 = (b * 10) / 1048576;
    let rem: u64 = (b * 10) % 1048576;
    let t: u64 = if 2 * rem > 1048576 || (2 * rem == 1048576 && q % 2 == 1) { q + 1 } else { q };
    let mut s = owned("babelmap: loading ");
    s.append(name);
    s.append(" (");
    push_decimal(&mut s, t / 10);
    push_char(&mut s, '.');
    push_char(&mut s, digit_of(t % 10));
    s.append(" MB) ");
    push_char(&mut s, frame);
    assert(s@ =~= spec_loading_line(name@, bytes as nat, frame));
    s
}

// ── Game echoes ──────────────────────────────────────────────────────────────

/// Whether `char::is_alphanumeric` holds of `c` (Unicode alphabetic or numeric).
pub uninterp spec fn char_alphanumeric(c: char) -> bool;

/// `char::is_alphanumeric`. Claimed: the result is `char_alphanumeric(c)`; ASCII
/// letters and digits are alphanumeric and every other ASCII character is not.
/// Which non-ASCII characters are alphanumeric is not stated.
#[verifier::external_body]
fn is_alphanumeric(c: char) -> (r: bool)
    ensures
        r == char_alphanumeric(c),
        ('a' <= c <= 'z' || 'A' <= c <= 'Z' || '0' <= c <= '9') ==> r,
        (c as u32) < 0x80 && !('a' <= c <= 'z' || 'A' <= c <= 'Z' || '0' <= c <= '9') ==> !r,
{
    c.is_alphanumeric()
}

/// Whether `c` is a letter or a digit in Unicode's sense (`char::is_alphanumeric`):
/// every ASCII letter and digit is, and no other ASCII character is.
pub fn is_alnum(c: char) -> (r: bool)
    ensures
        r == char_alphanumeric(c),
        ('a' <= c <= 'z' || 'A' <= c <= 'Z' || '0' <= c <= '9') ==> r,
        (c as u32) < 0x80 && !('a' <= c <= 'z' || 'A' <= c <= 'Z' || '0' <= c <= '9') ==> !r,
{
    is_alphanumeric(c)
}

/// `s` without its leading whitespace (`trim_start`).
pub open spec fn trim_start_ws(s: Seq<char>) -> Seq<char>
    decreases s.len(),
{
    if s.len() > 0 && spec_is_ws(s[0]) {
        trim_start_ws(s.drop_first())
    } else {
        s
    }
}

/// `s` without leading and trailing whitespace (`trim`).
pub open spec fn trim_ws(s: Seq<char>) -> Seq<char> {
    crate::text::trim_end_ws(trim_start_ws(s))
}

/// Whether the game's turn output starts with the player's command itself: the
/// trimmed command, compared ignoring ASCII case against the start of the
/// output (after its leading whitespace), followed by the end of the output or
/// by a character that is not alphanumeric. An empty command never matches.
pub open spec fn spec_game_echoes(transcript: Seq<char>, cmd: Seq<char>) -> bool {
    let c = trim_ws(cmd);
    let h = trim_start_ws(transcript);
    &&& c.len() > 0
    &&& h.len() >= c.len()
    &&& forall|i: int| 0 <= i < c.len() ==> lower_code(#[trigger] h[i]) == lower_code(c[i])
    &&& (h.len() == c.len() || !char_alphanumeric(h[c.len() as int]))
}

/// The index of the first non-whitespace character of `s` at or after `from`.
fn skip_ws(s: &Vec<char>, from: usize) -> (r: usize)
    requires
        from <= s@.len(),
    ensures
        from <= r <= s@.len(),
        trim_start_ws(s@.skip(from as int)) == s@.skip(r as int),
{
    let mut i = from;
    while i < s.len() && is_ws(s[i])
        invariant
            from <= i <= s@.len(),
            trim_start_ws(s@.skip(from as int)) == trim_start_ws(s@.skip(i as int)),
        decreases s@.len() - i,
    {
        assert(s@.skip(i as int).drop_first() =~= s@.skip(i + 1));
        i += 1;
    }
    i
}

/// The bounds of `c` without its leading and trailing whitespace.
fn trim_bounds(c: &Vec<char>) -> (r: (usize, usize))
    ensures
        r.0 <= r.1 <= c@.len(),
        c@.subrange(r.0 as int, r.1 as int) == trim_ws(c@),
{
    let cs = skip_ws(c, 0);
    assert(c@.skip(0) =~= c@);
    let mut ce = c.len();
    let ghost mid = c@.skip(cs as int);
    assert(mid.take(mid.len() as int) =~= mid);
    while ce > cs && is_ws(c[ce - 1])
        invariant
            cs <= ce <= c@.len(),
            mid == c@.skip(cs as int),
            crate::text::trim_end_ws(mid) == crate::text::trim_end_ws(mid.take(ce - cs)),
        decreases ce,
    {
        assert(mid.take(ce - cs).drop_last() =~= mid.take(ce - cs - 1));
        assert(mid.take(ce - cs).last() == c@[ce - 1]);
        ce -= 1;
    }
    proof {
        if ce > cs {
            assert(mid.take(ce - cs).last() == c@[ce - 1]);
        }
        assert(c@.subrange(cs as int, ce as int) =~= mid.take(ce - cs));
    }
    (cs, ce)
}

/// Whether the `n` characters of `h` from `hs` equal those of `c` from `cs`,
/// ignoring ASCII case.
fn match_prefix(h: &Vec<char>, hs: usize, c: &Vec<char>, cs: usize, n: usize) -> (r: bool)
    requires
        hs + n <= h@.len(),
        cs + n <= c@.len(),
    ensures
        r == forall|k: int| 0 <= k < n ==> lower_code(#[trigger] h@[hs + k]) == lower_code(c@[cs + k]),
{
    let hl = h.len();
    let cl = c.len();
    let mut i: usize = 0;
    while i < n
        invariant
            i <= n,
            hl == h@.len(),
            cl == c@.len(),
            hs + n <= h@.len(),
            cs + n <= c@.len(),
            forall|k: int| 0 <= k < i ==> lower_code(#[trigger] h@[hs + k]) == lower_code(c@[cs + k]),
        decreases n - i,
    {
        if !eq_ignore_case(h[hs + i], c[cs + i]) {
            return false;
        }
        i += 1;
    }
    true
}

/// Whether the game echoed the just-submitted command at the start of its turn
/// output (so that no second echo is added).
pub fn game_echoes_command(transcript: &str, cmd: &str) -> (r: bool)
    ensures
        r == spec_game_echoes(transcript@, cmd@),
{
    let c = chars_of(cmd);
    let (cs, ce) = trim_bounds(&c);
    let ghost ct = c@.subrange(cs as int, ce as int);
    if ce == cs {
        return false;
    }
    let t = chars_of(transcript);
    let hs = skip_ws(&t, 0);
    assert(t@.skip(0) =~= t@);
    let ghost h = t@.skip(hs as int);
    let n = ce - cs;
    if t.len() - hs < n {
        return false;
    }
    let same = match_prefix(&t, hs, &c, cs, n);
    proof {
        assert forall|k: int| 0 <= k < n implies h[k] == t@[hs + k] && ct[k] == c@[cs + k] by {}
        if !same {
            let k = choose|k: int| 0 <= k < n && lower_code(#[trigger] t@[hs + k]) != lower_code(c@[cs + k]);
            assert(h[k] == t@[hs + k] && ct[k] == c@[cs + k]);
        }
    }
    if !same {
        return false;
    }
    if hs + n == t.len() {
        true
    } else {
        assert(h[n as int] == t@[hs + n]);
        !is_alnum(t[hs + n])
    }
}

// ── Saves list ───────────────────────────────────────────────────────────────

/// A save in the saves manager: a Save State or a game save.
#[derive(Debug, Clone, PartialEq)]
pub struct SaveInfo {
    pub path: String,
    pub name: String,
    pub turns: u32,
    /// RFC 3339 save time; empty for untimestamped (legacy) saves.
    pub saved_at: String,
    pub is_default: bool,
}

impl Duplicate for SaveInfo {
    fn duplicate(&self) -> (r: SaveInfo) {
        SaveInfo {
            path: self.path.clone(),
            name: self.name.clone(),
            turns: self.turns,
            saved_at: self.saved_at.clone(),
            is_default: self.is_default,
        }
    }
}

/// `x` inserted before the first save that is older (has a smaller timestamp),
/// so saves with equal timestamps keep their order.
pub open spec fn insert_newest(s: Seq<SaveInfo>, x: SaveInfo) -> Seq<SaveInfo>
    decreases s.len(),
{
    if s.len() == 0 {
        seq![x]
    } else if lex_lt(s[0].saved_at@, x.saved_at@) {
        seq![x] + s
    } else {
        seq![s[0]] + insert_newest(s.drop_first(), x)
    }
}

/// `s` sorted newest first by timestamp, stably (RFC 3339 timestamps order as
/// strings; an empty timestamp sorts last).
pub open spec fn sort_newest(s: Seq<SaveInfo>) -> Seq<SaveInfo>
    decreases s.len(),
{
    if s.len() == 0 {
        seq![]
    } else {
        insert_newest(sort_newest(s.drop_last()), s.last())
    }
}

proof fn lemma_insert_newest_at(s: Seq<SaveInfo>, x: SaveInfo, j: int)
    requires
        0 <= j <= s.len(),
        forall|k: int| 0 <= k < j ==> !lex_lt((#[trigger] s[k]).saved_at@, x.saved_at@),
        j == s.len() || lex_lt(s[j].saved_at@, x.saved_at@),
    ensures
        insert_newest(s, x) == s.insert(j, x),
    decreases s.len(),
{
    if s.len() == 0 {
        assert(s.insert(j, x) =~= seq![x]);
    } else if j == 0 {
        assert(s.insert(0, x) =~= seq![x] + s);
    } else {
        let r = s.drop_first();
        assert forall|k: int| 0 <= k < j - 1 implies !lex_lt((#[trigger] r[k]).saved_at@, x.saved_at@) by {
            assert(r[k] == s[k + 1]);
        }
        assert(!lex_lt(s[0].saved_at@, x.saved_at@));
        lemma_insert_newest_at(r, x, j - 1);
        assert(s.insert(j, x) =~= seq![s[0]] + r.insert(j - 1, x));
    }
}

/// The saves manager's list: the Save States and the game saves together,
/// newest first by save time; untimestamped saves last.
pub fn combined_saves(states: Vec<SaveInfo>, game_saves: Vec<SaveInfo>) -> (r: Vec<SaveInfo>)
    ensures
        r@ == sort_newest(states@ + game_saves@),
{
    let mut all = states;
    let mut more = game_saves;
    let ghost whole = all@ + more@;
    all.append(&mut more);
    assert(all@ == whole);
    let mut out: Vec<SaveInfo> = Vec::new();
    let mut i: usize = 0;
    assert(all@.take(0) =~= Seq::<SaveInfo>::empty());
    while i < all.len()
        invariant
            i <= all@.len(),
            out@ == sort_newest(all@.take(i as int)),
        decreases all@.len() - i,
    {
        let x = all[i].duplicate();
        let xk = chars_of(x.saved_at.as_str());
        let mut j: usize = 0;
        while j < out.len() && !(key_order(&chars_of(out[j].saved_at.as_str()), &xk) == KeyOrder::Less)
            invariant
                j <= out@.len(),
                xk@ == x.saved_at@,
                forall|k: int| 0 <= k < j ==> !lex_lt((#[trigger] out@[k]).saved_at@, x.saved_at@),
            decreases out@.len() - j,
        {
            j += 1;
        }
        proof {
            lemma_insert_newest_at(out@, x, j as int);
            assert(all@.take(i + 1).drop_last() =~= all@.take(i as int));
            assert(all@.take(i + 1).last() == x);
        }
        out.insert(j, x);
        i += 1;
    }
    assert(all@.take(i as int) =~= all@);
    out
}

/// No save is listed before one that is newer.
pub open spec fn newest_first(s: Seq<SaveInfo>) -> bool {
    forall|i: int, j: int|
        0 <= i < j < s.len() ==> !lex_lt(#[trigger] s[i].saved_at@, #[trigger] s[j].saved_at@)
}

proof fn lemma_insert_newest_sorted(s: Seq<SaveInfo>, x: SaveInfo)
    requires
        newest_first(s),
    ensures
        newest_first(insert_newest(s, x)),
        insert_newest(s, x).to_multiset() == s.to_multiset().insert(x),
    decreases s.len(),
{
    broadcast use vstd::seq_lib::group_to_multiset_ensures;

    if s.len() == 0 {
        assert(seq![x] =~= s.insert(0, x));
    } else if lex_lt(s[0].saved_at@, x.saved_at@) {
        let r = seq![x] + s;
        assert(r =~= s.insert(0, x));
        assert forall|i: int, j: int| 0 <= i < j < r.len() implies !lex_lt(
            #[trigger] r[i].saved_at@,
            #[trigger] r[j].saved_at@,
        ) by {
            if i == 0 {
                let sj = s[j - 1].saved_at@;
                lemma_lex_total(sj, s[0].saved_at@);
                if lex_lt(sj, s[0].saved_at@) {
                    lemma_lex_trans(sj, s[0].saved_at@, x.saved_at@);
                }
                lemma_lex_asym(sj, x.saved_at@);
            } else {
                assert(r[i] == s[i - 1] && r[j] == s[j - 1]);
            }
        }
    } else {
        let rest = s.drop_first();
        let t = insert_newest(rest, x);
        assert forall|i: int, j: int| 0 <= i < j < rest.len() implies !lex_lt(
            #[trigger] rest[i].saved_at@,
            #[trigger] rest[j].saved_at@,
        ) by {
            assert(rest[i] == s[i + 1] && rest[j] == s[j + 1]);
        }
        lemma_insert_newest_sorted(rest, x);
        let r = seq![s[0]] + t;
        assert(r =~= t.insert(0, s[0]));
        assert(s =~= rest.insert(0, s[0]));
        assert(r.to_multiset() =~= s.to_multiset().insert(x));
        assert forall|i: int, j: int| 0 <= i < j < r.len() implies !lex_lt(
            #[trigger] r[i].saved_at@,
            #[trigger] r[j].saved_at@,
        ) by {
            if i == 0 {
                let y = t[j - 1];
                assert(t.contains(y));
                assert(t.to_multiset().count(y) > 0);
                if y != x {
                    assert(rest.to_multiset().count(y) > 0);
                    assert(rest.contains(y));
                    let k = choose|k: int| 0 <= k < rest.len() && rest[k] == y;
                    assert(s[k + 1] == y);
                }
            } else {
                assert(r[i] == t[i - 1] && r[j] == t[j - 1]);
            }
        }
    }
}

/// The saves list is ordered newest first, holds exactly the saves it was given,
/// and lists every untimestamped save after every timestamped one.
pub proof fn lemma_combined_saves_newest_first(s: Seq<SaveInfo>)
    ensures
        newest_first(sort_newest(s)),
        sort_newest(s).to_multiset() == s.to_multiset(),
        forall|i: int, j: int|
            0 <= i < j < sort_newest(s).len() && (#[trigger] sort_newest(s)[i]).saved_at@.len() == 0
                ==> (#[trigger] sort_newest(s)[j]).saved_at@.len() == 0,
    decreases s.len(),
{
    broadcast use vstd::seq_lib::group_to_multiset_ensures;

    let r = sort_newest(s);
    if s.len() == 0 {
        assert(s =~= Seq::<SaveInfo>::empty());
    } else {
        lemma_combined_saves_newest_first(s.drop_last());
        lemma_insert_newest_sorted(sort_newest(s.drop_last()), s.last());
        assert(s =~= s.drop_last().push(s.last()));
    }
    assert forall|i: int, j: int|
        0 <= i < j < r.len() && (#[trigger] r[i]).saved_at@.len() == 0
            implies (#[trigger] r[j]).saved_at@.len() == 0 by {
        assert(!lex_lt(r[i].saved_at@, r[j].saved_at@));
        if r[j].saved_at@.len() > 0 {
            assert(lex_lt(r[i].saved_at@, r[j].saved_at@));
        }
    }
}

// ── Timestamps ───────────────────────────────────────────────────────────────

/// The proleptic Gregorian date `days` days after 1970-01-01, by the
/// era/day-of-era computation: `(year, month, day)`.
pub open spec fn spec_days_to_ymd(days: int) -> (int, int, int) {
    let z = days + 719468;
    let era = z / 146097;
    let doe = z % 146097;
    let yoe = (doe - doe / 1460 + doe / 36524 - doe / 146096) / 365;
    let y = yoe + era * 400;
    let doy = doe - (365 * yoe + yoe / 4 - yoe / 100);
    let mp = (5 * doy + 2) / 153;
    let d = doy - (153 * mp + 2) / 5 + 1;
    let m = if mp < 10 { mp + 3 } else { mp - 9 };
    (if m <= 2 { y + 1 } else { y }, m, d)
}

/// The calendar date of a day count since the Unix epoch.
pub fn days_to_ymd_main(days: u64) -> (r: (u64, u64, u64))
    requires
        days <= u64::MAX - 719468,
    ensures
        r.0 as int == spec_days_to_ymd(days as int).0,
        r.1 as int == spec_days_to_ymd(days as int).1,
        r.2 as int == spec_days_to_ymd(days as int).2,
{
    let days = days + 719468;
    let era = days / 146097;
    let doe = days % 146097;
    let yoe = (doe - doe / 1460 + doe / 36524 - doe / 146096) / 365;
    assert(yoe <= 400) by (nonlinear_arith)
        requires
            doe < 146097,
            yoe == (doe - doe / 1460 + doe / 36524 - doe / 146096) / 365,
    ;
    let y = yoe + era * 400;
    assert(365 * yoe + yoe / 4 - yoe / 100 <= doe) by (nonlinear_arith)
        requires
            doe < 146097,
            yoe == (doe - doe / 1460 + doe / 36524 - doe / 146096) / 365,
    ;
    let doy = doe - (365 * yoe + yoe / 4 - yoe / 100);
    let mp = (5 * doy + 2) / 153;
    let d = doy - (153 * mp + 2) / 5 + 1;
    let m = if mp < 10 { mp + 3 } else { mp - 9 };
    let y = if m <= 2 { y + 1 } else { y };
    (y, m, d)
}

/// Two decimal digits of `n` (`{:02}`), or more when `n` needs them.
pub open spec fn pad2(n: nat) -> Seq<char> {
    if n < 10 {
        seq!['0', digit_char(n)]
    } else {
        decimal(n)
    }
}

/// Four decimal digits of `n` (`{:04}`), or more when `n` needs them.
pub open spec fn pad4(n: nat) -> Seq<char> {
    if n < 10 {
        seq!['0', '0', '0', digit_char(n)]
    } else if n < 100 {
        seq!['0', '0'] + decimal(n)
    } else if n < 1000 {
        seq!['0'] + decimal(n)
    } else {
        decimal(n)
    }
}

/// A Unix timestamp as an RFC 3339 UTC string, `YYYY-MM-DDTHH:MM:SSZ`.
pub open spec fn spec_format_rfc3339(secs: nat) -> Seq<char> {
    let ymd = spec_days_to_ymd((secs / 86400) as int);
    pad4(ymd.0 as nat) + seq!['-'] + pad2(ymd.1 as nat) + seq!['-'] + pad2(ymd.2 as nat) + seq!['T']
        + pad2((secs / 3600 % 24) as nat) + seq![':'] + pad2((secs / 60 % 60) as nat) + seq![':'] + pad2(
        (secs % 60) as nat,
    ) + seq!['Z']
}

fn push_pad2(s: &mut String, n: u64)
    ensures
        final(s)@ == old(s)@ + pad2(n as nat),
{
    if n < 10 {
        push_char(s, '0');
        push_char(s, digit_of(n));
        assert(final(s)@ =~= old(s)@ + pad2(n as nat));
    } else {
        push_decimal(s, n);
    }
}

fn push_pad4(s: &mut String, n: u64)
    ensures
        final(s)@ == old(s)@ + pad4(n as nat),
{
    let ghost s0 = s@;
    if n < 10 {
        push_char(s, '0');
        push_char(s, '0');
        push_char(s, '0');
        push_char(s, digit_of(n));
        assert(final(s)@ =~= s0 + pad4(n as nat));
    } else if n < 100 {
        push_char(s, '0');
        push_char(s, '0');
        push_decimal(s, n);
        assert(final(s)@ =~= s0 + pad4(n as nat));
    } else if n < 1000 {
        push_char(s, '0');
        push_decimal(s, n);
        assert(final(s)@ =~= s0 + pad4(n as nat));
    } else {
        push_decimal(s, n);
    }
}

/// Formats a Unix timestamp (seconds since the epoch) as an RFC 3339 UTC string.
pub fn format_rfc3339(secs: u64) -> (r: String)
    ensures
        r@ == spec_format_rfc3339(secs as nat),
{
    let sec = secs % 60;
    let min = (secs / 60) % 60;
    let hour = (secs / 3600) % 24;
    let days = secs / 86400;
    let (year, month, day) = days_to_ymd_main(days);
    let mut s = String::new();
    push_pad4(&mut s, year);
    push_char(&mut s, '-');
    push_pad2(&mut s, month);
    push_char(&mut s, '-');
    push_pad2(&mut s, day);
    push_char(&mut s, 'T');
    push_pad2(&mut s, hour);
    push_char(&mut s, ':');
    push_pad2(&mut s, min);
    push_char(&mut s, ':');
    push_pad2(&mut s, sec);
    push_char(&mut s, 'Z');
    assert(s@ =~= spec_format_rfc3339(secs as nat));
    s
}

// ── Paths shown to the player ───────────────────────────────────────────────

/// `path` with the home directory at its start written `~`; unchanged when the
/// home directory is unknown, empty or not a prefix of the path.
pub open spec fn spec_abbreviate_home(path: Seq<char>, home: Option<Seq<char>>) -> Seq<char> {
    match home {
        Some(h) => if 0 < h.len() <= path.len() && path.take(h.len() as int) == h {
            seq!['~'] + path.skip(h.len() as int)
        } else {
            path
        },
        None => path,
    }
}

/// A path for display, with the home directory shortened to `~`.
pub fn abbreviate_home(path: &str, home: Option<&str>) -> (r: String)
    ensures
        r@ == spec_abbreviate_home(path@, match home {
            Some(h) => Some(h@),
            None => None,
        }),
{
    let p = chars_of(path);
    match home {
        None => owned(path),
        Some(h) => {
            let hv = chars_of(h);
            if hv.len() == 0 || hv.len() > p.len() {
                return owned(path);
            }
            let mut i: usize = 0;
            while i < hv.len()
                invariant
                    i <= hv@.len() <= p@.len(),
                    p@ == path@,
                    hv@ == h@,
                    home == Some(h),
                    p@.take(i as int) == hv@.take(i as int),
                decreases hv@.len() - i,
            {
                if p[i] != hv[i] {
                    assert(p@.take(hv@.len() as int)[i as int] == p@[i as int]);
                    assert(p@.take(hv@.len() as int) != h@);
                    return owned(path);
                }
                assert(p@.take(i + 1) =~= p@.take(i as int).push(p@[i as int]));
                assert(hv@.take(i + 1) =~= hv@.take(i as int).push(hv@[i as int]));
                i += 1;
            }
            assert(hv@.take(i as int) =~= hv@);
            let mut r = owned("~");
            proof {
                reveal_strlit("~");
                assert(p@.subrange(hv@.len() as int, hv@.len() as int) =~= Seq::<char>::empty());
                assert(r@ =~= seq!['~'] + p@.subrange(hv@.len() as int, hv@.len() as int));
            }
            let mut j: usize = hv.len();
            while j < p.len()
                invariant
                    hv@.len() <= j <= p@.len(),
                    r@ == seq!['~'] + p@.subrange(hv@.len() as int, j as int),
                decreases p@.len() - j,
            {
                push_char(&mut r, p[j]);
                assert(p@.subrange(hv@.len() as int, j + 1) =~= p@.subrange(hv@.len() as int, j as int).push(p@[j as int]));
                j += 1;
            }
            assert(p@.subrange(hv@.len() as int, j as int) =~= p@.skip(hv@.len() as int));
            r
        },
    }
}

// ── Prompt, quit, search ─────────────────────────────────────────────────────

/// Whether `input` starts with the command prefix character.
pub fn is_slash(input: &str, prefix: char) -> (r: bool)
    ensures
        r == (input@.len() > 0 && input@[0] == prefix),
{
    let v = chars_of(input);
    v.len() > 0 && v[0] == prefix
}

/// Whether quitting should ask to save first: only when auto-save is off, the
/// prompt is enabled, and there is progress no Save State holds yet.
pub fn should_prompt_save_on_quit(auto_save: bool, prompt_save_on_quit: bool, unsaved_progress: bool) -> (r: bool)
    ensures
        r == (!auto_save && prompt_save_on_quit && unsaved_progress),
{
    !auto_save && prompt_save_on_quit && unsaved_progress
}

/// The transcript scroll that brings the match at `match_visible_pos` (of
/// `total_visible` rows) to the top of a `pane_rows`-high viewport; 0 when the
/// match is near the bottom.
pub fn scroll_for_match(match_visible_pos: usize, total_visible: usize, pane_rows: usize) -> (r: u16)
    ensures
        r == (if total_visible >= match_visible_pos + pane_rows {
            (total_visible - match_visible_pos - pane_rows) as u16
        } else {
            0u16
        }),
{
    let s = total_visible.saturating_sub(match_visible_pos).saturating_sub(pane_rows);
    #[verifier::truncate]
    (s as u16)
}

} // verus!
