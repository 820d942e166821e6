use vstd::prelude::*;
use vstd::string::StringSliceAdditionalSpecFns;

use crate::config::Config;
use crate::error::Error;
use crate::lang::{spec_lang_of, LangCode};

verus! {

// ---------------------------------------------------------------------------
// The wire grammar of an `Accept-Language` header value.
//
// The header is scanned byte by byte, left to right.  A language-range token
// starts either at the very beginning of the text or right after a single
// `,` or ` ` separator, and consists of:
//
//   - a primary subtag of one to three word bytes (taken greedily, at most
//     three) -- this is the candidate language code;
//   - optionally `-` plus one to three more word bytes (a region subtag,
//     recognized and discarded);
//   - optionally a single space;
//   - optionally `;q=` plus a non-empty run of digits and dots (the client
//     quality).
//
// Scanning resumes right after the consumed token, so text swallowed by a
// token never starts another one.  Bytes that fit nowhere are skipped one at
// a time.
// ---------------------------------------------------------------------------

/// A word byte: an ASCII digit, letter, or underscore.
pub open spec fn spec_word_byte(b: u8) -> bool {
    (48 <= b <= 57)  // 0-9
    || (65 <= b <= 90)  // A-Z
    || b == 95  // _
    || (97 <= b <= 122)  // a-z
}

/// A quality byte: an ASCII digit or a dot.
pub open spec fn spec_q_byte(b: u8) -> bool {
    (48 <= b <= 57) || b == 46
}

/// An ASCII digit byte.
pub open spec fn spec_digit_byte(b: u8) -> bool {
    48 <= b <= 57
}

/// Length of the run of word bytes starting at position `i`.
pub open spec fn spec_word_run(s: Seq<u8>, i: int) -> int
    decreases s.len() - i,
    when 0 <= i <= s.len()
{
    if i < s.len() && spec_word_byte(s[i]) {
        1 + spec_word_run(s, i + 1)
    } else {
        0
    }
}

/// Length of the run of quality bytes starting at position `i`.
pub open spec fn spec_q_run(s: Seq<u8>, i: int) -> int
    decreases s.len() - i,
    when 0 <= i <= s.len()
{
    if i < s.len() && spec_q_byte(s[i]) {
        1 + spec_q_run(s, i + 1)
    } else {
        0
    }
}

/// Where the primary subtag of a token starting at `p` begins: at `p` itself
/// when `p` opens the text, or right after a one-byte separator.  `None`
/// when no token starts at `p`.
pub open spec fn spec_match_start(s: Seq<u8>, p: int) -> Option<int> {
    if p == 0 && 0 < s.len() && spec_word_byte(s[0]) {
        Some(0)
    } else if 0 <= p < s.len() && (s[p] == 44 || s[p] == 32) && p + 1 < s.len() && spec_word_byte(
        s[p + 1],
    ) {
        Some(p + 1)
    } else {
        None
    }
}

/// End of the primary subtag that begins at `j`: up to three word bytes,
/// taken greedily.
pub open spec fn spec_lang_end(s: Seq<u8>, j: int) -> int {
    if spec_word_run(s, j) >= 3 {
        j + 3
    } else {
        j + spec_word_run(s, j)
    }
}

/// End of the optional region subtag: `-` plus up to three word bytes, if
/// present right after the primary subtag.
pub open spec fn spec_region_end(s: Seq<u8>, j: int) -> int {
    let e = spec_lang_end(s, j);
    if e + 1 < s.len() && s[e] == 45 && spec_word_byte(s[e + 1]) {
        if spec_word_run(s, e + 1) >= 3 {
            e + 4
        } else {
            e + 1 + spec_word_run(s, e + 1)
        }
    } else {
        e
    }
}

/// End of the optional single space after the subtags.
pub open spec fn spec_space_end(s: Seq<u8>, j: int) -> int {
    let e = spec_region_end(s, j);
    if e < s.len() && s[e] == 32 {
        e + 1
    } else {
        e
    }
}

/// Whether the token whose subtag starts at `j` carries a `;q=` quality.
pub open spec fn spec_has_q(s: Seq<u8>, j: int) -> bool {
    let e = spec_space_end(s, j);
    e + 3 < s.len() && s[e] == 59 && s[e + 1] == 113 && s[e + 2] == 61 && spec_q_byte(s[e + 3])
}

/// The quality bytes of the token whose subtag starts at `j`, if any.
pub open spec fn spec_q_seq(s: Seq<u8>, j: int) -> Option<Seq<u8>> {
    let e = spec_space_end(s, j);
    if spec_has_q(s, j) {
        Some(s.subrange(e + 3, e + 3 + spec_q_run(s, e + 3)))
    } else {
        None
    }
}

/// End of the whole token whose subtag starts at `j`.
pub open spec fn spec_token_end(s: Seq<u8>, j: int) -> int {
    let e = spec_space_end(s, j);
    if spec_has_q(s, j) {
        e + 3 + spec_q_run(s, e + 3)
    } else {
        e
    }
}

// ---------------------------------------------------------------------------
// The client quality, as a count of thousandths.
//
// Quality weights are decimal fractions on the wire.  The engine resolves
// them to thousandths (the `q` parameter's conventional precision): further
// fractional digits are dropped, and values too large for a `u32` count of
// thousandths saturate.  A missing or malformed quality reads as `1000`
// (that is, `1.0`).
// ---------------------------------------------------------------------------

/// Index of the first dot in `d`, or `d.len()` when there is none.
pub open spec fn spec_dot_pos(d: Seq<u8>) -> int
    decreases d.len(),
{
    if d.len() == 0 {
        0
    } else if d[0] == 46 {
        0
    } else {
        1 + spec_dot_pos(d.drop_first())
    }
}

/// Base-ten value of a sequence of digit bytes.
pub open spec fn spec_digits_value(d: Seq<u8>) -> int
    decreases d.len(),
{
    if d.len() == 0 {
        0
    } else {
        spec_digits_value(d.drop_last()) * 10 + (d.last() - 48)
    }
}

/// Thousandths contributed by the fractional digits: the first three of
/// them, padded with zeros on the right.
pub open spec fn spec_frac_millis(f: Seq<u8>) -> int {
    if f.len() == 0 {
        0
    } else if f.len() == 1 {
        (f[0] - 48) * 100
    } else if f.len() == 2 {
        (f[0] - 48) * 100 + (f[1] - 48) * 10
    } else {
        (f[0] - 48) * 100 + (f[1] - 48) * 10 + (f[2] - 48)
    }
}

/// Whether quality bytes spell a number: at least one digit, and at most
/// one dot.
pub open spec fn spec_q_valid(d: Seq<u8>) -> bool {
    &&& exists|i: int| 0 <= i < d.len() && spec_digit_byte(d[i])
    &&& forall|i: int, j: int| 0 <= i < j < d.len() ==> !(d[i] == 46 && d[j] == 46)
}

/// The value in thousandths that a valid quality capture spells, saturating
/// at `u32::MAX`.
pub open spec fn spec_decimal_millis(d: Seq<u8>) -> u32 {
    let dp = spec_dot_pos(d);
    let frac = if dp < d.len() {
        d.subrange(dp + 1, d.len() as int)
    } else {
        Seq::<u8>::empty()
    };
    let v = spec_digits_value(d.subrange(0, dp)) * 1000 + spec_frac_millis(frac);
    if v > u32::MAX {
        u32::MAX
    } else {
        v as u32
    }
}

/// The client quality in thousandths of a token: `1000` when the quality is
/// absent or malformed, else the decimal value of the capture.
pub open spec fn spec_q_value(q: Option<Seq<u8>>) -> u32 {
    match q {
        None => 1000u32,
        Some(d) => if spec_q_valid(d) {
            spec_decimal_millis(d)
        } else {
            1000u32
        },
    }
}

// ---------------------------------------------------------------------------
// The candidate sequence of a header.
// ---------------------------------------------------------------------------

/// The candidates that the scan yields from position `p` on: one
/// `(code, quality)` pair per token whose primary subtag is a known code, in
/// the order the tokens stand in the text.  Tokens with an unknown subtag
/// are skipped silently.
pub open spec fn spec_candidates(s: Seq<u8>, p: int) -> Seq<(LangCode, u32)>
    decreases s.len() - p,
    when 0 <= p <= s.len()
{
    if p >= s.len() {
        Seq::empty()
    } else {
        match spec_match_start(s, p) {
            None => spec_candidates(s, p + 1),
            Some(j) => {
                proof {
                    lemma_token_end_bounds(s, p);
                }
                let rest = spec_candidates(s, spec_token_end(s, j));
                match spec_lang_of(s.subrange(j, spec_lang_end(s, j))) {
                    Some(c) => seq![(c, spec_q_value(spec_q_seq(s, j)))] + rest,
                    None => rest,
                }
            },
        }
    }
}

// ---------------------------------------------------------------------------
// Bounds of the pieces of a token.
// ---------------------------------------------------------------------------

/// A run of word bytes is non-negative and stays inside the text.
pub proof fn lemma_word_run_bounds(s: Seq<u8>, i: int)
    requires
        0 <= i <= s.len(),
    ensures
        0 <= spec_word_run(s, i),
        i + spec_word_run(s, i) <= s.len(),
    decreases s.len() - i,
{
    if i < s.len() && spec_word_byte(s[i]) {
        lemma_word_run_bounds(s, i + 1);
    }
}

/// A run of quality bytes is non-negative and stays inside the text.
pub proof fn lemma_q_run_bounds(s: Seq<u8>, i: int)
    requires
        0 <= i <= s.len(),
    ensures
        0 <= spec_q_run(s, i),
        i + spec_q_run(s, i) <= s.len(),
    decreases s.len() - i,
{
    if i < s.len() && spec_q_byte(s[i]) {
        lemma_q_run_bounds(s, i + 1);
    }
}

/// The pieces of a token stand in order and inside the text, and the token
/// reaches past the position where its match began.
pub proof fn lemma_token_end_bounds(s: Seq<u8>, p: int)
    requires
        0 <= p <= s.len(),
        spec_match_start(s, p) is Some,
    ensures
        ({
            let j = spec_match_start(s, p)->Some_0;
            &&& p <= j < s.len()
            &&& j < spec_lang_end(s, j) <= spec_region_end(s, j) <= spec_space_end(s, j)
                <= spec_token_end(s, j) <= s.len()
            &&& p < spec_token_end(s, j)
        }),
{
    let j = spec_match_start(s, p)->Some_0;
    assert(spec_word_byte(s[j]));
    lemma_word_run_bounds(s, j + 1);
    assert(spec_word_run(s, j) >= 1);
    lemma_word_run_bounds(s, j);
    let e = spec_lang_end(s, j);
    if e + 1 < s.len() && s[e] == 45 && spec_word_byte(s[e + 1]) {
        lemma_word_run_bounds(s, e + 2);
        assert(spec_word_run(s, e + 1) >= 1);
        lemma_word_run_bounds(s, e + 1);
    }
    let e2 = spec_space_end(s, j);
    if spec_has_q(s, j) {
        lemma_q_run_bounds(s, e2 + 4);
        assert(spec_q_run(s, e2 + 3) >= 1);
        lemma_q_run_bounds(s, e2 + 3);
    }
}

/// A prefix with no dot up to `p`, and a dot at `p` if `p` is inside,
/// pins down [`spec_dot_pos`].
proof fn lemma_dot_pos_from_facts(d: Seq<u8>, p: int)
    requires
        0 <= p <= d.len(),
        forall|k: int| 0 <= k < p ==> d[k] != 46,
        p < d.len() ==> d[p] == 46,
    ensures
        spec_dot_pos(d) == p,
    decreases d.len(),
{
    if d.len() == 0 {
    } else if d[0] == 46 {
        assert(p == 0);
    } else {
        assert(p >= 1);
        assert(forall|k: int| 0 <= k < p - 1 ==> d.drop_first()[k] != 46);
        lemma_dot_pos_from_facts(d.drop_first(), p - 1);
    }
}

/// Where an accumulator saturates while reading the digits before the dot:
/// just above any value whose thousandths still fit in a `u32`.
const Q_ACC_CAP: u64 = 5000000000;

/// `v`, saturated at [`Q_ACC_CAP`].
spec fn spec_capped(v: int) -> int {
    if v > Q_ACC_CAP {
        Q_ACC_CAP as int
    } else {
        v
    }
}

/// Parses the quality bytes `s[start..end]` into thousandths, as
/// [`spec_q_value`] reads them.
fn parse_q_millis(s: &[u8], start: usize, end: usize) -> (r: u32)
    requires
        start < end <= s@.len(),
        forall|k: int| start <= k < end ==> spec_q_byte(s@[k]),
    ensures
        r == spec_q_value(Some(s@.subrange(start as int, end as int))),
{
    let ghost d = s@.subrange(start as int, end as int);
    let mut i = start;
    let mut first_dot: Option<usize> = None;
    let mut second_dot = false;
    let mut has_digit = false;
    while i < end
        invariant
            start <= i <= end <= s@.len(),
            d == s@.subrange(start as int, end as int),
            forall|k: int| start <= k < end ==> spec_q_byte(s@[k]),
            has_digit == exists|t: int| 0 <= t < i - start && spec_digit_byte(d[t]),
            match first_dot {
                None => forall|t: int| 0 <= t < i - start ==> d[t] != 46,
                Some(fd) => start <= fd < i && d[fd - start] == 46 && (forall|t: int|
                    0 <= t < fd - start ==> d[t] != 46),
            },
            second_dot == exists|t1: int, t2: int|
                0 <= t1 < t2 < i - start && d[t1] == 46 && d[t2] == 46,
        decreases end - i,
    {
        let b = s[i];
        proof {
            assert(d[i - start] == s@[i as int]);
        }
        if b == 46 {
            if first_dot.is_some() {
                second_dot = true;
                proof {
                    let fd = first_dot->0;
                    assert(d[fd - start] == 46 && d[i - start] == 46 && fd - start < i - start);
                }
            } else {
                first_dot = Some(i);
            }
        } else {
            has_digit = true;
        }
        i = i + 1;
    }
    if !has_digit || second_dot {
        proof {
            assert(!spec_q_valid(d));
        }
        return 1000;
    }
    assert(spec_q_valid(d));
    let dp_abs = match first_dot {
        Some(fd) => fd,
        None => end,
    };
    proof {
        lemma_dot_pos_from_facts(d, dp_abs - start);
    }
    // value of the digits before the dot, saturating
    let mut acc: u64 = 0;
    let mut k = start;
    while k < dp_abs
        invariant
            start <= k <= dp_abs <= end <= s@.len(),
            d == s@.subrange(start as int, end as int),
            forall|t: int| start <= t < end ==> spec_q_byte(s@[t]),
            forall|t: int| 0 <= t < dp_abs - start ==> d[t] != 46,
            0 <= acc <= Q_ACC_CAP,
            spec_digits_value(d.subrange(0, k - start)) >= 0,
            acc == spec_capped(spec_digits_value(d.subrange(0, k - start))),
        decreases dp_abs - k,
    {
        let b = s[k];
        proof {
            assert(d[k - start] == s@[k as int]);
            assert(spec_digit_byte(d[k - start]));
            assert(d.subrange(0, k + 1 - start).drop_last() =~= d.subrange(0, k - start));
            assert(d.subrange(0, k + 1 - start).last() == d[k - start]);
        }
        let dgt = (b - 48) as u64;
        let wide = acc * 10 + dgt;
        if wide > Q_ACC_CAP {
            acc = Q_ACC_CAP;
        } else {
            acc = wide;
        }
        k = k + 1;
    }
    // thousandths from the first three fractional digits
    let mut frac: u64 = 0;
    proof {
        if dp_abs < end {
            assert forall|t: int| dp_abs - start < t < end - start implies d[t] != 46 by {
                assert(d[dp_abs - start] == 46);
            }
        }
    }
    if dp_abs < end {
        let flen = end - dp_abs - 1;
        let ghost f = d.subrange(dp_abs - start + 1, d.len() as int);
        if flen >= 1 {
            proof {
                assert(d[dp_abs + 1 - start] == s@[dp_abs + 1]);
                assert(d[dp_abs + 1 - start] != 46 && spec_q_byte(s@[dp_abs + 1]));
                assert(48 <= s@[dp_abs + 1] <= 57);
            }
            frac = ((s[dp_abs + 1] - 48) as u64) * 100;
        }
        if flen >= 2 {
            proof {
                assert(d[dp_abs + 2 - start] == s@[dp_abs + 2]);
                assert(d[dp_abs + 2 - start] != 46 && spec_q_byte(s@[dp_abs + 2]));
                assert(48 <= s@[dp_abs + 2] <= 57);
            }
            frac = frac + ((s[dp_abs + 2] - 48) as u64) * 10;
        }
        if flen >= 3 {
            proof {
                assert(d[dp_abs + 3 - start] == s@[dp_abs + 3]);
                assert(d[dp_abs + 3 - start] != 46 && spec_q_byte(s@[dp_abs + 3]));
                assert(48 <= s@[dp_abs + 3] <= 57);
            }
            frac = frac + ((s[dp_abs + 3] - 48) as u64);
        }
        proof {
            if flen >= 1 {
                assert(f[0] == d[dp_abs + 1 - start]);
            }
            if flen >= 2 {
                assert(f[1] == d[dp_abs + 2 - start]);
            }
            if flen >= 3 {
                assert(f[2] == d[dp_abs + 3 - start]);
            }
            assert(frac == spec_frac_millis(f));
        }
    }
    let m: u64 = acc * 1000 + frac;
    if m > 0xFFFFFFFF {
        proof {
            lemma_decimal_case(d, dp_abs - start, acc as int, frac as int);
        }
        u32::MAX
    } else {
        proof {
            lemma_decimal_case(d, dp_abs - start, acc as int, frac as int);
        }
        m as u32
    }
}

/// Relates the saturating accumulator to [`spec_decimal_millis`]: saturating
/// the digit value before scaling by one thousand does not change whether,
/// or to what, the total saturates.
proof fn lemma_decimal_case(d: Seq<u8>, dp: int, acc: int, frac: int)
    requires
        0 <= dp <= d.len(),
        spec_dot_pos(d) == dp,
        spec_digits_value(d.subrange(0, dp)) >= 0,
        acc == spec_capped(spec_digits_value(d.subrange(0, dp))),
        frac == spec_frac_millis(
            if dp < d.len() {
                d.subrange(dp + 1, d.len() as int)
            } else {
                Seq::<u8>::empty()
            },
        ),
        0 <= frac <= 999,
        spec_q_valid(d),
    ensures
        spec_decimal_millis(d) == if acc * 1000 + frac > u32::MAX {
            u32::MAX
        } else {
            (acc * 1000 + frac) as u32
        },
{
    let v0 = spec_digits_value(d.subrange(0, dp));
    if v0 > Q_ACC_CAP {
        assert(acc == Q_ACC_CAP);
        assert(v0 * 1000 > Q_ACC_CAP as int * 1000);
    }
}

// ---------------------------------------------------------------------------
// The scanner, executable.
// ---------------------------------------------------------------------------

fn is_word_byte(b: u8) -> (r: bool)
    ensures
        r == spec_word_byte(b),
{
    48 <= b && b <= 57 || 65 <= b && b <= 90 || b == 95 || 97 <= b && b <= 122
}

fn is_q_byte(b: u8) -> (r: bool)
    ensures
        r == spec_q_byte(b),
{
    48 <= b && b <= 57 || b == 46
}

/// Length of the run of word bytes at `i`, capped only by the text's end.
fn word_run_at(s: &[u8], i: usize) -> (r: usize)
    requires
        i <= s@.len(),
    ensures
        r == spec_word_run(s@, i as int),
{
    let mut j = i;
    while j < s.len() && is_word_byte(s[j])
        invariant
            i <= j <= s@.len(),
            spec_word_run(s@, i as int) == (j - i) + spec_word_run(s@, j as int),
        decreases s@.len() - j,
    {
        j = j + 1;
    }
    j - i
}

/// Length of the run of quality bytes at `i`.
fn q_run_at(s: &[u8], i: usize) -> (r: usize)
    requires
        i <= s@.len(),
    ensures
        r == spec_q_run(s@, i as int),
{
    let mut j = i;
    while j < s.len() && is_q_byte(s[j])
        invariant
            i <= j <= s@.len(),
            spec_q_run(s@, i as int) == (j - i) + spec_q_run(s@, j as int),
        decreases s@.len() - j,
    {
        j = j + 1;
    }
    j - i
}

/// Every byte inside a quality run is a quality byte.
proof fn lemma_q_run_range(s: Seq<u8>, i: int)
    requires
        0 <= i <= s.len(),
    ensures
        forall|t: int| i <= t < i + spec_q_run(s, i) ==> spec_q_byte(s[t]),
    decreases s.len() - i,
{
    if i < s.len() && spec_q_byte(s[i]) {
        lemma_q_run_range(s, i + 1);
    }
}

/// Scans for a token starting at `p`: the code its primary subtag spells
/// (if it spells a known one), its client quality in thousandths, and the
/// position right after the token.  `None` when no token starts at `p`.
fn try_token(s: &[u8], p: usize) -> (r: Option<(Option<LangCode>, u32, usize)>)
    requires
        p < s@.len(),
    ensures
        (r is None) == (spec_match_start(s@, p as int) is None),
        r matches Some(t) ==> ({
            let j = spec_match_start(s@, p as int)->Some_0;
            &&& t.0 == spec_lang_of(s@.subrange(j, spec_lang_end(s@, j)))
            &&& t.1 == spec_q_value(spec_q_seq(s@, j))
            &&& t.2 == spec_token_end(s@, j)
            &&& p < t.2 <= s@.len()
        }),
{
    let j: usize;
    if p == 0 && is_word_byte(s[0]) {
        j = 0;
    } else if (s[p] == 44 || s[p] == 32) && p + 1 < s.len() && is_word_byte(s[p + 1]) {
        j = p + 1;
    } else {
        return None;
    }
    proof {
        assert(spec_match_start(s@, p as int) == Some(j as int));
        lemma_token_end_bounds(s@, p as int);
    }
    let run = word_run_at(s, j);
    let k = if run >= 3 {
        3
    } else {
        run
    };
    let le = j + k;
    let lang = LangCode::lang_of_bytes(vstd::slice::slice_subrange(s, j, le));
    let mut e = le;
    if e < s.len() && s[e] == 45 && e + 1 < s.len() && is_word_byte(s[e + 1]) {
        let rrun = word_run_at(s, e + 1);
        let rk = if rrun >= 3 {
            3
        } else {
            rrun
        };
        e = e + 1 + rk;
    }
    assert(e == spec_region_end(s@, j as int));
    if e < s.len() && s[e] == 32 {
        e = e + 1;
    }
    assert(e == spec_space_end(s@, j as int));
    let mut q: u32 = 1000;
    let mut endpos = e;
    if e < s.len() && s.len() - e > 3 && s[e] == 59 && s[e + 1] == 113 && s[e + 2] == 61
        && is_q_byte(s[e + 3]) {
        assert(spec_has_q(s@, j as int));
        proof {
            lemma_q_run_bounds(s@, e + 4);
            assert(spec_q_run(s@, e + 3) >= 1);
            lemma_q_run_bounds(s@, e + 3);
            lemma_q_run_range(s@, e + 3);
        }
        let qr = q_run_at(s, e + 3);
        q = parse_q_millis(s, e + 3, e + 3 + qr);
        endpos = e + 3 + qr;
    } else {
        assert(!spec_has_q(s@, j as int));
    }
    Some((lang, q, endpos))
}

/// The ordered candidates of a header's bytes, exactly as
/// [`spec_candidates`] reads them from the start of the text.
pub(crate) fn scan_candidates(s: &[u8]) -> (r: Vec<(LangCode, u32)>)
    ensures
        r@ == spec_candidates(s@, 0),
{
    let mut out: Vec<(LangCode, u32)> = Vec::new();
    let mut p: usize = 0;
    while p < s.len()
        invariant
            p <= s@.len(),
            spec_candidates(s@, 0) == out@ + spec_candidates(s@, p as int),
        decreases s@.len() - p,
    {
        match try_token(s, p) {
            None => {
                proof {
                    assert(spec_candidates(s@, p as int) == spec_candidates(s@, p + 1));
                }
                p = p + 1;
            },
            Some((copt, q, endpos)) => {
                let ghost j = spec_match_start(s@, p as int)->Some_0;
                proof {
                    lemma_token_end_bounds(s@, p as int);
                }
                match copt {
                    Some(c) => {
                        let ghost pre = out@;
                        out.push((c, q));
                        proof {
                            assert(spec_candidates(s@, p as int) == seq![(c, q)]
                                + spec_candidates(s@, endpos as int));
                            assert(pre + (seq![(c, q)] + spec_candidates(s@, endpos as int)) =~= out@
                                + spec_candidates(s@, endpos as int));
                        }
                    },
                    None => {
                        proof {
                            assert(spec_candidates(s@, p as int) == spec_candidates(
                                s@,
                                endpos as int,
                            ));
                        }
                    },
                }
                p = endpos;
            },
        }
    }
    proof {
        assert(out@ + spec_candidates(s@, p as int) =~= out@);
    }
    out
}

/// Parses a raw header value into its ordered candidate sequence: one
/// `(code, quality-in-thousandths)` pair per token whose primary subtag is
/// a known code, in the order the tokens stand in the text.  Tokens whose
/// subtag is no known code are skipped silently, so garbage never aborts
/// the scan: it only thins the sequence, possibly to nothing.
pub fn languages(text: &str) -> (r: Vec<(LangCode, u32)>)
    ensures
        r@ == spec_candidates(text.spec_bytes(), 0),
{
    scan_candidates(text.as_bytes())
}

// ---------------------------------------------------------------------------
// The preference decider.
//
// Candidates are folded left to right into a running best `(code, quality)`
// pair.  A candidate whose server weight is zero is discarded outright,
// whatever the client asked; afterwards a candidate replaces the running
// best only when the client's relative preference for it exceeds the
// relative support deficit.  On the wire the rule reads
// `(s1 - s2) / s1 < (q2 - q1) / q2` over the weights as fractions; over
// weights in thousandths it is the equivalent cross-multiplied comparison
// below, which also settles the division boundaries: a candidate with
// client quality zero never replaces the running best.  Equal trade-offs
// never replace, so of tied candidates the first encountered wins.
// ---------------------------------------------------------------------------

/// Whether a candidate with server weight `s2` and client quality `q2`
/// replaces a running best with server weight `s1` and client quality `q1`
/// (all in thousandths).
pub open spec fn spec_replaces(s1: u32, q1: u32, s2: u32, q2: u32) -> bool {
    q2 > 0 && (s1 - s2) * q2 < (q2 - q1) * s1
}

/// One step of the decider's fold: what becomes of the running best when
/// the next candidate arrives.
pub open spec fn spec_step(
    cfg: Config,
    best: Option<(LangCode, u32)>,
    cand: (LangCode, u32),
) -> Option<(LangCode, u32)> {
    let w = cfg.spec_weight(cand.0);
    if w == 0 {
        best
    } else {
        match best {
            None => Some(cand),
            Some(b) => if spec_replaces(cfg.spec_weight(b.0), b.1, w, cand.1) {
                Some(cand)
            } else {
                best
            },
        }
    }
}

/// The decider's result over a whole candidate sequence: the fold of
/// [`spec_step`] over the candidates in order, starting from no best.
pub open spec fn spec_decide(cfg: Config, cands: Seq<(LangCode, u32)>) -> Option<(LangCode, u32)>
    decreases cands.len(),
{
    if cands.len() == 0 {
        None
    } else {
        spec_step(cfg, spec_decide(cfg, cands.drop_last()), cands.last())
    }
}

/// What header-based negotiation yields for a header's bytes: the winning
/// code, or `NotAcceptable` when no candidate met the server's support.
pub open spec fn spec_header_decision(cfg: Config, s: Seq<u8>) -> Result<LangCode, Error> {
    match spec_decide(cfg, spec_candidates(s, 0)) {
        Some(b) => Ok(b.0),
        None => Err(Error::NotAcceptable),
    }
}

/// Whether the candidate `(s2, q2)` replaces the running best `(s1, q1)`,
/// all weights in thousandths.
fn replaces(s1: u32, q1: u32, s2: u32, q2: u32) -> (r: bool)
    ensures
        r == spec_replaces(s1, q1, s2, q2),
{
    let wd: i128 = s1 as i128 - s2 as i128;
    let qc: i128 = q2 as i128;
    let qd: i128 = q2 as i128 - q1 as i128;
    let ws: i128 = s1 as i128;
    proof {
        assert({
            &&& -0x10000000000000000 <= wd * qc <= 0x10000000000000000
            &&& -0x10000000000000000 <= qd * ws <= 0x10000000000000000
        }) by (nonlinear_arith)
            requires
                -0x100000000 <= wd <= 0x100000000,
                0 <= qc <= 0x100000000,
                -0x100000000 <= qd <= 0x100000000,
                0 <= ws <= 0x100000000,
        ;
    }
    let left = wd * qc;
    let right = qd * ws;
    q2 > 0 && left < right
}

/// The running state of one pass over a candidate sequence: the best
/// candidate seen so far, if any, against a fixed configuration.
struct Decider<'a> {
    lang: Option<LangCode>,
    q: Option<u32>,
    config: &'a Config,
}

impl<'a> Decider<'a> {
    /// A decider is well formed when its configuration is and it holds a
    /// best code exactly when it holds that code's client quality.
    spec fn wf(&self) -> bool {
        &&& self.config.wf()
        &&& (self.lang is Some) == (self.q is Some)
    }

    /// The running best as one value.
    spec fn spec_best(&self) -> Option<(LangCode, u32)> {
        match (self.lang, self.q) {
            (Some(l), Some(q)) => Some((l, q)),
            _ => None,
        }
    }

    fn new(config: &'a Config) -> (d: Self)
        requires
            config.wf(),
        ensures
            d.wf(),
            d.spec_best() is None,
            d.config == config,
    {
        Self { lang: None, q: None, config }
    }

    fn is_none(&self) -> (r: bool)
        requires
            self.wf(),
        ensures
            r == (self.spec_best() is None),
    {
        self.lang.is_none()
    }

    /// Replaces the running best by the candidate when the relative
    /// trade-off rule says so.
    fn compare(&mut self, lang2: LangCode, qclient2: u32)
        requires
            old(self).wf(),
            old(self).spec_best() is Some,
        ensures
            final(self).wf(),
            final(self).config == old(self).config,
            final(self).spec_best() == ({
                let b = old(self).spec_best()->Some_0;
                if spec_replaces(
                    old(self).config.spec_weight(b.0),
                    b.1,
                    old(self).config.spec_weight(lang2),
                    qclient2,
                ) {
                    Some((lang2, qclient2))
                } else {
                    old(self).spec_best()
                }
            }),
    {
        let lang1 = self.lang.unwrap();
        let qclient1 = self.q.unwrap();
        let qserver1 = self.config.weight(lang1);
        let qserver2 = self.config.weight(lang2);
        if replaces(qserver1, qclient1, qserver2, qclient2) {
            self.lang = Some(lang2);
            self.q = Some(qclient2);
        }
    }

    /// Feeds one candidate to the decider: one [`spec_step`] of the fold.
    fn add_preference(&mut self, lang: LangCode, q: u32)
        requires
            old(self).wf(),
        ensures
            final(self).wf(),
            final(self).config == old(self).config,
            final(self).spec_best() == spec_step(*old(self).config, old(self).spec_best(), (lang, q)),
    {
        if self.config.weight(lang) == 0 {
            return ;
        }
        if self.is_none() {
            self.lang = Some(lang);
            self.q = Some(q);
        } else {
            self.compare(lang, q);
        }
    }

    /// The decided code, or `NotAcceptable` when no candidate survived.
    fn result(&self) -> (r: Result<LangCode, Error>)
        requires
            self.wf(),
        ensures
            r == match self.spec_best() {
                Some(b) => Ok::<LangCode, Error>(b.0),
                None => Err::<LangCode, Error>(Error::NotAcceptable),
            },
    {
        match self.lang {
            Some(l) => Ok(l),
            None => Err(Error::NotAcceptable),
        }
    }
}

/// Decides the header's bytes against a configuration: parses the
/// candidates and folds them into a winner.
pub(crate) fn decide_bytes(s: &[u8], config: &Config) -> (r: Result<LangCode, Error>)
    requires
        config.wf(),
    ensures
        r == spec_header_decision(*config, s@),
{
    let cands = scan_candidates(s);
    let mut decider = Decider::new(config);
    let mut i: usize = 0;
    while i < cands.len()
        invariant
            i <= cands@.len(),
            decider.wf(),
            decider.config == config,
            cands@ == spec_candidates(s@, 0),
            decider.spec_best() == spec_decide(*config, cands@.take(i as int)),
        decreases cands@.len() - i,
    {
        let (lang, q) = cands[i];
        decider.add_preference(lang, q);
        proof {
            assert(cands@.take(i + 1).drop_last() =~= cands@.take(i as int));
            assert(cands@.take(i + 1).last() == (lang, q));
        }
        i = i + 1;
    }
    proof {
        assert(cands@.take(cands@.len() as int) =~= cands@);
    }
    decider.result()
}

/// Resolves a raw `Accept-Language` header value against a configuration:
/// of the candidates whose code the server supports at a positive weight,
/// the one the trade-off rule prefers; `NotAcceptable` when there is none.
pub fn with_config(header: &str, config: &Config) -> (r: Result<LangCode, Error>)
    requires
        config.wf(),
    ensures
        r == spec_header_decision(*config, header.spec_bytes()),
{
    decide_bytes(header.as_bytes(), config)
}

// ---------------------------------------------------------------------------
// Laws of the parser and the decider.
// ---------------------------------------------------------------------------

/// Parsing is deterministic and order-preserving: the candidate sequence of
/// a header is a function of its bytes alone, so any two runs of the parser
/// over the same text see one and the same ordered sequence.
pub proof fn lemma_parse_deterministic(
    s: Seq<u8>,
    first: Seq<(LangCode, u32)>,
    second: Seq<(LangCode, u32)>,
)
    requires
        first == spec_candidates(s, 0),
        second == spec_candidates(s, 0),
    ensures
        first == second,
{
}

/// No support, no winner: when the server weight of every candidate in a
/// sequence is zero, the fold yields no best, whatever the client
/// qualities say.
pub proof fn lemma_zero_support_decides_none(cfg: Config, cands: Seq<(LangCode, u32)>)
    requires
        forall|i: int| 0 <= i < cands.len() ==> cfg.spec_weight(#[trigger] cands[i].0) == 0,
    ensures
        spec_decide(cfg, cands) is None,
    decreases cands.len(),
{
    if cands.len() > 0 {
        lemma_zero_support_decides_none(cfg, cands.drop_last());
    }
}


/// Ties keep the incumbent: a candidate whose server weight and client
/// quality both equal the running best's never replaces it, so of equally
/// traded candidates the first encountered wins.
pub proof fn lemma_ties_keep_first(cfg: Config, best: (LangCode, u32), cand: (LangCode, u32))
    requires
        cfg.spec_weight(best.0) == cfg.spec_weight(cand.0),
        best.1 == cand.1,
    ensures
        spec_step(cfg, Some(best), cand) == Some(best),
{
}

/// A header every one of whose candidates has server weight zero is decided
/// as `NotAcceptable`, regardless of the client qualities in it.
pub proof fn lemma_zero_support_not_acceptable(cfg: Config, s: Seq<u8>)
    requires
        forall|i: int|
            0 <= i < spec_candidates(s, 0).len() ==> cfg.spec_weight(
                #[trigger] spec_candidates(s, 0)[i].0,
            ) == 0,
    ensures
        spec_header_decision(cfg, s) == Err::<LangCode, Error>(Error::NotAcceptable),
{
    lemma_zero_support_decides_none(cfg, spec_candidates(s, 0));
}

} // verus!
