//! Deterministic event replay for backtesting and research.
//!
//! Historical envelopes are loaded, sorted chronologically with a stable
//! sort, and fed back through the dynamic bus under a virtual clock, so that
//! subscribers cannot tell replayed traffic from live traffic. Pacing is
//! selectable: maximum speed, real time, or a fixed-point multiplier of real
//! time; a computed delay is only honored when it exceeds one millisecond.

use vstd::prelude::*;

use crate::bus::EventBus;
use crate::events::{EventEnvelope, DEFAULT_PRIORITY};
use crate::fast_channel::flume_wait_timeout_ns;
use vstd::multiset::Multiset;

verus! {

/// Default number of events between progress reports.
pub const DEFAULT_PROGRESS_INTERVAL: usize = 10000;

/// Longest single bounded wait; longer pacing delays wait repeatedly.
pub const MAX_WAIT_CHUNK_NS: u64 = 3_600_000_000_000;

/// A pacing delay at or below this bound is skipped, trading exact fidelity
/// for throughput.
pub const MIN_HONORED_DELAY_NS: u64 = 1_000_000;

// ============================================================================
// Replay speed
// ============================================================================

/// Replay speed control. The multiplier is a fixed-point factor in
/// thousandths: 10000 means ten times real time, 2500 means two and a half.
#[derive(Debug, Clone, Copy, PartialEq, Eq, Structural)]
pub enum ReplaySpeed {
    /// As fast as possible: no pacing delays at all.
    Max,
    /// Real-time replay, one-to-one with the original timestamps.
    Realtime,
    /// Multiplied speed, in thousandths of real time.
    Multiplier(u64),
}

/// Lowercased letter: `'A'` to `'Z'` map to their small forms, all other
/// characters stay as they are.
pub open spec fn lower_char(c: char) -> char {
    if 'A' <= c && c <= 'Z' {
        (((c as u8) + 32) as char)
    } else {
        c
    }
}

/// Lowercased character sequence.
pub open spec fn lower_seq(s: Seq<char>) -> Seq<char> {
    s.map_values(|c: char| lower_char(c))
}

/// Whether the character is a decimal digit.
pub open spec fn is_digit_char(c: char) -> bool {
    48 <= (c as u32) && (c as u32) <= 57
}

/// Numeric value of a decimal digit.
pub open spec fn digit_val(c: char) -> int {
    (c as u32) - 48
}

/// Whether every character of the sequence is a decimal digit.
pub open spec fn all_digits(s: Seq<char>) -> bool {
    forall|i: int| 0 <= i < s.len() ==> is_digit_char(#[trigger] s[i])
}

/// Value of a digit string read as a decimal integer.
pub open spec fn digits_val(s: Seq<char>) -> int
    decreases s.len(),
{
    if s.len() == 0 {
        0
    } else {
        digits_val(s.drop_last()) * 10 + digit_val(s.last())
    }
}

/// Index of the first `'.'`, or the length when there is none.
pub open spec fn dot_index(s: Seq<char>) -> int
    decreases s.len(),
{
    if s.len() == 0 {
        0
    } else if s[0] == '.' {
        0
    } else {
        1 + dot_index(s.drop_first())
    }
}

/// Index of the first `'e'` (the exponent marker, after lowercasing), or
/// the length when there is none.
pub open spec fn exp_index(s: Seq<char>) -> int
    decreases s.len(),
{
    if s.len() == 0 {
        0
    } else if s[0] == 'e' {
        0
    } else {
        1 + exp_index(s.drop_first())
    }
}

/// The mantissa with an optional leading plus sign stripped.
pub open spec fn unsigned_mantissa(m: Seq<char>) -> Seq<char> {
    if m.len() >= 1 && m[0] == '+' {
        m.drop_first()
    } else {
        m
    }
}

/// The digits of a mantissa, its decimal dot removed.
pub open spec fn mantissa_digits(m: Seq<char>) -> Seq<char> {
    let d = dot_index(m);
    if d < m.len() {
        m.subrange(0, d) + m.subrange(d + 1, m.len() as int)
    } else {
        m
    }
}

/// How many of a mantissa's digits stand before its decimal dot.
pub open spec fn mantissa_dot(m: Seq<char>) -> int {
    dot_index(m)
}

/// Whether the exponent text is well formed: an optional sign and one to
/// fifteen digits. A longer exponent names no value the fixed-point range
/// could hold, so such strings fall back to maximum speed.
pub open spec fn exponent_valid(x: Seq<char>) -> bool {
    let b = if x.len() >= 1 && (x[0] == '+' || x[0] == '-') {
        x.drop_first()
    } else {
        x
    };
    1 <= b.len() <= 15 && all_digits(b)
}

/// Signed value of the exponent text.
pub open spec fn exponent_val(x: Seq<char>) -> int {
    if x.len() >= 1 && x[0] == '-' {
        -digits_val(x.drop_first())
    } else if x.len() >= 1 && x[0] == '+' {
        digits_val(x.drop_first())
    } else {
        digits_val(x)
    }
}

/// Ten to the `k`-th power for `k >= 0`; a negative power weighs a digit
/// below one thousandth at this scale, hence nothing.
pub open spec fn pow10_or_zero(k: int) -> int
    decreases (if k <= 0 { 0int } else { k }),
{
    if k < 0 {
        0
    } else if k == 0 {
        1
    } else {
        10 * pow10_or_zero(k - 1)
    }
}

/// Value in thousandths of a digit string whose decimal dot sits after
/// `shift` digits: the digit at position i weighs ten to the
/// `shift + 2 - i`, and digits below one thousandth are truncated away.
pub open spec fn scaled_digits_permille(ds: Seq<char>, shift: int) -> int
    decreases ds.len(),
{
    if ds.len() == 0 {
        0
    } else {
        scaled_digits_permille(ds.drop_last(), shift) + digit_val(ds.last()) * pow10_or_zero(
            shift + 2 - (ds.len() - 1),
        )
    }
}

/// Whether the (lowercased) text is a decimal number of the accepted
/// grammar: an optional leading plus, digits with at most one dot and at
/// least one digit, and an optional exponent part introduced by `'e'` with
/// an optional sign. A leading minus fails the digit check: a negative
/// multiplier has no fixed-point rendering, so such strings fall back to
/// maximum speed.
pub open spec fn decimal_valid(s: Seq<char>) -> bool {
    let e = exp_index(s);
    let m = unsigned_mantissa(s.subrange(0, e));
    &&& mantissa_digits(m).len() > 0
    &&& all_digits(mantissa_digits(m))
    &&& (e < s.len() ==> exponent_valid(s.subrange(e + 1, s.len() as int)))
}

/// Value in thousandths of an accepted decimal number: its digits weighed
/// by where the decimal dot effectively sits once the exponent has shifted
/// it. Everything below one thousandth is truncated away.
pub open spec fn decimal_permille(s: Seq<char>) -> int {
    let e = exp_index(s);
    let m = unsigned_mantissa(s.subrange(0, e));
    let x = if e < s.len() {
        exponent_val(s.subrange(e + 1, s.len() as int))
    } else {
        0
    };
    scaled_digits_permille(mantissa_digits(m), mantissa_dot(m) + x)
}

/// What parsing a speed string yields: `"max"`, `"realtime"` and `"1x"`
/// (case-insensitively) name the fixed speeds; a decimal number followed by
/// `'x'` — an optional plus, digits with at most one dot, an optional
/// exponent — names a multiplier in thousandths. Everything else falls back
/// to maximum speed: among them negative multipliers, values below one
/// thousandth and values beyond the fixed-point range, none of which this
/// representation could honor.
pub open spec fn parse_speed_spec(s: Seq<char>) -> ReplaySpeed {
    let t = lower_seq(s);
    if t == "max"@ {
        ReplaySpeed::Max
    } else if t == "realtime"@ || t == "1x"@ {
        ReplaySpeed::Realtime
    } else if t.len() >= 1 && t.last() == 'x' && decimal_valid(t.drop_last()) && 1
        <= decimal_permille(t.drop_last()) && decimal_permille(t.drop_last()) <= u64::MAX {
        ReplaySpeed::Multiplier(decimal_permille(t.drop_last()) as u64)
    } else {
        ReplaySpeed::Max
    }
}

proof fn lemma_dot_index(s: Seq<char>, p: int)
    requires
        0 <= p <= s.len(),
        forall|j: int| 0 <= j < p ==> #[trigger] s[j] != '.',
        p < s.len() ==> s[p] == '.',
    ensures
        dot_index(s) == p,
    decreases p,
{
    if s.len() > 0 && p > 0 {
        let sd = s.drop_first();
        assert forall|j: int| 0 <= j < p - 1 implies #[trigger] sd[j] != '.' by {
            assert(sd[j] == s[j + 1]);
        }
        lemma_dot_index(sd, p - 1);
    }
}


proof fn lemma_exp_index(s: Seq<char>, p: int)
    requires
        0 <= p <= s.len(),
        forall|j: int| 0 <= j < p ==> #[trigger] s[j] != 'e',
        p < s.len() ==> s[p] == 'e',
    ensures
        exp_index(s) == p,
    decreases p,
{
    if s.len() > 0 && p > 0 {
        let sd = s.drop_first();
        assert forall|j: int| 0 <= j < p - 1 implies #[trigger] sd[j] != 'e' by {
            assert(sd[j] == s[j + 1]);
        }
        lemma_exp_index(sd, p - 1);
    }
}

proof fn lemma_pow10_pos(k: int)
    requires
        k >= 0,
    ensures
        pow10_or_zero(k) >= 1,
    decreases k,
{
    if k > 0 {
        lemma_pow10_pos(k - 1);
    }
}

proof fn lemma_pow10_mono(a: int, b: int)
    requires
        0 <= a <= b,
    ensures
        pow10_or_zero(a) <= pow10_or_zero(b),
    decreases b,
{
    if a < b {
        lemma_pow10_mono(a, b - 1);
        lemma_pow10_pos(b - 1);
    }
}

proof fn lemma_digits_val_bound(ds: Seq<char>)
    requires
        all_digits(ds),
    ensures
        0 <= digits_val(ds) < pow10_or_zero(ds.len() as int),
    decreases ds.len(),
{
    if ds.len() > 0 {
        assert(all_digits(ds.drop_last()));
        lemma_digits_val_bound(ds.drop_last());
        assert(is_digit_char(ds.last()));
        let v = digits_val(ds.drop_last());
        let p = pow10_or_zero(ds.len() - 1);
        assert(v * 10 <= (p - 1) * 10) by (nonlinear_arith)
            requires
                v <= p - 1,
        ;
        assert(v * 10 >= 0) by (nonlinear_arith)
            requires
                v >= 0,
        ;
    }
}

proof fn lemma_scaled_nonneg(ds: Seq<char>, shift: int)
    requires
        all_digits(ds),
    ensures
        scaled_digits_permille(ds, shift) >= 0,
    decreases ds.len(),
{
    if ds.len() > 0 {
        assert(all_digits(ds.drop_last()));
        lemma_scaled_nonneg(ds.drop_last(), shift);
        let d = digit_val(ds.last());
        let p = pow10_or_zero(shift + 2 - (ds.len() - 1));
        assert(is_digit_char(ds.last()));
        if shift + 2 - (ds.len() - 1) >= 0 {
            lemma_pow10_pos(shift + 2 - (ds.len() - 1));
        }
        assert(d * p >= 0) by (nonlinear_arith)
            requires
                d >= 0,
                p >= 0,
        ;
    }
}

proof fn lemma_scaled_prefix_bound(ds: Seq<char>, shift: int, i: int)
    requires
        all_digits(ds),
        0 <= i <= ds.len(),
    ensures
        scaled_digits_permille(ds, shift) >= scaled_digits_permille(ds.subrange(0, i), shift),
    decreases ds.len(),
{
    if i == ds.len() {
        assert(ds.subrange(0, i) =~= ds);
    } else {
        let dl = ds.drop_last();
        assert(all_digits(dl));
        lemma_scaled_prefix_bound(dl, shift, i);
        assert(dl.subrange(0, i) =~= ds.subrange(0, i));
        let d = digit_val(ds.last());
        let p = pow10_or_zero(shift + 2 - (ds.len() - 1));
        assert(is_digit_char(ds.last()));
        if shift + 2 - (ds.len() - 1) >= 0 {
            lemma_pow10_pos(shift + 2 - (ds.len() - 1));
        }
        assert(d * p >= 0) by (nonlinear_arith)
            requires
                d >= 0,
                p >= 0,
        ;
    }
}

proof fn lemma_scaled_ge_term(ds: Seq<char>, shift: int, i: int)
    requires
        all_digits(ds),
        0 <= i < ds.len(),
    ensures
        scaled_digits_permille(ds, shift) >= digit_val(ds[i]) * pow10_or_zero(shift + 2 - i),
    decreases ds.len(),
{
    let dl = ds.drop_last();
    assert(all_digits(dl));
    if i == ds.len() - 1 {
        lemma_scaled_nonneg(dl, shift);
    } else {
        lemma_scaled_ge_term(dl, shift, i);
        assert(dl[i] == ds[i]);
        let d = digit_val(ds.last());
        let p = pow10_or_zero(shift + 2 - (ds.len() - 1));
        assert(is_digit_char(ds.last()));
        if shift + 2 - (ds.len() - 1) >= 0 {
            lemma_pow10_pos(shift + 2 - (ds.len() - 1));
        }
        assert(d * p >= 0) by (nonlinear_arith)
            requires
                d >= 0,
                p >= 0,
        ;
    }
}

proof fn lemma_pow10_values()
    ensures
        pow10_or_zero(14) == 100_000_000_000_000,
        pow10_or_zero(15) == 1_000_000_000_000_000,
        pow10_or_zero(18) == 1_000_000_000_000_000_000,
        pow10_or_zero(19) == 10_000_000_000_000_000_000,
        pow10_or_zero(20) == 100_000_000_000_000_000_000,
{
    reveal_with_fuel(pow10_or_zero, 22);
}

/// Ten to the `k`-th power, executably.
fn pow10_exec(k: u64) -> (r: u64)
    requires
        k <= 19,
    ensures
        r as int == pow10_or_zero(k as int),
{
    let mut r: u64 = 1;
    let mut j: u64 = 0;
    while j < k
        invariant
            j <= k,
            k <= 19,
            r as int == pow10_or_zero(j as int),
        decreases k - j,
    {
        proof {
            lemma_pow10_mono(j as int, 18);
            lemma_pow10_values();
        }
        r = r * 10;
        j = j + 1;
    }
    r
}

/// Lowercased characters of a string.
fn to_lower_chars(s: &str) -> (v: Vec<char>)
    ensures
        v@ == lower_seq(s@),
{
    let n = s.unicode_len();
    let mut v: Vec<char> = Vec::new();
    let mut i: usize = 0;
    while i < n
        invariant
            n == s@.len(),
            i <= n,
            v@ == lower_seq(s@).subrange(0, i as int),
        decreases n - i,
    {
        let c = s.get_char(i);
        let code = c as u32;
        let lowered: char = if 65 <= code && code <= 90 {
            ((code + 32) as u8) as char
        } else {
            c
        };
        proof {
            assert(lowered == lower_char(c));
        }
        v.push(lowered);
        proof {
            assert(v@ =~= lower_seq(s@).subrange(0, i + 1));
        }
        i = i + 1;
    }
    proof {
        assert(lower_seq(s@).subrange(0, s@.len() as int) =~= lower_seq(s@));
    }
    v
}

/// Fixed-point value of a validated mantissa digit string, its decimal dot
/// effectively sitting after `shift` digits: each digit is weighed and
/// summed, and a value below one or beyond the fixed-point range is
/// reported as out of range. The mantissa occupies `v[mstart..epos]` with
/// its dot (if any) at `dpos`.
#[verifier::loop_isolation(false)]
#[verifier::rlimit(60)]
fn scaled_value_of_digits(
    v: &Vec<char>,
    mstart: usize,
    dpos: usize,
    epos: usize,
    shift: i128,
) -> (r: Option<u64>)
    requires
        mstart <= dpos <= epos <= v@.len(),
        -1_000_000_000_000_000 <= shift <= 20_000_000_000_000_000_000i128,
        ({
            let m = v@.subrange(mstart as int, epos as int);
            let ds = mantissa_digits(m);
            &&& dot_index(m) == dpos - mstart
            &&& all_digits(ds)
            &&& ds.len() > 0
        }),
    ensures
        ({
            let m = v@.subrange(mstart as int, epos as int);
            let ds = mantissa_digits(m);
            match r {
                Some(t) => 1 <= t && scaled_digits_permille(ds, shift as int) == t as int,
                None => scaled_digits_permille(ds, shift as int) < 1 || scaled_digits_permille(
                    ds,
                    shift as int,
                ) > u64::MAX,
            }
        }),
{
    broadcast use vstd::utf8::char_is_scalar;

    let ghost m = v@.subrange(mstart as int, epos as int);
    let ghost ds = mantissa_digits(m);
    let dcount: usize = if dpos < epos {
        epos - mstart - 1
    } else {
        epos - mstart
    };
    proof {
        assert(ds.len() == dcount);
    }
    let mut total: u128 = 0;
    let mut idx2: usize = 0;
    while idx2 < dcount
        invariant
            idx2 <= dcount,
            total as int == scaled_digits_permille(ds.subrange(0, idx2 as int), shift as int),
            total <= u64::MAX as u128 + 90_000_000_000_000_000_000u128,
        decreases dcount - idx2,
    {
        if total > u64::MAX as u128 {
            proof {
                lemma_scaled_prefix_bound(ds, shift as int, idx2 as int);
            }
            return None;
        }
        let pos: usize = if mstart + idx2 < dpos {
            mstart + idx2
        } else {
            mstart + idx2 + 1
        };
        let c = v[pos];
        proof {
            let p = dpos as int - mstart as int;
            if dpos < epos {
                assert(ds == m.subrange(0, p) + m.subrange(p + 1, m.len() as int));
                if (idx2 as int) < p {
                    assert(ds[idx2 as int] == m[idx2 as int]);
                } else {
                    assert(ds[idx2 as int] == m[idx2 as int + 1]);
                }
            } else {
                assert(ds == m);
            }
            assert(ds[idx2 as int] == c);
            assert(is_digit_char(c));
            assert(ds.subrange(0, idx2 + 1).drop_last() =~= ds.subrange(0, idx2 as int));
            assert(ds.subrange(0, idx2 + 1).last() == c);
        }
        let dv = ((c as u32) - 48) as u64;
        proof {
            assert(dv as int == digit_val(c));
        }
        let k: i128 = shift + 2 - (idx2 as i128);
        if k >= 20 {
            if dv > 0 {
                proof {
                    lemma_scaled_ge_term(ds, shift as int, idx2 as int);
                    lemma_pow10_mono(20, k as int);
                    lemma_pow10_values();
                    let term = digit_val(ds[idx2 as int]) * pow10_or_zero(shift as int + 2 - idx2);
                    assert(term >= pow10_or_zero(k as int)) by (nonlinear_arith)
                        requires
                            digit_val(ds[idx2 as int]) >= 1,
                            pow10_or_zero(shift as int + 2 - idx2) == pow10_or_zero(k as int),
                            pow10_or_zero(k as int) >= 0,
                            term == digit_val(ds[idx2 as int]) * pow10_or_zero(
                                shift as int + 2 - idx2,
                            ),
                    ;
                }
                return None;
            }
            proof {
                assert(digit_val(ds[idx2 as int]) == 0);
                let cur = ds.subrange(0, idx2 + 1);
                assert(scaled_digits_permille(cur, shift as int) == scaled_digits_permille(
                    cur.drop_last(),
                    shift as int,
                ) + digit_val(cur.last()) * pow10_or_zero(shift as int + 2 - (cur.len() - 1)));
                assert(digit_val(cur.last()) * pow10_or_zero(
                    shift as int + 2 - (cur.len() - 1),
                ) == 0) by (nonlinear_arith)
                    requires
                        digit_val(cur.last()) == 0,
                ;
                assert(total as int == scaled_digits_permille(cur, shift as int));
            }
        } else if k >= 0 {
            let pw = pow10_exec(k as u64);
            proof {
                lemma_pow10_mono(k as int, 19);
                lemma_pow10_values();
                assert(dv as int * pw as int <= 9 * pow10_or_zero(19)) by (nonlinear_arith)
                    requires
                        dv <= 9,
                        0 <= pw as int <= pow10_or_zero(19),
                        pow10_or_zero(19) >= 0,
                ;
            }
            total = total + (dv as u128) * (pw as u128);
            proof {
                assert(total as int == scaled_digits_permille(
                    ds.subrange(0, idx2 + 1),
                    shift as int,
                ));
            }
        } else {
            proof {
                assert(pow10_or_zero(shift as int + 2 - idx2) == 0);
                assert(digit_val(ds[idx2 as int]) * 0 == 0) by (nonlinear_arith);
                assert(total as int == scaled_digits_permille(
                    ds.subrange(0, idx2 + 1),
                    shift as int,
                ));
            }
        }
        idx2 = idx2 + 1;
    }
    proof {
        assert(ds.subrange(0, dcount as int) =~= ds);
    }
    if total < 1 {
        None
    } else if total > u64::MAX as u128 {
        None
    } else {
        Some(total as u64)
    }
}

/// Value in thousandths of the decimal number held in `v[0..end]`, when it
/// is one of the accepted grammar and its value fits the fixed-point range.
#[verifier::loop_isolation(false)]
#[verifier::rlimit(100)]
fn parse_decimal_permille(v: &Vec<char>, end: usize) -> (r: Option<u64>)
    requires
        end <= v@.len(),
    ensures
        ({
            let s = v@.subrange(0, end as int);
            match r {
                Some(m) => decimal_valid(s) && 1 <= m && decimal_permille(s) == m as int,
                None => !decimal_valid(s) || decimal_permille(s) < 1 || decimal_permille(s)
                    > u64::MAX,
            }
        }),
{
    broadcast use vstd::utf8::char_is_scalar;

    let ghost s = v@.subrange(0, end as int);
    // Split off the exponent part at the first marker.
    let mut epos: usize = 0;
    while epos < end && v[epos] != 'e'
        invariant
            epos <= end,
            forall|j: int| 0 <= j < epos ==> #[trigger] s[j] != 'e',
        decreases end - epos,
    {
        epos = epos + 1;
    }
    proof {
        lemma_exp_index(s, epos as int);
    }
    let ghost m0 = s.subrange(0, epos as int);
    // Strip an optional leading plus off the mantissa.
    let mstart: usize = if epos >= 1 && v[0] == '+' {
        1
    } else {
        0
    };
    let ghost m = s.subrange(mstart as int, epos as int);
    proof {
        if mstart == 1 {
            assert(m0[0] == '+');
            assert(unsigned_mantissa(m0) =~= m);
        } else {
            assert(unsigned_mantissa(m0) =~= m);
        }
    }
    // Parse the exponent, when present: an optional sign, then up to
    // fifteen digits.
    let mut exponent: i128 = 0;
    let ghost x = if (epos as int) < s.len() {
        s.subrange(epos as int + 1, end as int)
    } else {
        Seq::<char>::empty()
    };
    if epos < end {
        let negate = epos + 1 < end && v[epos + 1] == '-';
        let signed = negate || (epos + 1 < end && v[epos + 1] == '+');
        let xstart: usize = if signed {
            epos + 2
        } else {
            epos + 1
        };
        let ghost xb = s.subrange(xstart as int, end as int);
        proof {
            if signed {
                assert(x.drop_first() =~= xb);
            } else {
                assert(x =~= xb);
            }
        }
        if end - xstart < 1 || end - xstart > 15 {
            return None;
        }
        let mut acc_e: u64 = 0;
        let mut j: usize = xstart;
        while j < end
            invariant
                xstart <= j <= end,
                end - xstart <= 15,
                all_digits(xb.subrange(0, j - xstart)),
                acc_e as int == digits_val(xb.subrange(0, j - xstart)),
            decreases end - j,
        {
            let c = v[j];
            let code = c as u32;
            if code < 48 || code > 57 {
                proof {
                    assert(xb[j - xstart] == c);
                    assert(!is_digit_char(c));
                }
                return None;
            }
            proof {
                assert(c == xb[j - xstart]);
                assert(is_digit_char(c));
                assert(xb.subrange(0, j - xstart + 1).drop_last() =~= xb.subrange(0, j - xstart));
                assert(xb.subrange(0, j - xstart + 1).last() == c);
                assert(all_digits(xb.subrange(0, j - xstart + 1)));
                lemma_digits_val_bound(xb.subrange(0, j - xstart));
                lemma_pow10_mono((j - xstart) as int, 14);
                lemma_pow10_values();
            }
            acc_e = acc_e * 10 + ((code - 48) as u64);
            j = j + 1;
        }
        proof {
            assert(xb.subrange(0, end - xstart) =~= xb);
            assert(exponent_valid(x));
            lemma_digits_val_bound(xb);
            lemma_pow10_mono(xb.len() as int, 15);
            lemma_pow10_values();
            assert(acc_e <= 1_000_000_000_000_000);
        }
        exponent = if negate {
            -(acc_e as i128)
        } else {
            acc_e as i128
        };
        proof {
            assert(exponent as int == exponent_val(x));
        }
    }
    // Locate the mantissa's decimal dot.
    let mut dpos: usize = mstart;
    while dpos < epos && v[dpos] != '.'
        invariant
            mstart <= dpos <= epos,
            forall|j: int| 0 <= j < dpos - mstart ==> #[trigger] m[j] != '.',
        decreases epos - dpos,
    {
        proof {
            assert(m[dpos - mstart] == s[dpos as int]);
        }
        dpos = dpos + 1;
    }
    proof {
        if dpos < epos {
            assert(m[dpos - mstart] == s[dpos as int]);
        }
        lemma_dot_index(m, dpos as int - mstart as int);
    }
    let ghost ds = mantissa_digits(m);
    let dcount: usize = if dpos < epos {
        epos - mstart - 1
    } else {
        epos - mstart
    };
    proof {
        assert(ds.len() == dcount);
    }
    if dcount == 0 {
        return None;
    }
    // Every remaining mantissa character must be a digit.
    let mut idx: usize = 0;
    while idx < dcount
        invariant
            idx <= dcount,
            all_digits(ds.subrange(0, idx as int)),
        decreases dcount - idx,
    {
        let pos: usize = if mstart + idx < dpos {
            mstart + idx
        } else {
            mstart + idx + 1
        };
        let c = v[pos];
        proof {
            assert(ds[idx as int] == s[pos as int]);
            assert(ds[idx as int] == c);
        }
        let code = c as u32;
        if code < 48 || code > 57 {
            proof {
                assert(!is_digit_char(c));
            }
            return None;
        }
        proof {
            assert(is_digit_char(c));
            assert(ds.subrange(0, idx + 1).drop_last() =~= ds.subrange(0, idx as int));
            assert(ds.subrange(0, idx + 1).last() == c);
            assert(all_digits(ds.subrange(0, idx + 1)));
        }
        idx = idx + 1;
    }
    proof {
        assert(ds.subrange(0, dcount as int) =~= ds);
        assert(all_digits(ds));
        assert(decimal_valid(s));
    }
    // Weigh each digit by where the dot effectively sits.
    let shift: i128 = (dpos as i128 - mstart as i128) + exponent;
    proof {
        assert(shift as int == mantissa_dot(m) + (if (epos as int) < s.len() {
            exponent_val(x)
        } else {
            0
        }));
        assert(v@.subrange(mstart as int, epos as int) =~= m);
    }
    let r = scaled_value_of_digits(v, mstart, dpos, epos, shift);
    proof {
        match r {
            Some(t) => {
                assert(decimal_permille(s) == t as int);
            },
            None => {
                assert(decimal_permille(s) < 1 || decimal_permille(s) > u64::MAX);
            },
        }
    }
    r
}

impl ReplaySpeed {
    /// Parse a speed string: `"max"`, `"realtime"`, `"10x"`, `"2.5x"`,
    /// `"1e3x"` and the like, case-insensitively; anything unrecognized —
    /// including a negative or unrepresentable multiplier — falls back to
    /// maximum speed.
    pub fn from_str(s: &str) -> (r: ReplaySpeed)
        ensures
            r == parse_speed_spec(s@),
    {
        let low = to_lower_chars(s);
        let n = low.len();
        let is_max = n == 3 && low[0] == 'm' && low[1] == 'a' && low[2] == 'x';
        proof {
            reveal_strlit("max");
            if is_max {
                assert(low@ =~= "max"@);
            }
        }
        if is_max {
            return ReplaySpeed::Max;
        }
        let is_realtime = n == 8 && low[0] == 'r' && low[1] == 'e' && low[2] == 'a' && low[3]
            == 'l' && low[4] == 't' && low[5] == 'i' && low[6] == 'm' && low[7] == 'e';
        let is_one_x = n == 2 && low[0] == '1' && low[1] == 'x';
        proof {
            reveal_strlit("realtime");
            reveal_strlit("1x");
            if is_realtime {
                assert(low@ =~= "realtime"@);
            }
            if is_one_x {
                assert(low@ =~= "1x"@);
            }
        }
        if is_realtime || is_one_x {
            return ReplaySpeed::Realtime;
        }
        if n >= 1 && low[n - 1] == 'x' {
            proof {
                assert(low@.drop_last() =~= low@.subrange(0, n - 1));
            }
            match parse_decimal_permille(&low, n - 1) {
                Some(m) => {
                    return ReplaySpeed::Multiplier(m);
                },
                None => {
                    return ReplaySpeed::Max;
                },
            }
        }
        ReplaySpeed::Max
    }
}

/// The effective multiplier of a speed, in thousandths; maximum speed has no
/// multiplier.
pub open spec fn multiplier_permille(speed: ReplaySpeed) -> int {
    match speed {
        ReplaySpeed::Max => 0,
        ReplaySpeed::Realtime => 1000,
        ReplaySpeed::Multiplier(m) => m as int,
    }
}

/// The wall-clock delay honored before an event, given the previous event's
/// timestamp: nothing at maximum speed or for a non-positive gap; otherwise
/// the virtual gap divided by the multiplier, skipped entirely when it does
/// not exceed one millisecond, and saturated at the range bound.
pub open spec fn pace_delay_spec(speed: ReplaySpeed, prev_ns: int, cur_ns: int) -> u64 {
    let m = multiplier_permille(speed);
    if m <= 0 || cur_ns <= prev_ns {
        0
    } else {
        let w = (cur_ns - prev_ns) * 1000 / m;
        if w <= MIN_HONORED_DELAY_NS {
            0
        } else if w > u64::MAX {
            u64::MAX
        } else {
            w as u64
        }
    }
}

/// Maximum speed never waits: every pacing delay is zero. This is why a
/// maximum-speed replay is bounded by the publish work alone.
pub proof fn lemma_max_speed_never_waits(prev_ns: int, cur_ns: int)
    ensures
        pace_delay_spec(ReplaySpeed::Max, prev_ns, cur_ns) == 0,
{
}

/// Multiplier accuracy: for two events spaced by a gap whose scaled delay
/// exceeds one millisecond and fits the range, the honored wall-clock delay
/// is exactly the gap divided by the multiplier (in thousandths).
pub proof fn lemma_multiplier_accuracy(m: u64, prev_ns: int, cur_ns: int)
    requires
        m >= 1,
        prev_ns < cur_ns,
        (cur_ns - prev_ns) * 1000 / (m as int) > MIN_HONORED_DELAY_NS,
        (cur_ns - prev_ns) * 1000 / (m as int) <= u64::MAX,
    ensures
        pace_delay_spec(ReplaySpeed::Multiplier(m), prev_ns, cur_ns) as int == (cur_ns - prev_ns)
            * 1000 / (m as int),
{
}

/// The honored delay before an event, computed in fixed point.
fn pace_delay_ns(speed: &ReplaySpeed, prev_ns: i64, cur_ns: i64) -> (r: u64)
    ensures
        r == pace_delay_spec(*speed, prev_ns as int, cur_ns as int),
{
    let m: u64 = match speed {
        ReplaySpeed::Max => 0,
        ReplaySpeed::Realtime => 1000,
        ReplaySpeed::Multiplier(m) => *m,
    };
    if m == 0 || cur_ns <= prev_ns {
        return 0;
    }
    let delta: i128 = cur_ns as i128 - prev_ns as i128;
    let w: u128 = ((delta as u128) * 1000) / (m as u128);
    if w <= MIN_HONORED_DELAY_NS as u128 {
        0
    } else if w > u64::MAX as u128 {
        u64::MAX
    } else {
        w as u64
    }
}

// ============================================================================
// Virtual clock
// ============================================================================

/// Virtual time tracker for replay: the first and last event timestamps as
/// bounds, and the current position between them.
#[derive(Debug, Clone, Copy)]
pub struct VirtualClock {
    /// Current virtual time (nanoseconds).
    current_ns: i64,
    /// First event timestamp.
    start_ns: i64,
    /// Last event timestamp.
    end_ns: i64,
}

impl VirtualClock {
    /// Current virtual time.
    pub closed spec fn current_spec(self) -> i64 {
        self.current_ns
    }

    /// First event timestamp.
    pub closed spec fn start_spec(self) -> i64 {
        self.start_ns
    }

    /// Last event timestamp.
    pub closed spec fn end_spec(self) -> i64 {
        self.end_ns
    }

    /// Progress through the bounds in thousandths; a clock whose end does
    /// not lie after its start reads complete. A deliberate decision: a
    /// current time outside the bounds reads as the nearest bound rather
    /// than extrapolating outside 0..=1000 — the replay engine never drives
    /// the clock outside its bounds, and a clamped reading is what a
    /// progress display wants of a caller who does.
    pub open spec fn progress_permille_spec(self) -> int {
        if self.end_spec() <= self.start_spec() {
            1000
        } else {
            let lo = self.start_spec() as int;
            let hi = self.end_spec() as int;
            let c = if self.current_spec() < lo {
                lo
            } else if self.current_spec() > hi {
                hi
            } else {
                self.current_spec() as int
            };
            (c - lo) * 1000 / (hi - lo)
        }
    }

    /// A zeroed clock.
    pub fn new() -> (r: Self)
        ensures
            r.current_spec() == 0,
            r.start_spec() == 0,
            r.end_spec() == 0,
    {
        VirtualClock { current_ns: 0, start_ns: 0, end_ns: 0 }
    }

    /// Set the time bounds from an event stream; the current time rewinds to
    /// the start.
    pub fn set_bounds(&mut self, start_ns: i64, end_ns: i64)
        ensures
            final(self).start_spec() == start_ns,
            final(self).end_spec() == end_ns,
            final(self).current_spec() == start_ns,
    {
        self.start_ns = start_ns;
        self.end_ns = end_ns;
        self.current_ns = start_ns;
    }

    /// Advance the current time to a timestamp.
    pub fn advance_to(&mut self, timestamp_ns: i64)
        ensures
            final(self).current_spec() == timestamp_ns,
            final(self).start_spec() == old(self).start_spec(),
            final(self).end_spec() == old(self).end_spec(),
    {
        self.current_ns = timestamp_ns;
    }

    /// Current virtual time.
    pub fn current(&self) -> (r: i64)
        ensures
            r == self.current_spec(),
    {
        self.current_ns
    }

    /// First event timestamp of the bounds.
    pub fn start_ns(&self) -> (r: i64)
        ensures
            r == self.start_spec(),
    {
        self.start_ns
    }

    /// Last event timestamp of the bounds.
    pub fn end_ns(&self) -> (r: i64)
        ensures
            r == self.end_spec(),
    {
        self.end_ns
    }

    /// Progress through the bounds in thousandths: 0 at the start, 1000 at
    /// the end or on an empty span.
    pub fn progress_permille(&self) -> (r: i64)
        ensures
            r == self.progress_permille_spec(),
            0 <= r <= 1000,
    {
        if self.end_ns <= self.start_ns {
            return 1000;
        }
        let c: i64 = if self.current_ns < self.start_ns {
            self.start_ns
        } else if self.current_ns > self.end_ns {
            self.end_ns
        } else {
            self.current_ns
        };
        let diff: u128 = (c as i128 - self.start_ns as i128) as u128;
        let den: u128 = (self.end_ns as i128 - self.start_ns as i128) as u128;
        let q: u128 = diff * 1000 / den;
        proof {
            assert(diff * 1000 <= den * 1000) by (nonlinear_arith)
                requires
                    diff <= den,
            ;
            vstd::arithmetic::div_mod::lemma_div_is_ordered(
                diff as int * 1000,
                den as int * 1000,
                den as int,
            );
            vstd::arithmetic::div_mod::lemma_div_by_multiple(1000, den as int);
            vstd::arithmetic::div_mod::lemma_div_pos_is_pos(diff as int * 1000, den as int);
        }
        q as i64
    }
}

impl Default for VirtualClock {
    /// A zeroed clock.
    fn default() -> (r: Self)
        ensures
            r.current_spec() == 0,
            r.start_spec() == 0,
            r.end_spec() == 0,
    {
        VirtualClock::new()
    }
}

// ============================================================================
// Replay statistics
// ============================================================================

/// Statistics of one replay run.
#[derive(Debug, Clone, Copy)]
pub struct ReplayStats {
    /// Total events replayed.
    pub events_replayed: usize,
    /// Wall-clock time the run took, in nanoseconds.
    pub wall_time_ns: u64,
    /// Virtual time span of the batch (nanoseconds).
    pub virtual_time_span_ns: i64,
    /// Events per wall-clock second.
    pub events_per_second: u64,
    /// Effective speed versus real time, in thousandths.
    pub effective_speed_permille: u64,
}

/// Events per wall-clock second, zero-guarded and saturated.
pub open spec fn events_per_second_spec(n: int, wall_ns: int) -> u64 {
    if wall_ns <= 0 {
        0
    } else {
        let q = n * 1_000_000_000 / wall_ns;
        if q > u64::MAX {
            u64::MAX
        } else {
            q as u64
        }
    }
}

/// Effective speed versus real time in thousandths: the virtual span divided
/// by the wall time, zero-guarded and saturated.
pub open spec fn effective_speed_spec(span_ns: int, wall_ns: int) -> u64 {
    if wall_ns <= 0 || span_ns <= 0 {
        0
    } else {
        let q = span_ns * 1000 / wall_ns;
        if q > u64::MAX {
            u64::MAX
        } else {
            q as u64
        }
    }
}

fn compute_events_per_second(n: usize, wall_ns: u64) -> (r: u64)
    ensures
        r == events_per_second_spec(n as int, wall_ns as int),
{
    if wall_ns == 0 {
        return 0;
    }
    let q: u128 = (n as u128) * 1_000_000_000u128 / (wall_ns as u128);
    if q > u64::MAX as u128 {
        u64::MAX
    } else {
        q as u64
    }
}

fn compute_effective_speed(span_ns: i64, wall_ns: u64) -> (r: u64)
    ensures
        r == effective_speed_spec(span_ns as int, wall_ns as int),
{
    if wall_ns == 0 || span_ns <= 0 {
        return 0;
    }
    let q: u128 = (span_ns as u128) * 1000 / (wall_ns as u128);
    if q > u64::MAX as u128 {
        u64::MAX
    } else {
        q as u64
    }
}

#[verifier::external_type_specification]
#[verifier::external_body]
pub struct ExInstant(std::time::Instant);

/// Relies on std's `Instant::now`: an opaque reading of the monotonic clock.
#[verifier::external_body]
fn mono_now() -> std::time::Instant {
    std::time::Instant::now()
}

/// Relies on std's `Instant::elapsed`: the time since that reading.
#[verifier::external_body]
fn mono_elapsed(start: &std::time::Instant) -> core::time::Duration {
    start.elapsed()
}

/// Relies on std's `Duration::as_nanos`: the duration in whole nanoseconds.
#[verifier::external_body]
fn duration_as_nanos(d: &core::time::Duration) -> u128 {
    d.as_nanos()
}

// ============================================================================
// Stable chronological sort
// ============================================================================

/// Whether the envelopes are in ascending timestamp order.
pub open spec fn sorted_by_timestamp(s: Seq<EventEnvelope>) -> bool {
    forall|i: int, j: int|
        0 <= i < j < s.len() ==> (#[trigger] s[i]).timestamp_ns <= (#[trigger] s[j]).timestamp_ns
}

/// Insertion of an envelope into a sequence, after every element whose
/// timestamp does not exceed its own: on a sorted sequence this keeps the
/// order, and equal-timestamp elements keep their relative age.
pub open spec fn insert_sorted(s: Seq<EventEnvelope>, e: EventEnvelope) -> Seq<EventEnvelope>
    decreases s.len(),
{
    if s.len() == 0 {
        seq![e]
    } else if s.last().timestamp_ns <= e.timestamp_ns {
        s.push(e)
    } else {
        insert_sorted(s.drop_last(), e).push(s.last())
    }
}

/// Stable chronological sort: each element in turn is inserted after every
/// earlier-or-equal timestamp, so equal-timestamp entries keep their input
/// order.
pub open spec fn stable_sort_spec(s: Seq<EventEnvelope>) -> Seq<EventEnvelope>
    decreases s.len(),
{
    if s.len() == 0 {
        Seq::empty()
    } else {
        insert_sorted(stable_sort_spec(s.drop_last()), s.last())
    }
}

/// The timestamp bound of an insertion: the larger of the inserted
/// element's timestamp and the last (largest) of the sorted input.
pub open spec fn insert_bound(s: Seq<EventEnvelope>, e: EventEnvelope) -> int {
    if s.len() == 0 {
        e.timestamp_ns as int
    } else if s.last().timestamp_ns >= e.timestamp_ns {
        s.last().timestamp_ns as int
    } else {
        e.timestamp_ns as int
    }
}

proof fn lemma_insert_sorted_props(s: Seq<EventEnvelope>, e: EventEnvelope)
    requires
        sorted_by_timestamp(s),
    ensures
        sorted_by_timestamp(insert_sorted(s, e)),
        insert_sorted(s, e).to_multiset() == s.to_multiset().insert(e),
        insert_sorted(s, e).len() == s.len() + 1,
        forall|k: int|
            0 <= k < insert_sorted(s, e).len() ==> (#[trigger] insert_sorted(s, e)[k]).timestamp_ns
                <= insert_bound(s, e),
    decreases s.len(),
{
    broadcast use vstd::seq_lib::group_to_multiset_ensures;

    let t = insert_sorted(s, e);
    if s.len() == 0 {
        assert(t =~= Seq::empty().push(e));
        assert(Seq::<EventEnvelope>::empty().to_multiset() =~= Multiset::empty());
        assert(t.to_multiset() =~= s.to_multiset().insert(e));
    } else if s.last().timestamp_ns <= e.timestamp_ns {
        assert forall|i: int| 0 <= i < s.len() implies (#[trigger] s[i]).timestamp_ns
            <= e.timestamp_ns by {
            if i < s.len() - 1 {
                assert(s[i].timestamp_ns <= s[s.len() - 1].timestamp_ns);
            }
        }
        assert(t.to_multiset() =~= s.to_multiset().insert(e));
    } else {
        let dl = s.drop_last();
        assert(sorted_by_timestamp(dl));
        lemma_insert_sorted_props(dl, e);
        let inner = insert_sorted(dl, e);
        // Every element of the inner insertion stays at or below the last
        // element of s, so pushing it back keeps the order.
        assert(insert_bound(dl, e) <= s.last().timestamp_ns as int);
        assert(sorted_by_timestamp(t));
        // Multisets: push and drop_last commute with insertion.
        assert(s =~= dl.push(s.last()));
        assert(s.to_multiset() =~= dl.to_multiset().insert(s.last()));
        assert(t.to_multiset() =~= inner.to_multiset().insert(s.last()));
        assert(inner.to_multiset() =~= dl.to_multiset().insert(e));
        assert(t.to_multiset() =~= s.to_multiset().insert(e));
    }
}

/// The stable sort is a permutation of its input in ascending timestamp
/// order: loading events out of chronological order and replaying delivers
/// exactly the loaded batch, in ascending timestamp order.
pub proof fn lemma_stable_sort_properties(s: Seq<EventEnvelope>)
    ensures
        sorted_by_timestamp(stable_sort_spec(s)),
        stable_sort_spec(s).to_multiset() == s.to_multiset(),
        stable_sort_spec(s).len() == s.len(),
    decreases s.len(),
{
    broadcast use vstd::seq_lib::group_to_multiset_ensures;

    if s.len() == 0 {
        assert(stable_sort_spec(s) =~= Seq::empty());
        assert(Seq::<EventEnvelope>::empty().to_multiset() =~= Multiset::empty());
    } else {
        let dl = s.drop_last();
        lemma_stable_sort_properties(dl);
        lemma_insert_sorted_props(stable_sort_spec(dl), s.last());
        assert(s =~= dl.push(s.last()));
        assert(s.to_multiset() =~= dl.to_multiset().insert(s.last()));
        assert(stable_sort_spec(s).to_multiset() =~= s.to_multiset());
    }
}

proof fn lemma_insert_sorted_at(s: Seq<EventEnvelope>, e: EventEnvelope, p: int)
    requires
        0 <= p <= s.len(),
        forall|j: int| 0 <= j < p ==> (#[trigger] s[j]).timestamp_ns <= e.timestamp_ns,
        forall|j: int| p <= j < s.len() ==> (#[trigger] s[j]).timestamp_ns > e.timestamp_ns,
    ensures
        insert_sorted(s, e) == s.insert(p, e),
    decreases s.len(),
{
    if s.len() == 0 {
        assert(insert_sorted(s, e) =~= s.insert(0, e));
    } else if s.last().timestamp_ns <= e.timestamp_ns {
        assert(p == s.len());
        assert(insert_sorted(s, e) =~= s.insert(p, e));
    } else {
        let dl = s.drop_last();
        assert(p <= dl.len());
        lemma_insert_sorted_at(dl, e, p);
        assert(insert_sorted(s, e) =~= s.insert(p, e));
    }
}

/// Sort envelopes chronologically with a stable insertion sort.
#[verifier::loop_isolation(false)]
fn sort_events_by_timestamp(events: &mut Vec<EventEnvelope>)
    ensures
        final(events)@ == stable_sort_spec(old(events)@),
        sorted_by_timestamp(final(events)@),
        final(events)@.to_multiset() == old(events)@.to_multiset(),
        final(events)@.len() == old(events)@.len(),
{
    let ghost input = old(events)@;
    let mut out: Vec<EventEnvelope> = Vec::new();
    proof {
        assert(input.subrange(0, 0) =~= Seq::<EventEnvelope>::empty());
        assert(input.subrange(0, input.len() as int) =~= input);
    }
    while events.len() > 0
        invariant
            events@.len() <= input.len(),
            events@ == input.subrange(
                input.len() as int - events@.len() as int,
                input.len() as int,
            ),
            out@ == stable_sort_spec(
                input.subrange(0, input.len() as int - events@.len() as int),
            ),
            sorted_by_timestamp(out@),
        decreases events@.len(),
    {
        let ghost pre = events@;
        let ghost consumed = input.len() as int - pre.len() as int;
        let e = events.remove(0);
        proof {
            assert(pre[0] == input[consumed]);
            assert(e == input[consumed]);
            assert(events@ =~= input.subrange(consumed + 1, input.len() as int));
        }
        // Find the insertion point: everything from it onward is strictly
        // younger in virtual time.
        let mut p: usize = out.len();
        while p > 0 && out[p - 1].timestamp_ns > e.timestamp_ns
            invariant
                p <= out@.len(),
                forall|j: int|
                    p <= j < out@.len() ==> (#[trigger] out@[j]).timestamp_ns > e.timestamp_ns,
            decreases p,
        {
            p = p - 1;
        }
        proof {
            assert forall|j: int| 0 <= j < p implies (#[trigger] out@[j]).timestamp_ns
                <= e.timestamp_ns by {
                assert(out@[j].timestamp_ns <= out@[p - 1].timestamp_ns);
            }
            lemma_insert_sorted_at(out@, e, p as int);
            lemma_insert_sorted_props(out@, e);
        }
        out.insert(p, e);
        proof {
            let done = input.subrange(0, consumed + 1);
            assert(done.drop_last() =~= input.subrange(0, consumed));
            assert(done.last() == input[consumed]);
            assert(out@ == insert_sorted(stable_sort_spec(input.subrange(0, consumed)), e));
            assert(out@ == stable_sort_spec(done));
        }
    }
    proof {
        assert(input.subrange(0, input.len() as int) =~= input);
        lemma_stable_sort_properties(input);
    }
    *events = out;
}


// ============================================================================
// The replay engine
// ============================================================================

/// Number of leading envelopes whose timestamp does not exceed the bound:
/// on a chronologically sorted batch, the split point of `run_until`.
pub open spec fn prefix_le(s: Seq<EventEnvelope>, end_ns: i64) -> int
    decreases s.len(),
{
    if s.len() == 0 {
        0
    } else if s[0].timestamp_ns <= end_ns {
        1 + prefix_le(s.drop_first(), end_ns)
    } else {
        0
    }
}

proof fn lemma_prefix_le(s: Seq<EventEnvelope>, end_ns: i64, p: int)
    requires
        0 <= p <= s.len(),
        forall|j: int| 0 <= j < p ==> (#[trigger] s[j]).timestamp_ns <= end_ns,
        p < s.len() ==> s[p].timestamp_ns > end_ns,
    ensures
        prefix_le(s, end_ns) == p,
    decreases p,
{
    if s.len() > 0 {
        if p == 0 {
        } else {
            let sd = s.drop_first();
            assert forall|j: int| 0 <= j < p - 1 implies (#[trigger] sd[j]).timestamp_ns
                <= end_ns by {
                assert(sd[j] == s[j + 1]);
            }
            assert(p - 1 < sd.len() ==> sd[p - 1].timestamp_ns > end_ns);
            lemma_prefix_le(sd, end_ns, p - 1);
        }
    }
}

/// What one run does to the bus: the id counter advances once per event, and
/// the publish log is extended by exactly the batch's payloads, in batch
/// order, at the default priority.
pub open spec fn run_publishes(
    pre_bus: EventBus,
    post_bus: EventBus,
    batch: Seq<EventEnvelope>,
) -> bool {
    let n = batch.len() as int;
    let base = pre_bus.log_view().len() as int;
    &&& post_bus.next_id_spec() == pre_bus.next_id_spec() + n
    &&& post_bus.log_view().len() == base + n
    &&& post_bus.log_view().subrange(0, base) == pre_bus.log_view()
    &&& (forall|k: int|
        0 <= k < n ==> (#[trigger] post_bus.log_view()[base + k]).event == batch[k].event@)
    &&& (forall|k: int|
        0 <= k < n ==> (#[trigger] post_bus.log_view()[base + k]).id == pre_bus.next_id_spec()
            + k)
    &&& (forall|k: int|
        0 <= k < n ==> (#[trigger] post_bus.log_view()[base + k]).priority == DEFAULT_PRIORITY)
    &&& (post_bus.recorder_spec() is Some) == (pre_bus.recorder_spec() is Some)
}

/// Event replayer: feeds a sorted batch of historical envelopes back through
/// the dynamic bus under the virtual clock.
pub struct EventReplay {
    bus: EventBus,
    speed: ReplaySpeed,
    events: Vec<EventEnvelope>,
    clock: VirtualClock,
    progress_interval: usize,
    /// Keeps the pacing channel open so that waits run their full timeout.
    pace_keepalive: flume::Sender<u8>,
    /// An always-empty channel used for bounded waits.
    pace_idle: flume::Receiver<u8>,
}

impl EventReplay {
    /// The bus replayed into.
    pub closed spec fn bus_spec(self) -> EventBus {
        self.bus
    }

    /// The selected pacing speed.
    pub closed spec fn speed_spec(self) -> ReplaySpeed {
        self.speed
    }

    /// The loaded batch, in replay order.
    pub closed spec fn events_seq(self) -> Seq<EventEnvelope> {
        self.events@
    }

    /// The virtual clock.
    pub closed spec fn clock_spec(self) -> VirtualClock {
        self.clock
    }

    /// Events between progress reports.
    pub closed spec fn progress_interval_spec(self) -> usize {
        self.progress_interval
    }

    /// Structural invariant: the bus is well formed and the loaded batch is
    /// chronologically sorted.
    pub open spec fn wf(self) -> bool {
        &&& self.bus_spec().wf()
        &&& sorted_by_timestamp(self.events_seq())
    }

    /// Create a new replayer over a bus, with nothing loaded.
    pub fn new(bus: EventBus, speed: ReplaySpeed) -> (r: Self)
        requires
            bus.wf(),
        ensures
            r.wf(),
            r.bus_spec() == bus,
            r.speed_spec() == speed,
            r.events_seq() == Seq::<EventEnvelope>::empty(),
            r.clock_spec().current_spec() == 0,
            r.clock_spec().start_spec() == 0,
            r.clock_spec().end_spec() == 0,
            r.progress_interval_spec() == DEFAULT_PROGRESS_INTERVAL,
    {
        let (pace_keepalive, pace_idle) = crate::fast_channel::flume_bounded::<u8>(1);
        let r = EventReplay {
            bus,
            speed,
            events: Vec::new(),
            clock: VirtualClock::new(),
            progress_interval: DEFAULT_PROGRESS_INTERVAL,
            pace_keepalive,
            pace_idle,
        };
        proof {
            assert(r.events_seq() =~= Seq::<EventEnvelope>::empty());
        }
        r
    }

    /// Load a batch for replay: it is sorted chronologically with a stable
    /// sort (equal timestamps keep their input order) and the virtual clock
    /// is bounded by the first and last timestamps.
    pub fn load_events(&mut self, events: Vec<EventEnvelope>)
        ensures
            final(self).events_seq() == stable_sort_spec(events@),
            sorted_by_timestamp(final(self).events_seq()),
            final(self).events_seq().to_multiset() == events@.to_multiset(),
            final(self).events_seq().len() == events@.len(),
            final(self).bus_spec() == old(self).bus_spec(),
            final(self).speed_spec() == old(self).speed_spec(),
            final(self).progress_interval_spec() == old(self).progress_interval_spec(),
            events@.len() > 0 ==> final(self).clock_spec().start_spec() == final(self).events_seq().first().timestamp_ns && final(self).clock_spec().end_spec() == final(self).events_seq().last().timestamp_ns && final(self).clock_spec().current_spec()
                == final(self).events_seq().first().timestamp_ns,
            events@.len() == 0 ==> final(self).clock_spec() == old(self).clock_spec(),
    {
        let mut evs = events;
        sort_events_by_timestamp(&mut evs);
        if evs.len() > 0 {
            let first_ns = evs[0].timestamp_ns;
            let last_ns = evs[evs.len() - 1].timestamp_ns;
            self.clock.set_bounds(first_ns, last_ns);
        }
        self.events = evs;
    }

    /// The virtual clock.
    pub fn clock(&self) -> (r: &VirtualClock)
        ensures
            *r == self.clock_spec(),
    {
        &self.clock
    }

    /// Number of loaded events.
    pub fn event_count(&self) -> (r: usize)
        ensures
            r == self.events_seq().len(),
    {
        self.events.len()
    }

    /// Whether a progress report is due after this many events: at every
    /// positive multiple of the report interval.
    pub fn should_report_progress(index: usize, interval: usize) -> (r: bool)
        requires
            interval >= 1,
        ensures
            r == (index > 0 && index % interval == 0),
    {
        index > 0 && index % interval == 0
    }

    /// Whether the machine-limit preconditions of [`Self::run`] hold: the
    /// bus's id counter has room for the whole batch, and the batch's
    /// timestamp span fits the signed range. Callers outside verified code
    /// check this before running.
    pub fn can_run(&self) -> (r: bool)
        requires
            self.wf(),
        ensures
            r == (self.bus_spec().next_id_spec() as int + self.events_seq().len()
                <= u64::MAX as int && (self.events_seq().len() > 0
                ==> self.events_seq().last().timestamp_ns as int - self.events_seq().first().timestamp_ns as int
                <= i64::MAX as int)),
    {
        let n = self.events.len();
        let id_room = self.bus.next_publish_id() <= u64::MAX - (n as u64);
        if n == 0 {
            return id_room;
        }
        let first_ns = self.events[0].timestamp_ns;
        let last_ns = self.events[n - 1].timestamp_ns;
        let span_fits = (last_ns as i128) - (first_ns as i128) <= i64::MAX as i128;
        id_room && span_fits
    }

    /// The pacing delay the engine honors before the event at this position:
    /// zero for the first event, else the delay computed from the previous
    /// event's timestamp gap and the selected speed.
    pub fn next_delay_ns(&self, index: usize) -> (r: u64)
        requires
            index < self.events_seq().len(),
        ensures
            index == 0 ==> r == 0,
            index > 0 ==> r == pace_delay_spec(
                self.speed_spec(),
                self.events_seq()[index as int - 1].timestamp_ns as int,
                self.events_seq()[index as int].timestamp_ns as int,
            ),
    {
        if index == 0 {
            return 0;
        }
        pace_delay_ns(
            &self.speed,
            self.events[index - 1].timestamp_ns,
            self.events[index].timestamp_ns,
        )
    }

    /// One replay step without its pacing delay: the virtual clock advances
    /// to the event's timestamp and the event's payload is published through
    /// the bus at the default priority. A copy of the loaded envelope comes
    /// back, so an outside driver can hand it to a per-event callback.
    /// Together with [`Self::next_delay_ns`], [`Self::should_report_progress`]
    /// and the clock accessors, this lets an outside loop replay a batch
    /// step by step with callbacks between events.
    pub fn publish_event(&mut self, index: usize) -> (r: EventEnvelope)
        requires
            old(self).wf(),
            index < old(self).events_seq().len(),
            old(self).bus_spec().next_id_spec() < u64::MAX,
        ensures
            final(self).wf(),
            final(self).events_seq() == old(self).events_seq(),
            final(self).speed_spec() == old(self).speed_spec(),
            final(self).progress_interval_spec() == old(self).progress_interval_spec(),
            r@ == old(self).events_seq()[index as int]@,
            EventBus::publish_post(
                old(self).bus_spec(),
                final(self).bus_spec(),
                old(self).events_seq()[index as int].event@,
                DEFAULT_PRIORITY,
            ),
            final(self).clock_spec().current_spec() == old(self).events_seq()[
                index as int
            ].timestamp_ns,
            final(self).clock_spec().start_spec() == old(self).clock_spec().start_spec(),
            final(self).clock_spec().end_spec() == old(self).clock_spec().end_spec(),
    {
        let ts = self.events[index].timestamp_ns;
        self.clock.advance_to(ts);
        let envelope = self.events[index].clone();
        let payload = self.events[index].event.clone();
        let _ = self.bus.publish(payload);
        envelope
    }

    /// Run the replay: every loaded event is published through the bus in
    /// chronological order, the virtual clock advancing to each timestamp.
    /// Under a paced speed the wall-clock delay between two events is the
    /// virtual gap divided by the multiplier, honored only when it exceeds
    /// one millisecond. A failed publish is non-fatal; the run continues.
    /// The batch stays loaded.
    #[verifier::loop_isolation(false)]
    pub fn run(&mut self) -> (r: ReplayStats)
        requires
            old(self).wf(),
            old(self).bus_spec().next_id_spec() as int + old(self).events_seq().len()
                <= u64::MAX as int,
            old(self).events_seq().len() > 0 ==> old(self).events_seq().last().timestamp_ns as int
                - old(self).events_seq().first().timestamp_ns as int <= i64::MAX as int,
        ensures
            final(self).wf(),
            final(self).events_seq() == old(self).events_seq(),
            final(self).speed_spec() == old(self).speed_spec(),
            final(self).progress_interval_spec() == old(self).progress_interval_spec(),
            r.events_replayed == old(self).events_seq().len(),
            r.virtual_time_span_ns as int == if old(self).events_seq().len() == 0 {
                0
            } else {
                old(self).events_seq().last().timestamp_ns as int - old(self).events_seq().first().timestamp_ns as int
            },
            r.events_per_second == events_per_second_spec(
                r.events_replayed as int,
                r.wall_time_ns as int,
            ),
            r.effective_speed_permille == effective_speed_spec(
                r.virtual_time_span_ns as int,
                r.wall_time_ns as int,
            ),
            run_publishes(old(self).bus_spec(), final(self).bus_spec(), old(self).events_seq()),
            old(self).events_seq().len() == 0 ==> final(self).bus_spec() == old(self).bus_spec()
                && final(self).clock_spec() == old(self).clock_spec() && r.wall_time_ns == 0,
            old(self).events_seq().len() > 0 ==> final(self).clock_spec().current_spec() == old(self).events_seq().last().timestamp_ns && final(self).clock_spec().start_spec() == old(self).clock_spec().start_spec() && final(self).clock_spec().end_spec() == old(self).clock_spec().end_spec(),
    {
        let total = self.events.len();
        if total == 0 {
            proof {
                assert(self.bus.log_view().subrange(0, self.bus.log_view().len() as int) =~= self.bus.log_view());
            }
            return ReplayStats {
                events_replayed: 0,
                wall_time_ns: 0,
                virtual_time_span_ns: 0,
                events_per_second: 0,
                effective_speed_permille: 0,
            };
        }
        let wall_start = mono_now();
        let first_ns = self.events[0].timestamp_ns;
        let last_ns = self.events[total - 1].timestamp_ns;
        let virtual_span = last_ns - first_ns;
        let ghost base = self.bus.log_view().len() as int;
        let mut i: usize = 0;
        while i < total
            invariant
                total == old(self).events_seq().len(),
                i <= total,
                self.events@ == old(self).events_seq(),
                self.speed == old(self).speed_spec(),
                self.progress_interval == old(self).progress_interval_spec(),
                self.pace_idle == old(self).pace_idle,
                self.bus.wf(),
                sorted_by_timestamp(self.events@),
                base == old(self).bus_spec().log_view().len() as int,
                self.bus.next_id_spec() == old(self).bus_spec().next_id_spec() + i,
                self.bus.log_view().len() == base + i,
                self.bus.log_view().subrange(0, base) == old(self).bus_spec().log_view(),
                forall|k: int|
                    0 <= k < i ==> (#[trigger] self.bus.log_view()[base + k]).event
                        == old(self).events_seq()[k].event@,
                forall|k: int|
                    0 <= k < i ==> (#[trigger] self.bus.log_view()[base + k]).id == old(self).bus_spec().next_id_spec() + k,
                forall|k: int|
                    0 <= k < i ==> (#[trigger] self.bus.log_view()[base + k]).priority
                        == DEFAULT_PRIORITY,
                (self.bus.recorder_spec() is Some) == (old(self).bus_spec().recorder_spec()
                    is Some),
                self.clock.start_spec() == old(self).clock_spec().start_spec(),
                self.clock.end_spec() == old(self).clock_spec().end_spec(),
                i == 0 ==> self.clock == old(self).clock_spec(),
                i > 0 ==> self.clock.current_spec() == self.events@[i - 1].timestamp_ns,
            decreases total - i,
        {
            let ts = self.events[i].timestamp_ns;
            self.clock.advance_to(ts);
            if i > 0 {
                let prev_ns = self.events[i - 1].timestamp_ns;
                let mut wait = pace_delay_ns(&self.speed, prev_ns, ts);
                while wait > 0
                    invariant
                        self.pace_idle == old(self).pace_idle,
                    decreases wait,
                {
                    let chunk = if wait > MAX_WAIT_CHUNK_NS {
                        MAX_WAIT_CHUNK_NS
                    } else {
                        wait
                    };
                    flume_wait_timeout_ns(&self.pace_idle, chunk);
                    wait = wait - chunk;
                }
            }
            let payload = self.events[i].event.clone();
            let ghost pre_bus = self.bus;
            let _ = self.bus.publish(payload);
            proof {
                assert(self.bus.log_view() == pre_bus.log_view().push(
                    self.bus.log_view().last(),
                ));
                assert(self.bus.log_view().subrange(0, base) =~= pre_bus.log_view().subrange(
                    0,
                    base,
                ));
                assert(self.bus.log_view()[base + i] == self.bus.log_view().last());
            }
            i = i + 1;
        }
        let elapsed_time = mono_elapsed(&wall_start);
        let elapsed = duration_as_nanos(&elapsed_time);
        let wall_time_ns: u64 = if elapsed > u64::MAX as u128 {
            u64::MAX
        } else {
            elapsed as u64
        };
        let events_per_second = compute_events_per_second(total, wall_time_ns);
        let effective_speed_permille = compute_effective_speed(virtual_span, wall_time_ns);
        ReplayStats {
            events_replayed: total,
            wall_time_ns,
            virtual_time_span_ns: virtual_span,
            events_per_second,
            effective_speed_permille,
        }
    }

    /// Run the replay only up to a virtual timestamp: the loaded batch is
    /// split at the first timestamp exceeding the bound, the prefix is run,
    /// and the unplayed suffix is reattached for a later call.
    #[verifier::loop_isolation(false)]
    pub fn run_until(&mut self, end_ns: i64) -> (r: ReplayStats)
        requires
            old(self).wf(),
            old(self).bus_spec().next_id_spec() as int + old(self).events_seq().len()
                <= u64::MAX as int,
            old(self).events_seq().len() > 0 ==> old(self).events_seq().last().timestamp_ns as int
                - old(self).events_seq().first().timestamp_ns as int <= i64::MAX as int,
        ensures
            final(self).wf(),
            final(self).events_seq() == old(self).events_seq(),
            final(self).speed_spec() == old(self).speed_spec(),
            final(self).progress_interval_spec() == old(self).progress_interval_spec(),
            r.events_replayed == prefix_le(old(self).events_seq(), end_ns),
            run_publishes(
                old(self).bus_spec(),
                final(self).bus_spec(),
                old(self).events_seq().subrange(0, prefix_le(old(self).events_seq(), end_ns)),
            ),
            r.events_per_second == events_per_second_spec(
                r.events_replayed as int,
                r.wall_time_ns as int,
            ),
            r.effective_speed_permille == effective_speed_spec(
                r.virtual_time_span_ns as int,
                r.wall_time_ns as int,
            ),
    {
        let ghost input = self.events@;
        let mut cut: usize = 0;
        while cut < self.events.len() && self.events[cut].timestamp_ns <= end_ns
            invariant
                cut <= self.events@.len(),
                self.events@ == input,
                forall|j: int| 0 <= j < cut ==> (#[trigger] input[j]).timestamp_ns <= end_ns,
            decreases self.events@.len() - cut,
        {
            cut = cut + 1;
        }
        proof {
            lemma_prefix_le(input, end_ns, cut as int);
        }
        let suffix = self.events.split_off(cut);
        proof {
            assert(self.events@ == input.subrange(0, cut as int));
            assert(sorted_by_timestamp(self.events@));
            if cut > 0 {
                assert(self.events@.last() == input[cut - 1]);
                assert(self.events@.first() == input[0]);
                assert(input[cut - 1].timestamp_ns <= input[input.len() - 1].timestamp_ns);
            }
        }
        let stats = self.run();
        let mut rest = suffix;
        self.events.append(&mut rest);
        proof {
            assert(self.events@ =~= input);
        }
        stats
    }
}

/// Builder assembling a replayer: bus, speed, initial events and progress
/// interval.
pub struct EventReplayBuilder {
    bus: EventBus,
    speed: ReplaySpeed,
    events: Vec<EventEnvelope>,
    progress_interval: usize,
}

impl EventReplayBuilder {
    /// The bus the replayer will publish into.
    pub closed spec fn bus_spec(self) -> EventBus {
        self.bus
    }

    /// The selected speed.
    pub closed spec fn speed_spec(self) -> ReplaySpeed {
        self.speed
    }

    /// The initial batch.
    pub closed spec fn events_seq(self) -> Seq<EventEnvelope> {
        self.events@
    }

    /// Events between progress reports.
    pub closed spec fn progress_interval_spec(self) -> usize {
        self.progress_interval
    }

    /// Start a builder over a bus: maximum speed, no events, the default
    /// progress interval.
    pub fn new(bus: EventBus) -> (r: Self)
        ensures
            r.bus_spec() == bus,
            r.speed_spec() == ReplaySpeed::Max,
            r.events_seq() == Seq::<EventEnvelope>::empty(),
            r.progress_interval_spec() == DEFAULT_PROGRESS_INTERVAL,
    {
        let r = EventReplayBuilder {
            bus,
            speed: ReplaySpeed::Max,
            events: Vec::new(),
            progress_interval: DEFAULT_PROGRESS_INTERVAL,
        };
        proof {
            assert(r.events_seq() =~= Seq::<EventEnvelope>::empty());
        }
        r
    }

    /// Select the replay speed.
    pub fn speed(self, speed: ReplaySpeed) -> (r: Self)
        ensures
            r.speed_spec() == speed,
            r.bus_spec() == self.bus_spec(),
            r.events_seq() == self.events_seq(),
            r.progress_interval_spec() == self.progress_interval_spec(),
    {
        EventReplayBuilder { speed, ..self }
    }

    /// Provide the initial batch of events.
    pub fn events(self, events: Vec<EventEnvelope>) -> (r: Self)
        ensures
            r.events_seq() == events@,
            r.bus_spec() == self.bus_spec(),
            r.speed_spec() == self.speed_spec(),
            r.progress_interval_spec() == self.progress_interval_spec(),
    {
        EventReplayBuilder { events, ..self }
    }

    /// Select the number of events between progress reports.
    pub fn progress_interval(self, interval: usize) -> (r: Self)
        ensures
            r.progress_interval_spec() == interval,
            r.bus_spec() == self.bus_spec(),
            r.speed_spec() == self.speed_spec(),
            r.events_seq() == self.events_seq(),
    {
        EventReplayBuilder { progress_interval: interval, ..self }
    }

    /// Assemble the replayer; a non-empty initial batch is loaded (and
    /// thereby sorted) right away, which also bounds the virtual clock by
    /// the batch's first and last timestamps.
    pub fn build(self) -> (r: EventReplay)
        requires
            self.bus_spec().wf(),
        ensures
            r.wf(),
            r.bus_spec() == self.bus_spec(),
            r.speed_spec() == self.speed_spec(),
            r.events_seq() == stable_sort_spec(self.events_seq()),
            r.progress_interval_spec() == self.progress_interval_spec(),
            self.events_seq().len() > 0 ==> r.clock_spec().start_spec() == r.events_seq().first().timestamp_ns
                && r.clock_spec().end_spec() == r.events_seq().last().timestamp_ns
                && r.clock_spec().current_spec() == r.events_seq().first().timestamp_ns,
            self.events_seq().len() == 0 ==> r.clock_spec().start_spec() == 0
                && r.clock_spec().end_spec() == 0 && r.clock_spec().current_spec() == 0,
    {
        let interval = self.progress_interval;
        let has_events = self.events.len() > 0;
        let ghost initial = self.events@;
        let mut replay = EventReplay::new(self.bus, self.speed);
        replay.progress_interval = interval;
        if has_events {
            replay.load_events(self.events);
        } else {
            proof {
                assert(stable_sort_spec(initial) =~= Seq::<EventEnvelope>::empty());
            }
        }
        replay
    }
}

} // verus!
