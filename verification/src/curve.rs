use crate::events::MorphCurve;
use crate::model::{DEFAULT_VALUE, MAX_U7, PROGRESS_ONE};
use vstd::arithmetic::div_mod::{
    lemma_div_is_ordered, lemma_div_pos_is_pos, lemma_fundamental_div_mod, lemma_mod_bound,
    lemma_multiply_divide_lt,
};
use vstd::prelude::*;

verus! {

/// The tempo that holds when the tempo clock gives none: 120 beats per
/// minute, in thousandths.
pub const DEFAULT_TEMPO: u32 = 120_000;

/// A bar has four beats.
pub const BEATS_PER_BAR: u64 = 4;

/// Microseconds that `BEATS_PER_BAR` beats take at one thousandth of a beat
/// per minute.
pub const BAR_MICROS_AT_UNIT_TEMPO: u64 = 240_000_000_000;

/// The part of a morph that has passed after `elapsed` of `total`
/// microseconds, in millionths, rounded down. A morph of no length is over at
/// once.
pub open spec fn progress_of(elapsed: int, total: int) -> int {
    if total <= 0 || elapsed >= total {
        PROGRESS_ONE as int
    } else if elapsed <= 0 {
        0
    } else {
        elapsed * 1_000_000 / total
    }
}

/// The tempo to go by, in thousandths of a beat per minute: what the tempo
/// clock answered, or the default where it gave no answer or none above zero.
pub open spec fn tempo_or_default(reply: Option<u32>) -> u32 {
    match reply {
        Some(tempo) => if tempo > 0 {
            tempo
        } else {
            DEFAULT_TEMPO
        },
        None => DEFAULT_TEMPO,
    }
}

/// The length of a morph in microseconds: `bars` bars of four beats at
/// `tempo` thousandths of a beat per minute, rounded down.
pub open spec fn morph_micros(bars: u8, tempo: u32) -> int {
    bars * 240_000_000_000 / (tempo as int)
}

/// Whether `r` is the largest number whose square is at most `n`.
pub open spec fn is_floor_sqrt(n: nat, r: nat) -> bool {
    r * r <= n < (r + 1) * (r + 1)
}

/// The largest `r` with `r * r <= n`.
pub open spec fn floor_sqrt(n: nat) -> nat {
    choose|r: nat| is_floor_sqrt(n, r)
}

/// The numerator of the lower S-curve at `u = p²`.
pub open spec fn s_curve_num(u: int) -> int {
    u * (986_958_403_264_000_000_000 - 376_023_798 * u)
}

/// The denominator of the lower S-curve at `u = p²`.
pub open spec fn s_curve_den(u: int) -> int {
    400_000_000_000_000_000_000_000_000_000_000 + 176_557_083_514_000_000_000 * u + 37_391_852 * (u
        * u)
}

/// The lower half of the S-curve `(1 - cos(πp)) / 2`, for progress up to the
/// half, held at the half.
///
/// The cosine form is taken as a quotient of two polynomials in `w = p²`,
/// `w(a - bw) / (1 + dw + ew²)` with a = 2.467396, b = 0.940059,
/// d = 0.441393 and e = 0.093480: of all quotients of this shape the one
/// that stays closest to the cosine form up to the half, nowhere further than
/// 0.00000004 from it. Numerator and denominator are those of this quotient,
/// times 4·10³² and the scales of the fixed point.
pub open spec fn s_curve_lower(p: int) -> int {
    let eased = 1_000_000 * s_curve_num(p * p) / s_curve_den(p * p);
    if eased > 500_000 {
        500_000
    } else {
        eased
    }
}

/// Progress `p` (millionths, 0 to the whole) after easing, in millionths,
/// rounded down.
///
/// Linear is `p`, exponential `p²`, logarithmic `√p`. The S-curve is
/// `s_curve_lower` up to the half and its mirror image above it.
pub open spec fn curved(p: int, curve: MorphCurve) -> int {
    match curve {
        MorphCurve::Linear => p,
        MorphCurve::Exponential => p * p / 1_000_000,
        MorphCurve::Logarithmic => floor_sqrt((p * 1_000_000) as nat) as int,
        MorphCurve::SCurve => if 2 * p <= 1_000_000 {
            s_curve_lower(p)
        } else {
            1_000_000 - s_curve_lower(1_000_000 - p)
        },
    }
}

/// The value on the way from `from` to `to` at eased progress `c`
/// (millionths): `from + (to - from) * c`, rounded to the nearest integer,
/// halves upwards, and held within 0 to 127.
pub open spec fn interpolated(from: int, to: int, c: int) -> int {
    let rounded = (2 * (from * 1_000_000 + (to - from) * c) + 1_000_000) / 2_000_000;
    if rounded > 127 {
        127
    } else if rounded < 0 {
        0
    } else {
        rounded
    }
}

/// Entry `i` of `values`, or the mid-point where there is none.
pub open spec fn value_or_default(values: Seq<u8>, i: int) -> u8 {
    if 0 <= i < values.len() {
        values[i]
    } else {
        DEFAULT_VALUE
    }
}

/// The values of `n` parameters on the way from `from` to `to` at eased
/// progress `c`.
pub open spec fn interpolated_values(from: Seq<u8>, to: Seq<u8>, c: int, n: nat) -> Seq<u8> {
    Seq::new(
        n,
        |i: int| interpolated(value_or_default(from, i) as int, value_or_default(to, i) as int, c) as u8,
    )
}

/// The square root is unique: two numbers that both bracket `n` are one.
pub proof fn lemma_floor_sqrt_unique(n: nat, a: nat, b: nat)
    requires
        is_floor_sqrt(n, a),
        is_floor_sqrt(n, b),
    ensures
        a == b,
{
    if a < b {
        assert((a + 1) * (a + 1) <= b * b) by (nonlinear_arith)
            requires
                a + 1 <= b,
        ;
    } else if b < a {
        assert((b + 1) * (b + 1) <= a * a) by (nonlinear_arith)
            requires
                b + 1 <= a,
        ;
    }
}

/// A number that brackets `n` is its square root.
pub proof fn lemma_floor_sqrt_is(n: nat, r: nat)
    requires
        is_floor_sqrt(n, r),
    ensures
        floor_sqrt(n) == r,
{
    let c = floor_sqrt(n);
    assert(is_floor_sqrt(n, c));
    lemma_floor_sqrt_unique(n, c, r);
}

/// Later is further: progress never decreases as time passes.
pub proof fn lemma_progress_monotonic(earlier: int, later: int, total: int)
    requires
        earlier <= later,
    ensures
        0 <= progress_of(earlier, total) <= progress_of(later, total) <= PROGRESS_ONE,
{
    lemma_progress_in_range(earlier, total);
    lemma_progress_in_range(later, total);
    if total > 0 && later < total && earlier > 0 {
        lemma_div_is_ordered(earlier * 1_000_000, later * 1_000_000, total);
    }
}

/// Progress lies within nothing and the whole, and is the whole exactly from
/// the morph's end on.
pub proof fn lemma_progress_in_range(elapsed: int, total: int)
    ensures
        0 <= progress_of(elapsed, total) <= PROGRESS_ONE,
        progress_of(elapsed, total) == PROGRESS_ONE <==> (total <= 0 || elapsed >= total),
{
    if total > 0 && 0 < elapsed < total {
        lemma_multiply_divide_lt(elapsed * 1_000_000, total, 1_000_000);
        lemma_div_pos_is_pos(elapsed * 1_000_000, total);
    }
}

/// At the default tempo a bar takes two seconds.
pub proof fn lemma_default_tempo_bar(bars: u8)
    ensures
        morph_micros(bars, tempo_or_default(None)) == bars * 2_000_000,
        morph_micros(bars, tempo_or_default(Some(0))) == bars * 2_000_000,
{
    let whole = bars * 2_000_000;
    assert(bars * 240_000_000_000 == whole * 120_000);
    assert(whole * 120_000 / 120_000 == whole);
}

/// Every curve keeps progress within nothing and the whole.
pub proof fn lemma_curved_in_range(p: int, curve: MorphCurve)
    requires
        0 <= p <= PROGRESS_ONE,
    ensures
        0 <= curved(p, curve) <= PROGRESS_ONE,
{
    match curve {
        MorphCurve::Linear => {},
        MorphCurve::Exponential => {
            assert(0 <= p * p <= 1_000_000_000_000) by (nonlinear_arith)
                requires
                    0 <= p <= 1_000_000,
            ;
        },
        MorphCurve::Logarithmic => {
            let n = (p * 1_000_000) as nat;
            lemma_floor_sqrt_exists(n);
            let r = floor_sqrt(n);
            assert(r <= 1_000_000) by (nonlinear_arith)
                requires
                    r * r <= n,
                    n <= 1_000_000_000_000,
            ;
        },
        MorphCurve::SCurve => {
            if 2 * p <= 1_000_000 {
                lemma_s_curve_lower_in_range(p);
            } else {
                lemma_s_curve_lower_in_range(1_000_000 - p);
            }
        },
    }
}

/// Every natural number has a square root.
pub proof fn lemma_floor_sqrt_exists(n: nat)
    ensures
        is_floor_sqrt(n, floor_sqrt(n)),
        floor_sqrt(n) * floor_sqrt(n) <= n,
    decreases n,
{
    if n == 0 {
        assert(is_floor_sqrt(n, 0)) by (nonlinear_arith)
            requires
                n == 0,
        ;
    } else {
        lemma_floor_sqrt_exists((n - 1) as nat);
        let r = floor_sqrt((n - 1) as nat);
        if (r + 1) * (r + 1) <= n {
            assert(is_floor_sqrt(n, r + 1)) by (nonlinear_arith)
                requires
                    (r + 1) * (r + 1) <= n,
                    n - 1 < (r + 1) * (r + 1),
            ;
        } else {
            assert(is_floor_sqrt(n, r));
        }
    }
}

/// Up to the half, numerator and denominator of the lower S-curve are not
/// negative, and the denominator is above zero.
pub proof fn lemma_s_curve_parts(u: int)
    requires
        0 <= u <= 250_000_000_000,
    ensures
        0 <= s_curve_num(u) <= 250_000_000_000_000_000_000_000_000_000_000,
        0 < s_curve_den(u) <= 450_000_000_000_000_000_000_000_000_000_000,
{
    let inner = 986_958_403_264_000_000_000 - 376_023_798 * u;
    assert(0 <= u * inner <= 250_000_000_000 * 986_958_403_264_000_000_000) by (nonlinear_arith)
        requires
            0 <= u <= 250_000_000_000,
            0 <= inner <= 986_958_403_264_000_000_000,
    ;
    assert(0 <= u * u <= 62_500_000_000_000_000_000_000) by (nonlinear_arith)
        requires
            0 <= u <= 250_000_000_000,
    ;
}

/// Up to the half, the lower S-curve stays within nothing and the half.
pub proof fn lemma_s_curve_lower_in_range(p: int)
    requires
        0 <= p,
        2 * p <= PROGRESS_ONE,
    ensures
        0 <= s_curve_lower(p),
        2 * s_curve_lower(p) <= PROGRESS_ONE,
{
    let u = p * p;
    assert(0 <= u <= 250_000_000_000) by (nonlinear_arith)
        requires
            0 <= p <= 500_000,
            u == p * p,
    ;
    lemma_s_curve_parts(u);
    lemma_div_pos_is_pos(1_000_000 * s_curve_num(u), s_curve_den(u));
}

/// Every curve starts at nothing and ends at the whole.
pub proof fn lemma_curve_endpoints(curve: MorphCurve)
    ensures
        curved(0, curve) == 0,
        curved(PROGRESS_ONE as int, curve) == PROGRESS_ONE,
{
    assert(0int * 0int == 0);
    assert(1_000_000int * 1_000_000int == 1_000_000_000_000int);
    assert(is_floor_sqrt(0, 0)) by (nonlinear_arith);
    lemma_floor_sqrt_is(0, 0);
    assert(is_floor_sqrt(1_000_000_000_000, 1_000_000)) by (nonlinear_arith);
    lemma_floor_sqrt_is(1_000_000_000_000, 1_000_000);
    assert(s_curve_lower(0) == 0);
    assert(curved(0, MorphCurve::Exponential) == 0);
    assert(curved(1_000_000, MorphCurve::Exponential) == 1_000_000);
    assert(curved(0, MorphCurve::Logarithmic) == 0);
    assert(curved(1_000_000, MorphCurve::Logarithmic) == 1_000_000);
    assert(curved(0, MorphCurve::SCurve) == 0);
    assert(curved(1_000_000, MorphCurve::SCurve) == 1_000_000);
}

/// A value on the way lies between 0 and 127.
pub proof fn lemma_interpolated_in_range(from: int, to: int, c: int)
    ensures
        0 <= interpolated(from, to, c) <= MAX_U7,
{
}

/// Between equal values nothing moves, whatever the progress.
pub proof fn lemma_interpolated_constant(v: int, c: int)
    requires
        0 <= v <= MAX_U7,
    ensures
        interpolated(v, v, c) == v,
{
    assert((v - v) * c == 0) by (nonlinear_arith);
}

/// At nothing the value is where it started, at the whole where it ends.
pub proof fn lemma_interpolated_endpoints(from: int, to: int)
    requires
        0 <= from <= MAX_U7,
        0 <= to <= MAX_U7,
    ensures
        interpolated(from, to, 0) == from,
        interpolated(from, to, PROGRESS_ONE as int) == to,
{
    assert((to - from) * 0 == 0);
    assert((to - from) * 1_000_000 == to * 1_000_000 - from * 1_000_000);
}

/// A value on the way lies between the two it connects.
pub proof fn lemma_interpolated_between(from: int, to: int, c: int)
    requires
        0 <= from <= MAX_U7,
        0 <= to <= MAX_U7,
        0 <= c <= PROGRESS_ONE,
    ensures
        from <= to ==> from <= interpolated(from, to, c) <= to,
        to <= from ==> to <= interpolated(from, to, c) <= from,
{
    let step = (to - from) * c;
    if from <= to {
        assert(0 <= step <= (to - from) * 1_000_000) by (nonlinear_arith)
            requires
                from <= to,
                0 <= c <= 1_000_000,
                step == (to - from) * c,
        ;
    } else {
        assert((to - from) * 1_000_000 <= step <= 0) by (nonlinear_arith)
            requires
                to <= from,
                0 <= c <= 1_000_000,
                step == (to - from) * c,
        ;
    }
}

/// A quotient is no larger than another whose cross product is no smaller.
pub proof fn lemma_quotients_ordered(a: int, b: int, c: int, d: int)
    requires
        0 <= a,
        0 <= c,
        0 < b,
        0 < d,
        a * d <= c * b,
    ensures
        a / b <= c / d,
{
    let q = a / b;
    lemma_fundamental_div_mod(a, b);
    lemma_mod_bound(a, b);
    lemma_fundamental_div_mod(c, d);
    lemma_mod_bound(c, d);
    let r = c / d;
    assert(q <= r) by (nonlinear_arith)
        requires
            a == b * q + a % b,
            0 <= a % b < b,
            c == d * r + c % d,
            0 <= c % d < d,
            a * d <= c * b,
            0 < b,
            0 < d,
    ;
}

/// A larger number has no smaller square root.
pub proof fn lemma_floor_sqrt_monotonic(a: nat, b: nat)
    requires
        a <= b,
    ensures
        floor_sqrt(a) <= floor_sqrt(b),
{
    lemma_floor_sqrt_exists(a);
    lemma_floor_sqrt_exists(b);
    let x = floor_sqrt(a);
    let y = floor_sqrt(b);
    if y < x {
        assert((y + 1) * (y + 1) <= x * x) by (nonlinear_arith)
            requires
                y + 1 <= x,
        ;
    }
}

/// Up to the half, the lower S-curve rises.
pub proof fn lemma_s_curve_lower_monotonic(p: int, q: int)
    requires
        0 <= p <= q,
        2 * q <= PROGRESS_ONE,
    ensures
        s_curve_lower(p) <= s_curve_lower(q),
{
    let u = p * p;
    let v = q * q;
    assert(0 <= u <= v <= 250_000_000_000) by (nonlinear_arith)
        requires
            0 <= p <= q <= 500_000,
            u == p * p,
            v == q * q,
    ;
    lemma_s_curve_parts(u);
    lemma_s_curve_parts(v);
    let t = u * v;
    assert(0 <= t <= 62_500_000_000_000_000_000_000) by (nonlinear_arith)
        requires
            0 <= u <= v <= 250_000_000_000,
            t == u * v,
    ;
    // what is left of the difference of the cross products once `v - u` is
    // taken out of it
    let rest = 394_783_361_305_600_000_000_000_000_000_000_000_000_000_000_000_000_000
        - 150_409_519_200_000_000_000_000_000_000_000_000_000_000 * (u + v)
        - 103_293_867_651_741_271_100_000_000_000 * t;
    assert(rest >= 0);
    assert(s_curve_num(v) * s_curve_den(u) - s_curve_num(u) * s_curve_den(v) == (v - u) * rest)
        by (nonlinear_arith)
        requires
            t == u * v,
            rest == 394_783_361_305_600_000_000_000_000_000_000_000_000_000_000_000_000_000
                - 150_409_519_200_000_000_000_000_000_000_000_000_000_000 * (u + v)
                - 103_293_867_651_741_271_100_000_000_000 * t,
            s_curve_num(u) == u * (986_958_403_264_000_000_000 - 376_023_798 * u),
            s_curve_num(v) == v * (986_958_403_264_000_000_000 - 376_023_798 * v),
            s_curve_den(u) == 400_000_000_000_000_000_000_000_000_000_000
                + 176_557_083_514_000_000_000 * u + 37_391_852 * (u * u),
            s_curve_den(v) == 400_000_000_000_000_000_000_000_000_000_000
                + 176_557_083_514_000_000_000 * v + 37_391_852 * (v * v),
    ;
    assert((v - u) * rest >= 0) by (nonlinear_arith)
        requires
            v - u >= 0,
            rest >= 0,
    ;
    let a = 1_000_000 * s_curve_num(u);
    let c = 1_000_000 * s_curve_num(v);
    assert(a * s_curve_den(v) <= c * s_curve_den(u)) by (nonlinear_arith)
        requires
            a == 1_000_000 * s_curve_num(u),
            c == 1_000_000 * s_curve_num(v),
            s_curve_num(u) * s_curve_den(v) <= s_curve_num(v) * s_curve_den(u),
    ;
    lemma_quotients_ordered(a, s_curve_den(u), c, s_curve_den(v));
}

/// Every curve rises: more progress is never less after easing.
pub proof fn lemma_curved_monotonic(p: int, q: int, curve: MorphCurve)
    requires
        0 <= p <= q <= PROGRESS_ONE,
    ensures
        curved(p, curve) <= curved(q, curve),
{
    match curve {
        MorphCurve::Linear => {},
        MorphCurve::Exponential => {
            assert(0 <= p * p <= q * q) by (nonlinear_arith)
                requires
                    0 <= p <= q,
            ;
            lemma_div_is_ordered(p * p, q * q, 1_000_000);
        },
        MorphCurve::Logarithmic => {
            lemma_floor_sqrt_monotonic((p * 1_000_000) as nat, (q * 1_000_000) as nat);
        },
        MorphCurve::SCurve => {
            if 2 * q <= 1_000_000 {
                lemma_s_curve_lower_monotonic(p, q);
            } else if 2 * p <= 1_000_000 {
                lemma_s_curve_lower_in_range(p);
                lemma_s_curve_lower_in_range(1_000_000 - q);
            } else {
                lemma_s_curve_lower_monotonic(1_000_000 - q, 1_000_000 - p);
            }
        },
    }
}

/// On the way up a value never falls as progress rises, and on the way down
/// it never rises.
pub proof fn lemma_interpolated_monotonic(from: int, to: int, c: int, d: int)
    requires
        0 <= c <= d,
    ensures
        from <= to ==> interpolated(from, to, c) <= interpolated(from, to, d),
        to <= from ==> interpolated(from, to, d) <= interpolated(from, to, c),
{
    let low = (to - from) * c;
    let high = (to - from) * d;
    if from <= to {
        assert(low <= high) by (nonlinear_arith)
            requires
                from <= to,
                0 <= c <= d,
                low == (to - from) * c,
                high == (to - from) * d,
        ;
    }
    if to <= from {
        assert(high <= low) by (nonlinear_arith)
            requires
                to <= from,
                0 <= c <= d,
                low == (to - from) * c,
                high == (to - from) * d,
        ;
    }
}

/// The integer square root of `n`.
pub fn integer_sqrt(n: u64) -> (r: u64)
    ensures
        r == floor_sqrt(n as nat),
        r * r <= n,
{
    let mut lo: u64 = 0;
    let mut hi: u64 = 4_294_967_296;
    assert(lo * lo <= n < hi * hi) by (nonlinear_arith)
        requires
            lo == 0,
            hi == 4_294_967_296,
            n <= u64::MAX,
    ;
    while hi - lo > 1
        invariant
            lo < hi <= 4_294_967_296,
            lo * lo <= n < hi * hi,
        decreases hi - lo,
    {
        let mid: u64 = lo + (hi - lo) / 2;
        assert(mid * mid <= 0x1_0000_0000_0000_0000) by (nonlinear_arith)
            requires
                mid <= 4_294_967_296,
        ;
        let square: u128 = (mid as u128) * (mid as u128);
        if square <= n as u128 {
            lo = mid;
        } else {
            hi = mid;
        }
    }
    proof {
        assert(hi == lo + 1);
        lemma_floor_sqrt_is(n as nat, lo as nat);
    }
    lo
}

/// The part of a morph that has passed after `elapsed_micros` of
/// `total_micros`, in millionths.
pub fn progress_at(elapsed_micros: u64, total_micros: u64) -> (progress: u32)
    ensures
        progress == progress_of(elapsed_micros as int, total_micros as int),
        progress <= PROGRESS_ONE,
{
    if total_micros == 0 || elapsed_micros >= total_micros {
        PROGRESS_ONE
    } else {
        proof {
            lemma_progress_in_range(elapsed_micros as int, total_micros as int);
            }
        let scaled: u128 = (elapsed_micros as u128) * 1_000_000u128;
        (scaled / (total_micros as u128)) as u32
    }
}

/// The tempo to go by: the tempo clock's answer, or 120 beats per minute
/// where it gave none above zero.
pub fn effective_tempo(reply: Option<u32>) -> (tempo: u32)
    ensures
        tempo == tempo_or_default(reply),
        tempo > 0,
{
    match reply {
        Some(tempo) => if tempo > 0 {
            tempo
        } else {
            DEFAULT_TEMPO
        },
        None => DEFAULT_TEMPO,
    }
}

/// The length in microseconds of a morph over `duration_bars` bars at
/// `tempo` thousandths of a beat per minute.
pub fn morph_total_micros(duration_bars: u8, tempo: u32) -> (total: u64)
    requires
        tempo > 0,
    ensures
        total == morph_micros(duration_bars, tempo),
{
    (duration_bars as u64) * 240_000_000_000 / (tempo as u64)
}

/// Eases `progress` (millionths) along `curve`. Progress beyond the whole
/// counts as the whole.
pub fn apply_curve(progress: u32, curve: MorphCurve) -> (eased: u32)
    ensures
        eased == curved(
            if progress <= PROGRESS_ONE {
                progress as int
            } else {
                PROGRESS_ONE as int
            },
            curve,
        ),
        eased <= PROGRESS_ONE,
{
    let p: u64 = if progress <= PROGRESS_ONE {
        progress as u64
    } else {
        PROGRESS_ONE as u64
    };
    proof {
        lemma_curved_in_range(p as int, curve);
        assert(p * p <= 1_000_000_000_000) by (nonlinear_arith)
            requires
                p <= 1_000_000,
        ;
    }
    match curve {
        MorphCurve::Linear => p as u32,
        MorphCurve::Exponential => (p * p / 1_000_000) as u32,
        MorphCurve::Logarithmic => integer_sqrt(p * 1_000_000) as u32,
        MorphCurve::SCurve => {
            if 2 * p <= 1_000_000 {
                lower_s_curve(p) as u32
            } else {
                (1_000_000 - lower_s_curve(1_000_000 - p)) as u32
            }
        },
    }
}

/// The lower half of the S-curve.
fn lower_s_curve(p: u64) -> (eased: u64)
    requires
        2 * p <= PROGRESS_ONE,
    ensures
        eased == s_curve_lower(p as int),
        2 * eased <= PROGRESS_ONE,
{
    proof {
        lemma_s_curve_lower_in_range(p as int);
        assert(p * p <= 250_000_000_000) by (nonlinear_arith)
            requires
                p <= 500_000,
        ;
        lemma_s_curve_parts(p * p);
    }
    let u: u128 = (p as u128) * (p as u128);
    let inner: u128 = 986_958_403_264_000_000_000 - 376_023_798 * u;
    let num: u128 = u * inner;
    assert(u * u <= 62_500_000_000_000_000_000_000) by (nonlinear_arith)
        requires
            u <= 250_000_000_000,
    ;
    let den: u128 = 400_000_000_000_000_000_000_000_000_000_000 + 176_557_083_514_000_000_000 * u
        + 37_391_852 * (u * u);
    let eased: u128 = 1_000_000 * num / den;
    if eased > 500_000 {
        500_000
    } else {
        eased as u64
    }
}

/// One value on the way from `from` to `to` at eased progress `eased`
/// (millionths; beyond the whole counts as the whole).
pub fn interpolate(from: u8, to: u8, eased: u32) -> (value: u8)
    ensures
        value == interpolated(
            from as int,
            to as int,
            if eased <= PROGRESS_ONE {
                eased as int
            } else {
                PROGRESS_ONE as int
            },
        ),
        value <= MAX_U7,
{
    let c: u64 = if eased <= PROGRESS_ONE {
        eased as u64
    } else {
        PROGRESS_ONE as u64
    };
    let base: u64 = (from as u64) * 1_000_000;
    let num: u64 = if to >= from {
        let span: u64 = (to - from) as u64;
        assert(span * c <= 255_000_000) by (nonlinear_arith)
            requires
                span <= 255,
                c <= 1_000_000,
        ;
        assert((to - from) * c == span * c);
        base + span * c
    } else {
        let span: u64 = (from - to) as u64;
        assert(span * c <= span * 1_000_000 && span * 1_000_000 <= from * 1_000_000)
            by (nonlinear_arith)
            requires
                span <= from,
                c <= 1_000_000,
        ;
        assert((to - from) * c == -(span * c)) by (nonlinear_arith)
            requires
                span == from - to,
        ;
        base - span * c
    };
    assert(num == from * 1_000_000 + (to - from) * c);
    let rounded: u64 = (2 * num + 1_000_000) / 2_000_000;
    if rounded > 127 {
        127
    } else {
        rounded as u8
    }
}

/// Entry `i` of `values`, or the mid-point where there is none.
pub fn value_at(values: &Vec<u8>, i: usize) -> (value: u8)
    ensures
        value == value_or_default(values@, i as int),
{
    if i < values.len() {
        values[i]
    } else {
        DEFAULT_VALUE
    }
}

/// The values of `param_count` parameters on the way from `from` to `to` at
/// eased progress `eased`.
pub fn interpolate_values(from: &Vec<u8>, to: &Vec<u8>, eased: u32, param_count: usize) -> (values:
    Vec<u8>)
    ensures
        values@ == interpolated_values(
            from@,
            to@,
            if eased <= PROGRESS_ONE {
                eased as int
            } else {
                PROGRESS_ONE as int
            },
            param_count as nat,
        ),
{
    let ghost c = if eased <= PROGRESS_ONE {
        eased as int
    } else {
        PROGRESS_ONE as int
    };
    let mut values: Vec<u8> = Vec::new();
    let mut i: usize = 0;
    while i < param_count
        invariant
            i <= param_count,
            values@.len() == i,
            c == if eased <= PROGRESS_ONE {
                eased as int
            } else {
                PROGRESS_ONE as int
            },
            forall|k: int|
                0 <= k < i ==> values@[k] == interpolated(
                    value_or_default(from@, k) as int,
                    value_or_default(to@, k) as int,
                    c,
                ) as u8,
        decreases param_count - i,
    {
        let value = interpolate(value_at(from, i), value_at(to, i), eased);
        values.push(value);
        i += 1;
    }
    assert(values@ =~= interpolated_values(from@, to@, c, param_count as nat));
    values
}

} // verus!
