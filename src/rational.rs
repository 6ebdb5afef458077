use std::cmp::Ordering;
use vstd::prelude::*;

verus! {

/// A time base: the duration of one timestamp tick, `num / den` seconds.
#[derive(Clone, Copy, Debug, PartialEq, Eq, Structural)]
pub struct Rational {
    pub num: u32,
    pub den: u32,
}

impl Rational {
    /// A usable time base has non-zero numerator and denominator.
    pub open spec fn valid(self) -> bool {
        self.num > 0 && self.den > 0
    }

    pub fn new(num: u32, den: u32) -> (r: Rational)
        ensures
            r.num == num,
            r.den == den,
    {
        Rational { num, den }
    }

    /// A whole number of ticks per unit: `num / 1`.
    pub fn from_integer(num: u32) -> (r: Rational)
        ensures
            r.num == num,
            r.den == 1,
    {
        Rational { num, den: 1 }
    }

    /// Built from `[num, den]`.
    pub fn from_pair(pair: [u32; 2]) -> (r: Rational)
        ensures
            r.num == pair[0],
            r.den == pair[1],
    {
        Rational { num: pair[0], den: pair[1] }
    }
}

/// `ts` ticks of `tb`, scaled so that two timestamps in different bases
/// compare by `scaled(ts_a, tb_a, tb_b)` against `scaled(ts_b, tb_b, tb_a)`:
/// `ts_a * num_a / den_a` against `ts_b * num_b / den_b`, with both sides
/// multiplied by `den_a * den_b`.
pub open spec fn scaled(ts: int, tb: Rational, other: Rational) -> int {
    ts * tb.num * other.den
}

/// `ts_a` in `tb_a` is strictly earlier than `ts_b` in `tb_b`.
pub open spec fn earlier(ts_a: int, tb_a: Rational, ts_b: int, tb_b: Rational) -> bool {
    scaled(ts_a, tb_a, tb_b) < scaled(ts_b, tb_b, tb_a)
}

/// `ts_a` in `tb_a` is no later than `ts_b` in `tb_b`.
pub open spec fn not_later(ts_a: int, tb_a: Rational, ts_b: int, tb_b: Rational) -> bool {
    scaled(ts_a, tb_a, tb_b) <= scaled(ts_b, tb_b, tb_a)
}

proof fn lemma_cross_trans(x: int, y: int, z: int, da: int, db: int, dc: int)
    requires
        da > 0,
        db > 0,
        dc > 0,
        x * db <= y * da,
        y * dc <= z * db,
    ensures
        x * dc <= z * da,
{
    assert(x * db * dc <= y * da * dc) by (nonlinear_arith)
        requires
            x * db <= y * da,
            dc > 0,
    ;
    assert(y * dc * da <= z * db * da) by (nonlinear_arith)
        requires
            y * dc <= z * db,
            da > 0,
    ;
    assert(x * dc * db <= z * da * db) by (nonlinear_arith)
        requires
            x * db * dc <= y * da * dc,
            y * dc * da <= z * db * da,
    ;
    assert(x * dc <= z * da) by (nonlinear_arith)
        requires
            x * dc * db <= z * da * db,
            db > 0,
    ;
}

proof fn lemma_cross_trans_strict(x: int, y: int, z: int, da: int, db: int, dc: int)
    requires
        da > 0,
        db > 0,
        dc > 0,
        x * db < y * da,
        y * dc <= z * db,
    ensures
        x * dc < z * da,
{
    assert(x * db * dc < y * da * dc) by (nonlinear_arith)
        requires
            x * db < y * da,
            dc > 0,
    ;
    assert(y * dc * da <= z * db * da) by (nonlinear_arith)
        requires
            y * dc <= z * db,
            da > 0,
    ;
    assert(x * dc * db < z * da * db) by (nonlinear_arith)
        requires
            x * db * dc < y * da * dc,
            y * dc * da <= z * db * da,
    ;
    assert(x * dc < z * da) by (nonlinear_arith)
        requires
            x * dc * db < z * da * db,
            db > 0,
    ;
}

/// "No later than" is transitive across time bases.
pub proof fn lemma_not_later_trans(a: int, ta: Rational, b: int, tb: Rational, c: int, tc: Rational)
    requires
        ta.valid(),
        tb.valid(),
        tc.valid(),
        not_later(a, ta, b, tb),
        not_later(b, tb, c, tc),
    ensures
        not_later(a, ta, c, tc),
{
    lemma_cross_trans(a * ta.num, b * tb.num, c * tc.num, ta.den as int, tb.den as int, tc.den as int);
    assert(scaled(a, ta, tb) == (a * ta.num) * tb.den);
    assert(scaled(b, tb, ta) == (b * tb.num) * ta.den);
    assert(scaled(b, tb, tc) == (b * tb.num) * tc.den);
    assert(scaled(c, tc, tb) == (c * tc.num) * tb.den);
    assert(scaled(a, ta, tc) == (a * ta.num) * tc.den);
    assert(scaled(c, tc, ta) == (c * tc.num) * ta.den);
}

/// Strictly earlier, then no later, is strictly earlier.
pub proof fn lemma_earlier_trans(a: int, ta: Rational, b: int, tb: Rational, c: int, tc: Rational)
    requires
        ta.valid(),
        tb.valid(),
        tc.valid(),
        earlier(a, ta, b, tb),
        not_later(b, tb, c, tc),
    ensures
        earlier(a, ta, c, tc),
{
    lemma_cross_trans_strict(a * ta.num, b * tb.num, c * tc.num, ta.den as int, tb.den as int, tc.den as int);
    assert(scaled(a, ta, tb) == (a * ta.num) * tb.den);
    assert(scaled(b, tb, ta) == (b * tb.num) * ta.den);
    assert(scaled(b, tb, tc) == (b * tb.num) * tc.den);
    assert(scaled(c, tc, tb) == (c * tc.num) * tb.den);
    assert(scaled(a, ta, tc) == (a * ta.num) * tc.den);
    assert(scaled(c, tc, ta) == (c * tc.num) * ta.den);
}

/// Within one time base, time follows the timestamp.
pub proof fn lemma_same_base(a: int, b: int, t: Rational)
    requires
        t.valid(),
        a <= b,
    ensures
        not_later(a, t, b, t),
{
    assert(a * t.num * t.den <= b * t.num * t.den) by (nonlinear_arith)
        requires
            a <= b,
            t.num > 0,
            t.den > 0,
    ;
}

/// Any time is no later than itself.
pub proof fn lemma_not_later_refl(a: int, t: Rational)
    ensures
        not_later(a, t, a, t),
{
}

pub open spec fn ordering_of(a: int, b: int) -> Ordering {
    if a < b {
        Ordering::Less
    } else if a == b {
        Ordering::Equal
    } else {
        Ordering::Greater
    }
}

/// Compares two timestamps given in different time bases, exactly, by
/// cross-multiplication.
pub fn compare_ts(ts_a: i64, tb_a: Rational, ts_b: i64, tb_b: Rational) -> (r: Ordering)
    ensures
        r == ordering_of(scaled(ts_a as int, tb_a, tb_b), scaled(ts_b as int, tb_b, tb_a)),
{
    let a = scale_wide(ts_a, tb_a, tb_b);
    let b = scale_wide(ts_b, tb_b, tb_a);
    if a < b {
        Ordering::Less
    } else if a == b {
        Ordering::Equal
    } else {
        Ordering::Greater
    }
}

fn scale_wide(ts: i64, tb: Rational, other: Rational) -> (r: i128)
    ensures
        r as int == scaled(ts as int, tb, other),
        -0x8000_0000_0000_0000 * (0xffff_ffff * 0xffff_ffff) <= r <= 0x7fff_ffff_ffff_ffff * (0xffff_ffff * 0xffff_ffff),
{
    proof {
        lemma_u32_product(tb.num, other.den);
    }
    let m: i128 = (tb.num as i128) * (other.den as i128);
    assert(0 <= m <= 0xffff_ffff * 0xffff_ffff) by (nonlinear_arith)
        requires
            m == tb.num as int * other.den as int,
            0 <= tb.num <= 0xffff_ffff,
            0 <= other.den <= 0xffff_ffff,
    ;
    assert(-0x8000_0000_0000_0000 * (0xffff_ffff * 0xffff_ffff) <= ts * m <= 0x7fff_ffff_ffff_ffff * (0xffff_ffff * 0xffff_ffff)) by (nonlinear_arith)
        requires
            0 <= m <= 0xffff_ffff * 0xffff_ffff,
            -0x8000_0000_0000_0000 <= ts <= 0x7fff_ffff_ffff_ffff,
    ;
    proof {
        assert(ts as int * tb.num as int * other.den as int == ts as int * (tb.num as int * other.den as int)) by (nonlinear_arith);
    }
    (ts as i128) * m
}

proof fn lemma_u32_product(a: u32, b: u32)
    ensures
        0 <= a as int * b as int <= 0xffff_ffff * 0xffff_ffff,
{
    assert(0 <= a as int * b as int <= 0xffff_ffff * 0xffff_ffff) by (nonlinear_arith)
        requires
            0 <= a <= 0xffff_ffff,
            0 <= b <= 0xffff_ffff,
    ;
}

/// Rounds `n / c` to the nearest integer, halfway cases away from zero.
pub open spec fn div_round_nearest(n: int, c: int) -> int
    recommends
        c > 0,
{
    if n >= 0 {
        (n + c / 2) / c
    } else {
        -((-n + c / 2) / c)
    }
}

/// `ts` ticks of `from` expressed in ticks of `to`, rounded to the nearest tick.
pub open spec fn rescaled(ts: int, from: Rational, to: Rational) -> int {
    div_round_nearest(ts * from.num * to.den, to.num as int * from.den as int)
}

/// Converts a timestamp from one time base to another, rounding to the
/// nearest tick (halfway cases away from zero). `None` when the result does
/// not fit in an `i64`.
pub fn rescale_ts(ts: i64, from: Rational, to: Rational) -> (r: Option<i64>)
    requires
        from.valid(),
        to.valid(),
    ensures
        match r {
            Some(v) => v as int == rescaled(ts as int, from, to),
            None => !(i64::MIN <= rescaled(ts as int, from, to) <= i64::MAX),
        },
{
    let n = scale_wide(ts, from, to);
    proof {
        lemma_u32_product(to.num, from.den);
    }
    let c: i128 = (to.num as i128) * (from.den as i128);
    assert(0 < c <= 0xffff_ffff * 0xffff_ffff) by (nonlinear_arith)
        requires
            c == to.num as int * from.den as int,
            0 < to.num <= 0xffff_ffff,
            0 < from.den <= 0xffff_ffff,
    ;
    let q: i128 = if n >= 0 {
        (n + c / 2) / c
    } else {
        -((-n + c / 2) / c)
    };
    if q < i64::MIN as i128 || q > i64::MAX as i128 {
        None
    } else {
        Some(q as i64)
    }
}

} // verus!
