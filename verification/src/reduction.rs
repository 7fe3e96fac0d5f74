//! The reduction of a size against a baseline, as a whole percentage.

use vstd::prelude::*;

verus! {

/// The quotient of `a` by a positive `b`, rounded toward zero.
pub open spec fn toward_zero(a: int, b: int) -> int {
    if a >= 0 {
        a / b
    } else {
        -((-a) / b)
    }
}

/// By how many percent `size` falls short of `baseline`: the exact percentage
/// `(baseline - size) / baseline * 100`, with its fraction dropped, held to the
/// range of an `i32`.
///
/// It is negative where the size exceeds the baseline by a whole percent or
/// more. Against an empty baseline no percentage exists: the reduction of an
/// empty output is then 0, and that of any other output is the lowest value
/// there is, as it is the limit of ever smaller baselines.
pub open spec fn reduction_percent(baseline: nat, size: nat) -> int {
    if baseline == 0 {
        if size == 0 {
            0
        } else {
            i32::MIN as int
        }
    } else {
        let exact = toward_zero((baseline - size) * 100, baseline as int);
        if exact < i32::MIN {
            i32::MIN as int
        } else {
            exact
        }
    }
}

/// The reduction of `value` against `baseline`, in whole percent.
pub fn json_reduction(baseline: usize, value: usize) -> (r: i32)
    ensures
        r == reduction_percent(baseline as nat, value as nat),
{
    if baseline == 0 {
        if value == 0 {
            0
        } else {
            i32::MIN
        }
    } else if value <= baseline {
        let gain: u128 = (baseline - value) as u128 * 100;
        let percent: u128 = gain / (baseline as u128);
        assert(percent <= 100) by (nonlinear_arith)
            requires
                percent == gain / (baseline as u128),
                gain <= 100 * baseline,
                baseline > 0,
        ;
        percent as i32
    } else {
        let loss: u128 = (value - baseline) as u128 * 100;
        let percent: u128 = loss / (baseline as u128);
        if percent >= 2147483648 {
            i32::MIN
        } else {
            -(percent as i32)
        }
    }
}

/// A size equal to the baseline is no reduction at all, whatever the baseline.
pub proof fn lemma_reduction_of_baseline(baseline: nat)
    ensures
        reduction_percent(baseline, baseline) == 0,
{
    if baseline > 0 {
        assert(0int / (baseline as int) == 0) by (nonlinear_arith)
            requires
                baseline > 0,
        ;
    }
}

/// The reduction is the integer part of the exact percentage. Where nothing
/// saturates, `r` percent of the baseline is no more than the difference of
/// the two sizes, and `r + 1` percent (`r - 1` for a negative difference) is
/// more than it.
pub proof fn lemma_reduction_is_integer_part(baseline: nat, size: nat)
    requires
        baseline > 0,
    ensures
        size <= baseline ==> {
            let r = reduction_percent(baseline, size);
            r * baseline <= (baseline - size) * 100 < (r + 1) * baseline
        },
        size > baseline && reduction_percent(baseline, size) > i32::MIN ==> {
            let r = reduction_percent(baseline, size);
            (r - 1) * baseline < (baseline - size) * 100 <= r * baseline
        },
{
    let b = baseline as int;
    if size <= baseline {
        let a = (baseline - size) * 100;
        assert((a / b) * b <= a < (a / b + 1) * b) by (nonlinear_arith)
            requires
                b > 0,
                a >= 0,
        ;
    } else {
        let a = (size - baseline) * 100;
        assert((a / b) * b <= a < (a / b + 1) * b) by (nonlinear_arith)
            requires
                b > 0,
                a >= 0,
        ;
        assert(-((baseline - size) * 100) == a);
        let q = a / b;
        assert((-q - 1) * b == -((q + 1) * b)) by (nonlinear_arith);
        assert((-q) * b == -(q * b)) by (nonlinear_arith);
    }
}

/// The sign of the reduction, against a baseline that is not empty: an output
/// no larger than the baseline has a reduction from 0 to 100; a larger one has
/// a reduction of 0 or less, and less than 0 exactly where it exceeds the
/// baseline by a whole percent or more.
pub proof fn lemma_reduction_sign(baseline: nat, size: nat)
    requires
        baseline > 0,
    ensures
        i32::MIN <= reduction_percent(baseline, size) <= 100,
        size <= baseline ==> 0 <= reduction_percent(baseline, size),
        size == 0 ==> reduction_percent(baseline, size) == 100,
        size > baseline ==> reduction_percent(baseline, size) <= 0,
        size > baseline ==> (reduction_percent(baseline, size) < 0 <==> (size - baseline) * 100
            >= baseline),
{
    let b = baseline as int;
    if size <= baseline {
        let a = (baseline - size) * 100;
        assert(0 <= a / b <= 100) by (nonlinear_arith)
            requires
                b > 0,
                0 <= a <= 100 * b,
        ;
        if size == 0 {
            assert((100 * b) / b == 100) by (nonlinear_arith)
                requires
                    b > 0,
            ;
        }
    } else {
        let a = (size - baseline) * 100;
        assert(-((baseline - size) * 100) == a);
        assert(a / b >= 0 && (a / b > 0 <==> a >= b)) by (nonlinear_arith)
            requires
                b > 0,
                a >= 0,
        ;
    }
}

/// A larger output never has a greater reduction.
pub proof fn lemma_reduction_falls_with_size(baseline: nat, smaller: nat, larger: nat)
    requires
        smaller <= larger,
    ensures
        reduction_percent(baseline, smaller) >= reduction_percent(baseline, larger),
{
    if baseline > 0 {
        let b = baseline as int;
        let x = (baseline - smaller) * 100;
        let y = (baseline - larger) * 100;
        assert(x >= y);
        if y >= 0 {
            assert(x / b >= y / b) by (nonlinear_arith)
                requires
                    b > 0,
                    x >= y,
            ;
        } else if x >= 0 {
            assert(x / b >= 0) by (nonlinear_arith)
                requires
                    b > 0,
                    x >= 0,
            ;
            assert((-y) / b >= 0) by (nonlinear_arith)
                requires
                    b > 0,
                    -y >= 0,
            ;
        } else {
            assert((-x) / b <= (-y) / b) by (nonlinear_arith)
                requires
                    b > 0,
                    -x <= -y,
            ;
        }
    }
}

} // verus!
