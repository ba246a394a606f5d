//! Classification metrics over paired label sequences, as exact rationals.
//!
//! Accuracy, precision and recall are counting functions; each reports its
//! value as an exact fraction instead of rounding it, and precision and
//! recall are zero whenever their denominator would be. The F1 score is the
//! harmonic mean of precision and recall, again exact.

use vstd::prelude::*;

verus! {

/// An exact non-negative fraction `num / den`; the form every metric
/// reports its value in.
#[derive(Clone, Copy, Debug, PartialEq, Eq, Structural)]
pub struct Ratio {
    pub num: u64,
    pub den: u64,
}

/// A well-formed metric value: a defined fraction no greater than one.
pub open spec fn ratio_wf(r: Ratio) -> bool {
    r.den > 0 && r.num <= r.den
}

/// How many aligned pairs carry true label `tv` and predicted label `pv`.
pub open spec fn pair_count(t: Seq<u8>, p: Seq<u8>, tv: u8, pv: u8) -> int
    decreases t.len(),
{
    if t.len() == 0 || p.len() == 0 {
        0
    } else {
        pair_count(t.drop_last(), p.drop_last(), tv, pv) + if t.last() == tv && p.last() == pv {
            1int
        } else {
            0int
        }
    }
}

/// How many aligned pairs agree.
pub open spec fn match_count(t: Seq<u8>, p: Seq<u8>) -> int
    decreases t.len(),
{
    if t.len() == 0 || p.len() == 0 {
        0
    } else {
        match_count(t.drop_last(), p.drop_last()) + if t.last() == p.last() {
            1int
        } else {
            0int
        }
    }
}

/// Numerator of the F1 score of precision `p` and recall `r`, over the
/// unbounded integers.
pub open spec fn f1_num(p: Ratio, r: Ratio) -> int {
    if p.num == 0 && r.num == 0 {
        0
    } else {
        2 * p.num * r.num
    }
}

/// Denominator of the F1 score of precision `p` and recall `r`, over the
/// unbounded integers.
pub open spec fn f1_den(p: Ratio, r: Ratio) -> int {
    if p.num == 0 && r.num == 0 {
        1
    } else {
        p.num * r.den + r.num * p.den
    }
}

/// Fraction of aligned pairs whose labels agree.
pub fn accuracy(y_true: &Vec<u8>, y_pred: &Vec<u8>) -> (r: Ratio)
    requires
        y_true@.len() == y_pred@.len(),
        y_true@.len() > 0,
    ensures
        r.num == match_count(y_true@, y_pred@),
        r.den == y_true@.len(),
        ratio_wf(r),
{
    let mut correct: u64 = 0;
    for i in 0..y_true.len()
        invariant
            y_true@.len() == y_pred@.len(),
            correct == match_count(y_true@.take(i as int), y_pred@.take(i as int)),
            correct <= i,
    {
        proof {
            assert(y_true@.take(i + 1).drop_last() =~= y_true@.take(i as int));
            assert(y_pred@.take(i + 1).drop_last() =~= y_pred@.take(i as int));
        }
        if y_true[i] == y_pred[i] {
            correct = correct + 1;
        }
    }
    proof {
        assert(y_true@.take(y_true@.len() as int) =~= y_true@);
        assert(y_pred@.take(y_pred@.len() as int) =~= y_pred@);
    }
    Ratio { num: correct, den: y_true.len() as u64 }
}

/// True positives over predicted positives, or zero when nothing was
/// predicted positive.
pub fn precision(y_true: &Vec<u8>, y_pred: &Vec<u8>) -> (r: Ratio)
    requires
        y_true@.len() == y_pred@.len(),
    ensures
        ({
            let tp = pair_count(y_true@, y_pred@, 1, 1);
            let fp = pair_count(y_true@, y_pred@, 0, 1);
            if tp + fp == 0 {
                r == (Ratio { num: 0, den: 1 })
            } else {
                r.num == tp && r.den == tp + fp
            }
        }),
        ratio_wf(r),
        r.den <= y_true@.len() + 1,
{
    let mut tp: u64 = 0;
    let mut fp: u64 = 0;
    for i in 0..y_true.len()
        invariant
            y_true@.len() == y_pred@.len(),
            tp == pair_count(y_true@.take(i as int), y_pred@.take(i as int), 1, 1),
            fp == pair_count(y_true@.take(i as int), y_pred@.take(i as int), 0, 1),
            tp + fp <= i,
    {
        proof {
            assert(y_true@.take(i + 1).drop_last() =~= y_true@.take(i as int));
            assert(y_pred@.take(i + 1).drop_last() =~= y_pred@.take(i as int));
        }
        if y_true[i] == 1 && y_pred[i] == 1 {
            tp = tp + 1;
        }
        if y_true[i] == 0 && y_pred[i] == 1 {
            fp = fp + 1;
        }
    }
    proof {
        assert(y_true@.take(y_true@.len() as int) =~= y_true@);
        assert(y_pred@.take(y_pred@.len() as int) =~= y_pred@);
    }
    if tp + fp == 0 {
        Ratio { num: 0, den: 1 }
    } else {
        Ratio { num: tp, den: tp + fp }
    }
}

/// True positives over actual positives, or zero when nothing is actually
/// positive.
pub fn recall(y_true: &Vec<u8>, y_pred: &Vec<u8>) -> (r: Ratio)
    requires
        y_true@.len() == y_pred@.len(),
    ensures
        ({
            let tp = pair_count(y_true@, y_pred@, 1, 1);
            let missed = pair_count(y_true@, y_pred@, 1, 0);
            if tp + missed == 0 {
                r == (Ratio { num: 0, den: 1 })
            } else {
                r.num == tp && r.den == tp + missed
            }
        }),
        ratio_wf(r),
        r.den <= y_true@.len() + 1,
{
    let mut tp: u64 = 0;
    let mut missed: u64 = 0;
    for i in 0..y_true.len()
        invariant
            y_true@.len() == y_pred@.len(),
            tp == pair_count(y_true@.take(i as int), y_pred@.take(i as int), 1, 1),
            missed == pair_count(y_true@.take(i as int), y_pred@.take(i as int), 1, 0),
            tp + missed <= i,
    {
        proof {
            assert(y_true@.take(i + 1).drop_last() =~= y_true@.take(i as int));
            assert(y_pred@.take(i + 1).drop_last() =~= y_pred@.take(i as int));
        }
        if y_true[i] == 1 && y_pred[i] == 1 {
            tp = tp + 1;
        }
        if y_true[i] == 1 && y_pred[i] == 0 {
            missed = missed + 1;
        }
    }
    proof {
        assert(y_true@.take(y_true@.len() as int) =~= y_true@);
        assert(y_pred@.take(y_pred@.len() as int) =~= y_pred@);
    }
    if tp + missed == 0 {
        Ratio { num: 0, den: 1 }
    } else {
        Ratio { num: tp, den: tp + missed }
    }
}

/// Harmonic mean `2pr / (p + r)` of precision and recall, or zero when
/// both are zero.
pub fn f1_score(p: Ratio, r: Ratio) -> (f: Ratio)
    requires
        ratio_wf(p),
        ratio_wf(r),
        p.den <= 0x8000_0000,
        r.den <= 0x8000_0000,
    ensures
        f.num == f1_num(p, r),
        f.den == f1_den(p, r),
        ratio_wf(f),
{
    if p.num == 0 && r.num == 0 {
        Ratio { num: 0, den: 1 }
    } else {
        proof {
            assert(p.num * r.num <= 0x4000_0000_0000_0000) by (nonlinear_arith)
                requires
                    0 <= p.num <= 0x8000_0000,
                    0 <= r.num <= 0x8000_0000,
            ;
            assert(p.num * r.den <= 0x4000_0000_0000_0000) by (nonlinear_arith)
                requires
                    0 <= p.num <= 0x8000_0000,
                    0 <= r.den <= 0x8000_0000,
            ;
            assert(r.num * p.den <= 0x4000_0000_0000_0000) by (nonlinear_arith)
                requires
                    0 <= r.num <= 0x8000_0000,
                    0 <= p.den <= 0x8000_0000,
            ;
            assert(p.num * r.den + r.num * p.den > 0) by (nonlinear_arith)
                requires
                    p.den >= 1,
                    r.den >= 1,
                    p.num >= 0,
                    r.num >= 0,
                    p.num > 0 || r.num > 0,
            ;
            assert(2 * p.num * r.num <= p.num * r.den + r.num * p.den) by (nonlinear_arith)
                requires
                    0 <= p.num <= p.den,
                    0 <= r.num <= r.den,
            ;
        }
        let num = 2 * p.num * r.num;
        let den = p.num * r.den + r.num * p.den;
        Ratio { num, den }
    }
}

/// The F1 score is zero whenever precision and recall are both zero.
pub proof fn lemma_f1_zero_when_both_zero(p: Ratio, r: Ratio)
    requires
        p.num == 0,
        r.num == 0,
    ensures
        f1_num(p, r) == 0,
        f1_den(p, r) == 1,
{
}

/// The F1 score of unit precision and unit recall is one.
pub proof fn lemma_f1_one_when_both_one(p: Ratio, r: Ratio)
    requires
        ratio_wf(p),
        ratio_wf(r),
        p.num == p.den,
        r.num == r.den,
    ensures
        f1_num(p, r) == f1_den(p, r),
        f1_den(p, r) > 0,
{
    assert(2 * p.num * r.num == p.num * r.num + r.num * p.num) by (nonlinear_arith);
    assert(p.num * r.num >= 1) by (nonlinear_arith)
        requires
            p.num >= 1,
            r.num >= 1,
    ;
}

} // verus!
