//! Hard predictions from probabilities.
//!
//! A probability is carried as a fixed-point value in micro-units
//! (1_000_000 stands for 1.0); thresholding only ever compares, so the
//! scale itself never enters the contracts.

use vstd::prelude::*;

verus! {

/// The hard label a probability `p` receives under `threshold`: positive
/// exactly when `p >= threshold`.
pub open spec fn threshold_label(p: u64, threshold: u64) -> u8 {
    if p >= threshold {
        1
    } else {
        0
    }
}

/// The label sequence that thresholding a probability sequence yields.
pub open spec fn thresholded(probs: Seq<u64>, threshold: u64) -> Seq<u8> {
    Seq::new(probs.len(), |i: int| threshold_label(probs[i], threshold))
}

/// How many labels of a sequence are positive.
pub open spec fn positive_count(labels: Seq<u8>) -> int
    decreases labels.len(),
{
    if labels.len() == 0 {
        0
    } else {
        positive_count(labels.drop_last()) + if labels.last() == 1 {
            1int
        } else {
            0int
        }
    }
}

/// Turns per-sample probabilities into hard 0/1 labels: positive exactly
/// where the probability reaches `threshold`.
pub fn predict_from_proba(probs: &Vec<u64>, threshold: u64) -> (r: Vec<u8>)
    ensures
        r@ == thresholded(probs@, threshold),
{
    let mut labels: Vec<u8> = Vec::new();
    for i in 0..probs.len()
        invariant
            labels@.len() == i,
            forall|k: int| 0 <= k < i ==> labels@[k] == threshold_label(probs@[k], threshold),
    {
        if probs[i] >= threshold {
            labels.push(1);
        } else {
            labels.push(0);
        }
    }
    proof {
        assert(labels@ =~= thresholded(probs@, threshold));
    }
    labels
}

/// Counts the positive labels of a prediction vector.
pub fn count_positives(labels: &Vec<u8>) -> (r: usize)
    ensures
        r == positive_count(labels@),
{
    let mut count: usize = 0;
    for i in 0..labels.len()
        invariant
            count == positive_count(labels@.take(i as int)),
            count <= i,
    {
        proof {
            assert(labels@.take(i + 1).drop_last() =~= labels@.take(i as int));
            assert(labels@.take(i + 1).last() == labels@[i as int]);
        }
        if labels[i] == 1 {
            count = count + 1;
        }
    }
    proof {
        assert(labels@.take(labels@.len() as int) =~= labels@);
    }
    count
}

/// A positive label survives any lowering of the threshold: label sequences
/// whose positives are pointwise preserved cannot lose positive count.
proof fn lemma_positive_count_pointwise(wider: Seq<u8>, narrower: Seq<u8>)
    requires
        wider.len() == narrower.len(),
        forall|i: int| 0 <= i < narrower.len() && narrower[i] == 1 ==> wider[i] == 1,
    ensures
        positive_count(narrower) <= positive_count(wider),
    decreases narrower.len(),
{
    if narrower.len() > 0 {
        lemma_positive_count_pointwise(wider.drop_last(), narrower.drop_last());
    }
}

/// Raising the threshold never increases the number of positive
/// predictions drawn from one fixed probability sequence.
pub proof fn lemma_threshold_monotone(probs: Seq<u64>, low: u64, high: u64)
    requires
        low <= high,
    ensures
        positive_count(thresholded(probs, high)) <= positive_count(thresholded(probs, low)),
{
    lemma_positive_count_pointwise(thresholded(probs, low), thresholded(probs, high));
}

} // verus!
