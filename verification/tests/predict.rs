use minilearn::predict::{count_positives, predict_from_proba};

#[test]
fn thresholding_is_exact_at_the_boundary() {
    let probs = vec![300_000u64, 700_000, 500_000, 499_999];
    assert_eq!(predict_from_proba(&probs, 500_000), vec![0u8, 1, 1, 0]);
}

#[test]
fn raising_the_threshold_never_adds_positives() {
    let probs = vec![100_000u64, 450_000, 500_000, 650_000, 990_000];
    let thresholds = [0u64, 250_000, 500_000, 750_000, 1_000_000, u64::MAX];
    let mut previous = usize::MAX;
    for &t in thresholds.iter() {
        let n = count_positives(&predict_from_proba(&probs, t));
        assert!(n <= previous);
        previous = n;
    }
}

#[test]
fn zero_threshold_marks_everything_positive() {
    let probs = vec![0u64, 1, 999_999];
    assert_eq!(predict_from_proba(&probs, 0), vec![1u8, 1, 1]);
}

#[test]
fn count_positives_counts_the_ones() {
    assert_eq!(count_positives(&vec![1u8, 0, 1, 1, 0]), 3);
    let empty: Vec<u8> = Vec::new();
    assert_eq!(count_positives(&empty), 0);
}
