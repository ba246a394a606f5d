use minilearn::metrics::{accuracy, f1_score, precision, recall, Ratio};

#[test]
fn accuracy_counts_matching_pairs() {
    let t = vec![1u8, 0, 1, 1];
    let p = vec![1u8, 1, 1, 0];
    assert_eq!(accuracy(&t, &p), Ratio { num: 2, den: 4 });
}

#[test]
fn accuracy_of_a_perfect_prediction_is_one() {
    let t = vec![0u8, 1, 0];
    let a = accuracy(&t, &t);
    assert_eq!(a, Ratio { num: 3, den: 3 });
}

#[test]
fn precision_counts_true_over_predicted_positives() {
    let t = vec![1u8, 0, 1, 0, 1];
    let p = vec![1u8, 1, 0, 0, 1];
    assert_eq!(precision(&t, &p), Ratio { num: 2, den: 3 });
}

#[test]
fn precision_is_zero_without_predicted_positives() {
    let t = vec![1u8, 1];
    let p = vec![0u8, 0];
    assert_eq!(precision(&t, &p), Ratio { num: 0, den: 1 });
}

#[test]
fn recall_counts_true_over_actual_positives() {
    let t = vec![1u8, 0, 1, 0, 1];
    let p = vec![1u8, 1, 0, 0, 1];
    assert_eq!(recall(&t, &p), Ratio { num: 2, den: 3 });
}

#[test]
fn recall_is_zero_without_actual_positives() {
    let t = vec![0u8, 0];
    let p = vec![1u8, 0];
    assert_eq!(recall(&t, &p), Ratio { num: 0, den: 1 });
}

#[test]
fn f1_of_two_zero_ratios_is_zero() {
    let f = f1_score(Ratio { num: 0, den: 3 }, Ratio { num: 0, den: 7 });
    assert_eq!(f, Ratio { num: 0, den: 1 });
}

#[test]
fn f1_of_two_unit_ratios_is_one() {
    let f = f1_score(Ratio { num: 1, den: 1 }, Ratio { num: 1, den: 1 });
    assert_eq!(f.num, f.den);
    assert!(f.num > 0);
}

#[test]
fn f1_is_the_harmonic_mean() {
    // p = 1/2, r = 1/4: 2pr / (p + r) = (2 * 1 * 1) / (1 * 4 + 1 * 2) = 2/6.
    let f = f1_score(Ratio { num: 1, den: 2 }, Ratio { num: 1, den: 4 });
    assert_eq!(f, Ratio { num: 2, den: 6 });
}
