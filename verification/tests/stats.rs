use isucholar::rat::Rat;
use isucholar::stats::{
    average_int, is_all_equal_int, is_all_equal_rat, max_int, max_rat, min_int, min_rat, sum_int,
    t_score_int, variance_int, TScore,
};

#[test]
fn average_of_empty_is_default() {
    let values: Vec<i64> = vec![];
    let or = Rat::new(7, 2);
    assert_eq!(average_int(&values, or), or);
}

#[test]
fn average_of_singleton_is_the_value() {
    let values: Vec<i64> = vec![42];
    let avg = average_int(&values, Rat::from_int(0));
    assert_eq!(avg.num, 42);
    assert_eq!(avg.den, 1);
}

#[test]
fn average_of_four_scores() {
    let values: Vec<i64> = vec![60, 70, 80, 90];
    let avg = average_int(&values, Rat::from_int(0));
    assert_eq!(avg.num, 300);
    assert_eq!(avg.den, 4);
    assert_eq!(avg.num as f64 / avg.den as f64, 75.0);
}

#[test]
fn average_lies_between_extrema() {
    let values: Vec<i64> = vec![13, -5, 40, 22, 22];
    let avg = average_int(&values, Rat::from_int(0));
    let lo = Rat::from_int(min_int(&values, 0));
    let hi = Rat::from_int(max_int(&values, 0));
    assert!(lo.le(&avg));
    assert!(avg.le(&hi));
}

#[test]
fn sum_is_exact_beyond_i64() {
    let values: Vec<i64> = vec![i64::MAX, i64::MAX, 2];
    assert_eq!(sum_int(&values), 2 * (i64::MAX as i128) + 2);
}

#[test]
fn extrema_of_empty_are_the_default() {
    let values: Vec<i64> = vec![];
    assert_eq!(max_int(&values, -3), -3);
    assert_eq!(min_int(&values, 9), 9);
}

#[test]
fn extrema_of_population() {
    let values: Vec<i64> = vec![3, 9, 2, 9, 5];
    assert_eq!(max_int(&values, 0), 9);
    assert_eq!(min_int(&values, 0), 2);
}

#[test]
fn all_equal_int_cases() {
    assert!(is_all_equal_int(&vec![]));
    assert!(is_all_equal_int(&vec![4]));
    assert!(is_all_equal_int(&vec![4, 4, 4]));
    assert!(!is_all_equal_int(&vec![4, 4, 5]));
}

#[test]
fn variance_of_empty_is_zero() {
    let values: Vec<i64> = vec![];
    let v = variance_int(&values, &Rat::from_int(123));
    assert_eq!(v.num, 0);
    assert_eq!(v.den, 1);
}

#[test]
fn variance_of_singleton_about_its_average_is_zero() {
    let values: Vec<i64> = vec![87];
    let avg = average_int(&values, Rat::from_int(0));
    let v = variance_int(&values, &avg);
    assert_eq!(v.num, 0);
}

#[test]
fn variance_of_four_scores_is_125() {
    // deviations from 75 are -15, -5, 5, 15: mean square (225+25+25+225)/4 = 125
    let values: Vec<i64> = vec![60, 70, 80, 90];
    let avg = average_int(&values, Rat::from_int(0));
    let v = variance_int(&values, &avg);
    assert_eq!(v.num as f64 / v.den as f64, 125.0);
    assert!(v.equiv(&Rat::new(125, 1)));
}

#[test]
fn t_score_of_empty_population_is_degenerate() {
    let values: Vec<i64> = vec![];
    assert_eq!(t_score_int(17, &values), TScore::Degenerate);
}

#[test]
fn t_score_of_all_equal_population_is_degenerate() {
    let values: Vec<i64> = vec![17, 17, 17];
    assert_eq!(t_score_int(17, &values), TScore::Degenerate);
    // also when the subject value is not the common one
    assert_eq!(t_score_int(3, &values), TScore::Degenerate);
}

#[test]
fn t_score_of_spread_population() {
    let values: Vec<i64> = vec![60, 70, 80, 90];
    match t_score_int(90, &values) {
        TScore::Degenerate => panic!("population spreads"),
        TScore::Spread { diff, variance } => {
            // 90 - 75 = 15
            assert!(diff.equiv(&Rat::new(15, 1)));
            assert!(variance.equiv(&Rat::new(125, 1)));
            let t = (diff.num as f64 / diff.den as f64)
                / (variance.num as f64 / variance.den as f64).sqrt()
                * 10.0
                + 50.0;
            // (90 - 75) / sqrt(125) * 10 + 50, about 63.4
            assert!((t - 63.4164).abs() < 0.001);
            // the standard deviation itself, about 11.1803
            let std_dev = (variance.num as f64 / variance.den as f64).sqrt();
            assert!((std_dev - 11.1803).abs() < 0.001);
        }
    }
}

#[test]
fn statistics_are_deterministic() {
    let values: Vec<i64> = vec![60, 70, 80, 90];
    assert_eq!(
        average_int(&values, Rat::from_int(0)),
        average_int(&values, Rat::from_int(0))
    );
    let avg = average_int(&values, Rat::from_int(0));
    assert_eq!(variance_int(&values, &avg), variance_int(&values, &avg));
    assert_eq!(t_score_int(90, &values), t_score_int(90, &values));
    assert_eq!(max_int(&values, 0), max_int(&values, 0));
    assert_eq!(min_int(&values, 0), min_int(&values, 0));
}

#[test]
fn statistics_ignore_the_population_order() {
    let values: Vec<i64> = vec![60, 70, 80, 90];
    let shuffled: Vec<i64> = vec![90, 60, 80, 70];
    assert_eq!(
        average_int(&values, Rat::from_int(0)),
        average_int(&shuffled, Rat::from_int(0))
    );
    let avg = average_int(&values, Rat::from_int(0));
    assert_eq!(variance_int(&values, &avg), variance_int(&shuffled, &avg));
    assert_eq!(max_int(&values, 0), max_int(&shuffled, 0));
    assert_eq!(min_int(&values, 0), min_int(&shuffled, 0));
    assert_eq!(t_score_int(90, &values), t_score_int(90, &shuffled));
}

#[test]
fn rat_order_and_equivalence() {
    let half = Rat::new(1, 2);
    let third = Rat::new(1, 3);
    let two_quarters = Rat::new(2, 4);
    assert!(third.le(&half));
    assert!(!half.le(&third));
    assert!(half.equiv(&two_quarters));
    assert!(!half.equiv(&third));
}

#[test]
fn extrema_of_rational_population() {
    let values: Vec<Rat> = vec![Rat::new(1, 3), Rat::new(1, 2), Rat::new(2, 5)];
    let mx = max_rat(&values, Rat::from_int(0));
    let mn = min_rat(&values, Rat::from_int(0));
    assert!(mx.equiv(&Rat::new(1, 2)));
    assert!(mn.equiv(&Rat::new(1, 3)));
}

#[test]
fn extrema_of_empty_rational_population_are_the_default() {
    let values: Vec<Rat> = vec![];
    let or = Rat::new(9, 4);
    assert_eq!(max_rat(&values, or), or);
    assert_eq!(min_rat(&values, or), or);
}

#[test]
fn all_equal_rat_sees_through_representations() {
    assert!(is_all_equal_rat(&vec![]));
    assert!(is_all_equal_rat(&vec![
        Rat::new(1, 2),
        Rat::new(2, 4),
        Rat::new(3, 6)
    ]));
    assert!(!is_all_equal_rat(&vec![Rat::new(1, 2), Rat::new(1, 3)]));
}
