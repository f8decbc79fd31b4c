use status_line::number::{clamp_exp_level, decimal_count, min_exp_level, suffix_for_level};

#[test]
fn test_min_exp_level_table() {
    assert_eq!(min_exp_level("T"), 4);
    assert_eq!(min_exp_level("G"), 3);
    assert_eq!(min_exp_level("M"), 2);
    assert_eq!(min_exp_level("K"), 1);
    assert_eq!(min_exp_level("1"), 0);
    assert_eq!(min_exp_level("m"), -1);
    assert_eq!(min_exp_level("u"), -2);
    assert_eq!(min_exp_level("n"), -3);
    assert_eq!(min_exp_level(""), -4);
    assert_eq!(min_exp_level("x"), -4);
    assert_eq!(min_exp_level("KK"), -4);
}

#[test]
fn test_suffix_for_level_table() {
    assert_eq!(suffix_for_level(4), "T");
    assert_eq!(suffix_for_level(3), "G");
    assert_eq!(suffix_for_level(2), "M");
    assert_eq!(suffix_for_level(1), "K");
    assert_eq!(suffix_for_level(0), "");
    assert_eq!(suffix_for_level(-1), "m");
    assert_eq!(suffix_for_level(-2), "u");
    assert_eq!(suffix_for_level(-3), "n");
    assert_eq!(suffix_for_level(-4), "p");
    assert_eq!(suffix_for_level(-7), "p");
}

#[test]
fn test_clamp_exp_level() {
    assert_eq!(clamp_exp_level(10, -4), 4);
    assert_eq!(clamp_exp_level(-9, -2), -2);
    assert_eq!(clamp_exp_level(0, -4), 0);
    assert_eq!(clamp_exp_level(1, 1), 1);
}

#[test]
fn test_decimal_count() {
    // with a three-digit budget: 1.00, 10.0, 100
    assert_eq!(decimal_count(3, false, false), 2);
    assert_eq!(decimal_count(3, false, true), 1);
    assert_eq!(decimal_count(3, true, true), 0);
    // the count never goes below zero
    assert_eq!(decimal_count(2, true, true), 0);
    assert_eq!(decimal_count(0, false, false), 0);
    // the wider budget used for 0.001K
    assert_eq!(decimal_count(4, false, false), 3);
}
