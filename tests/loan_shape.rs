use mortgage_table::loan::{check_loan, check_shape, InvalidLoan};

#[test]
fn zero_periods_is_invalid() {
    assert_eq!(check_shape(0, 0), Err(InvalidLoan::NoPeriods));
    assert_eq!(check_loan(0, &vec![]), Err(InvalidLoan::NoPeriods));
}

#[test]
fn negative_periods_is_invalid() {
    assert_eq!(check_shape(-3, 3), Err(InvalidLoan::NoPeriods));
}

#[test]
fn rate_count_must_match_periods() {
    assert_eq!(
        check_shape(12, 11),
        Err(InvalidLoan::RateCountMismatch { periods: 12, rates: 11 })
    );
    assert_eq!(
        check_loan(2, &vec![true, true, true]),
        Err(InvalidLoan::RateCountMismatch { periods: 2, rates: 3 })
    );
}

#[test]
fn matching_shape_is_accepted() {
    assert_eq!(check_shape(360, 360), Ok(360));
    assert_eq!(check_shape(1, 1), Ok(1));
}

#[test]
fn first_non_finite_rate_is_reported() {
    let rates = [0.01f64, f64::NAN, 0.02, f64::INFINITY];
    let finite: Vec<bool> = rates.iter().map(|r| r.is_finite()).collect();
    assert_eq!(check_loan(4, &finite), Err(InvalidLoan::NonFiniteRate { index: 1 }));
}

#[test]
fn finite_rates_give_the_term() {
    let rates = vec![0.05f64 / 12.0; 360];
    let finite: Vec<bool> = rates.iter().map(|r| r.is_finite()).collect();
    assert_eq!(check_loan(360, &finite), Ok(360));
}

#[test]
fn shape_is_checked_before_finiteness() {
    assert_eq!(
        check_loan(3, &vec![false, true]),
        Err(InvalidLoan::RateCountMismatch { periods: 3, rates: 2 })
    );
}
