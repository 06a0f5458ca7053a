use vstd::prelude::*;

verus! {

/// Why a loan could not be built.
#[derive(Clone, Copy, Debug, PartialEq, Eq, Structural)]
pub enum InvalidLoan {
    /// The term holds no period.
    NoPeriods,
    /// The rate sequence does not hold one rate per period.
    RateCountMismatch { periods: i64, rates: usize },
    /// The rate of the given period (counted from zero) is infinite or not a number.
    NonFiniteRate { index: usize },
}

/// The error, if any, that a term of `periods` periods with `rates` rates gives.
pub open spec fn shape_error(periods: int, rates: nat) -> Option<InvalidLoan> {
    if periods < 1 {
        Some(InvalidLoan::NoPeriods)
    } else if rates != periods {
        Some(InvalidLoan::RateCountMismatch { periods: periods as i64, rates: rates as usize })
    } else {
        None
    }
}

/// Checks the shape of a loan: at least one period, and exactly one rate per
/// period. On success gives the number of periods as a length.
pub fn check_shape(periods: i64, rates: usize) -> (r: Result<usize, InvalidLoan>)
    ensures
        match shape_error(periods as int, rates as nat) {
            None => r == Ok::<usize, InvalidLoan>(rates) && rates == periods,
            Some(e) => r == Err::<usize, InvalidLoan>(e),
        },
{
    if periods < 1 {
        Err(InvalidLoan::NoPeriods)
    } else if periods as u64 != rates as u64 {
        Err(InvalidLoan::RateCountMismatch { periods, rates })
    } else {
        Ok(rates)
    }
}

/// Checks a whole loan, given which of its rates are finite numbers: the shape
/// first, then the first rate that is not finite.
pub fn check_loan(periods: i64, rate_is_finite: &Vec<bool>) -> (r: Result<usize, InvalidLoan>)
    ensures
        match shape_error(periods as int, rate_is_finite@.len()) {
            Some(e) => r == Err::<usize, InvalidLoan>(e),
            None => match r {
                Ok(n) => n == periods && forall|i: int|
                    0 <= i < n ==> #[trigger] rate_is_finite@[i],
                Err(InvalidLoan::NonFiniteRate { index }) => index < rate_is_finite@.len()
                    && !rate_is_finite@[index as int] && forall|i: int|
                    0 <= i < index ==> #[trigger] rate_is_finite@[i],
                Err(_) => false,
            },
        },
{
    let n = match check_shape(periods, rate_is_finite.len()) {
        Ok(n) => n,
        Err(e) => return Err(e),
    };
    let mut i: usize = 0;
    while i < n
        invariant
            n == rate_is_finite@.len(),
            n == periods,
            shape_error(periods as int, rate_is_finite@.len()) is None,
            i <= n,
            forall|j: int| 0 <= j < i ==> #[trigger] rate_is_finite@[j],
        decreases n - i,
    {
        if !rate_is_finite[i] {
            return Err(InvalidLoan::NonFiniteRate { index: i });
        }
        i = i + 1;
    }
    Ok(n)
}

} // verus!
