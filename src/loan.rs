//! Loan terms: rate normalization, the level payment, and input validation.
use vstd::prelude::*;
use crate::amount::{is_negative, Amount};

verus! {

/// Which input was rejected when a loan is built.
#[derive(PartialEq, Eq, Structural, Debug, Clone, Copy)]
pub enum LoanError {
    /// The number of periods is zero or negative.
    PeriodCount,
    /// The principal is negative.
    Principal,
    /// The interest rate is negative.
    Rate,
}

/// A loan being amortized.
///
/// `principal` is the unpaid balance and the only field that changes while a
/// schedule is generated; `rate` is the monthly rate, `period` the number of
/// monthly periods, and `payment` the level payment of every period.
#[derive(Debug)]
pub struct LoanInfo<A> {
    pub principal: A,
    pub rate: A,
    pub period: u32,
    pub payment: A,
}

/// The annual rate as a monthly one: a rate above 1 is a percentage and is
/// first divided by 100; then it is divided by 12.
pub open spec fn monthly_rate_of<A: Amount>(rate: A) -> A {
    if A::spec_from_int(1).spec_less_than(rate) {
        rate.spec_divided_by(A::spec_from_int(100)).spec_divided_by(A::spec_from_int(12))
    } else {
        rate.spec_divided_by(A::spec_from_int(12))
    }
}

/// The level payment of an annuity at monthly rate `r` over `n` periods:
/// `principal * (r * (1+r)^n / ((1+r)^n - 1))`, and `principal / n` at a
/// zero rate.
pub open spec fn payment_of<A: Amount>(r: A, n: i32, principal: A) -> A {
    if r.spec_is_zero() {
        principal.spec_divided_by(A::spec_from_int(n))
    } else {
        let growth = A::spec_from_int(1).spec_plus(r).spec_power(n);
        principal.spec_times(
            r.spec_times(growth).spec_divided_by(growth.spec_minus(A::spec_from_int(1))),
        )
    }
}

/// The error, if any, for the given terms: a period count below 1 first,
/// then a negative principal, then a negative rate.
pub open spec fn terms_error<A: Amount>(principal: A, rate: A, period: i32) -> Option<LoanError> {
    if period < 1 {
        Some(LoanError::PeriodCount)
    } else if is_negative(principal) {
        Some(LoanError::Principal)
    } else if is_negative(rate) {
        Some(LoanError::Rate)
    } else {
        None
    }
}

/// What `payment` returns: the error for a period count below 1, then for a
/// negative principal, then for a negative rate; otherwise the level payment.
pub open spec fn payment_outcome<A: Amount>(
    rate: A,
    period: i32,
    principal: A,
    r: Result<A, LoanError>,
) -> bool {
    &&& period < 1 ==> r == Err::<A, LoanError>(LoanError::PeriodCount)
    &&& period >= 1 && is_negative(principal) ==> r == Err::<A, LoanError>(LoanError::Principal)
    &&& period >= 1 && !is_negative(principal) && is_negative(rate) ==> r == Err::<A, LoanError>(
        LoanError::Rate,
    )
    &&& terms_error(principal, rate, period) is None ==> r == Ok::<A, LoanError>(
        payment_of(rate, period, principal),
    )
}

/// What `LoanInfo::new` returns: the same errors as `payment_outcome`, in the
/// same order; otherwise the loan with the given principal and period count,
/// the annual rate normalized once to a monthly one, and the level payment at
/// that monthly rate.
pub open spec fn loan_outcome<A: Amount>(
    principal: A,
    rate: A,
    period: i32,
    r: Result<LoanInfo<A>, LoanError>,
) -> bool {
    &&& period < 1 ==> r == Err::<LoanInfo<A>, LoanError>(LoanError::PeriodCount)
    &&& period >= 1 && is_negative(principal) ==> r == Err::<LoanInfo<A>, LoanError>(
        LoanError::Principal,
    )
    &&& period >= 1 && !is_negative(principal) && is_negative(rate) ==> r == Err::<
        LoanInfo<A>,
        LoanError,
    >(LoanError::Rate)
    &&& terms_error(principal, rate, period) is None ==> r == Ok::<LoanInfo<A>, LoanError>(
        (LoanInfo {
            principal,
            rate: monthly_rate_of(rate),
            period: period as u32,
            payment: payment_of(monthly_rate_of(rate), period, principal),
        }),
    )
}

/// The payment depends on its inputs alone: two computations of it from the
/// same rate, period count and principal give the same result.
pub proof fn payment_is_repeatable<A: Amount>(
    rate: A,
    period: i32,
    principal: A,
    first: Result<A, LoanError>,
    second: Result<A, LoanError>,
)
    requires
        payment_outcome(rate, period, principal, first),
        payment_outcome(rate, period, principal, second),
    ensures
        first == second,
{
}

/// A loan depends on its inputs alone: two loans built from the same
/// principal, annual rate and period count are the same.
pub proof fn loan_is_repeatable<A: Amount>(
    principal: A,
    rate: A,
    period: i32,
    first: Result<LoanInfo<A>, LoanError>,
    second: Result<LoanInfo<A>, LoanError>,
)
    requires
        loan_outcome(principal, rate, period, first),
        loan_outcome(principal, rate, period, second),
    ensures
        first == second,
{
}

fn annuity<A: Amount>(rate: A, period: i32, principal: A) -> (r: A)
    requires
        period >= 1,
    ensures
        r == payment_of(rate, period, principal),
{
    if rate.is_zero() {
        principal.divided_by(A::from_int(period))
    } else {
        let growth = A::from_int(1).plus(rate).power(period);
        let num = rate.times(growth);
        let denom = growth.minus(A::from_int(1));
        principal.times(num.divided_by(denom))
    }
}

fn check_terms<A: Amount>(principal: A, rate: A, period: i32) -> (r: Option<LoanError>)
    ensures
        r == terms_error(principal, rate, period),
{
    if period < 1 {
        return Some(LoanError::PeriodCount);
    }
    let zero = A::from_int(0);
    if principal.less_than(zero) {
        Some(LoanError::Principal)
    } else if rate.less_than(zero) {
        Some(LoanError::Rate)
    } else {
        None
    }
}

/// The level payment for a monthly rate, a number of periods and a
/// principal (see `payment_of`). A period count below 1, a negative
/// principal or a negative rate is rejected, in that order.
pub fn payment<A: Amount>(rate: A, period: i32, principal: A) -> (r: Result<A, LoanError>)
    ensures
        payment_outcome(rate, period, principal, r),
{
    match check_terms(principal, rate, period) {
        Some(e) => Err(e),
        None => Ok(annuity(rate, period, principal)),
    }
}

/// Converts an annual rate to a monthly one (see `monthly_rate_of`).
pub fn monthly_rate<A: Amount>(rate: A) -> (r: A)
    ensures
        r == monthly_rate_of(rate),
{
    if A::from_int(1).less_than(rate) {
        rate.divided_by(A::from_int(100)).divided_by(A::from_int(12))
    } else {
        rate.divided_by(A::from_int(12))
    }
}

impl<A: Amount> LoanInfo<A> {
    /// Builds a loan from its principal, annual rate and number of monthly
    /// periods. The annual rate is normalized to a monthly one once, and the
    /// level payment is computed from that monthly rate.
    ///
    /// A period count below 1 is rejected first, then a negative principal,
    /// then a negative rate.
    pub fn new(principal: A, rate: A, period: i32) -> (r: Result<LoanInfo<A>, LoanError>)
        ensures
            loan_outcome(principal, rate, period, r),
    {
        match check_terms(principal, rate, period) {
            Some(e) => Err(e),
            None => {
                let monthly = monthly_rate(rate);
                let payment = annuity(monthly, period, principal);
                Ok(LoanInfo { principal, rate: monthly, period: period as u32, payment })
            },
        }
    }
}

} // verus!
