//! The amortization schedule: one record per period, each period reducing the
//! balance left by the one before.
use vstd::prelude::*;
use crate::amount::Amount;
use crate::loan::LoanInfo;

verus! {

/// The breakdown of one period of a schedule.
///
/// `upb` is the unpaid balance entering the period, `interest` and
/// `principal` the two parts of the payment, and `ending_upb` the balance
/// left after it.
#[derive(Debug)]
pub struct PeriodInfo<A> {
    pub month: u32,
    pub upb: A,
    pub interest: A,
    pub principal: A,
    pub ending_upb: A,
}

/// An amortization schedule: its records in month order.
#[derive(Debug)]
pub struct List<A>(pub Vec<PeriodInfo<A>>);

/// The records are numbered 1, 2, ... in order, the first starts from
/// `opening`, and each later one starts from the balance the one before
/// ended with.
pub open spec fn chained<A>(recs: Seq<PeriodInfo<A>>, opening: A) -> bool {
    &&& forall|i: int| 0 <= i < recs.len() ==> #[trigger] recs[i].month == i + 1
    &&& recs.len() > 0 ==> recs[0].upb == opening
    &&& forall|i: int| 0 < i < recs.len() ==> #[trigger] recs[i].upb == recs[i - 1].ending_upb
}

/// The balance left after the records, or `opening` if there are none.
pub open spec fn closing_balance<A>(recs: Seq<PeriodInfo<A>>, opening: A) -> A {
    if recs.len() == 0 {
        opening
    } else {
        recs.last().ending_upb
    }
}

/// The record of period `month` that starts from balance `upb`: the interest
/// is the balance times the monthly rate, the principal part is the payment
/// less that interest, and the ending balance is the starting one less the
/// principal part.
pub open spec fn period_record<A: Amount>(month: u32, upb: A, rate: A, payment: A) -> PeriodInfo<A> {
    let interest = upb.spec_times(rate);
    let principal = payment.spec_minus(interest);
    PeriodInfo { month, upb, interest, principal, ending_upb: upb.spec_minus(principal) }
}

/// Every record is the step of its month from its own starting balance.
pub open spec fn follows_steps<A: Amount>(recs: Seq<PeriodInfo<A>>, rate: A, payment: A) -> bool {
    forall|i: int|
        0 <= i < recs.len() ==> #[trigger] recs[i] == period_record(recs[i].month, recs[i].upb, rate, payment)
}

/// Whether a loan has the same terms as another, whatever its balance.
pub open spec fn same_terms<A>(a: LoanInfo<A>, b: LoanInfo<A>) -> bool {
    a.rate == b.rate && a.period == b.period && a.payment == b.payment
}

/// Produces the record of period `n` and reduces the loan's balance by the
/// principal part of `payment`: the interest is the balance times the
/// monthly rate, and the rest of the payment goes to principal.
pub fn amort_period<A: Amount>(loan: &mut LoanInfo<A>, n: u32, payment: A) -> (r: PeriodInfo<A>)
    ensures
        r == period_record(n, old(loan).principal, old(loan).rate, payment),
        final(loan).principal == r.ending_upb,
        same_terms(*final(loan), *old(loan)),
{
    let interest = loan.principal.times(loan.rate);
    let upb = loan.principal;
    let principal = payment.minus(interest);
    loan.principal = loan.principal.minus(principal);
    PeriodInfo { month: n, upb, interest, principal, ending_upb: loan.principal }
}

/// Generates the whole schedule of a loan, one record for each of its
/// periods, paying the loan's level payment each month. The loan is left
/// with the balance after the last period.
pub fn amort<A: Amount>(loan: &mut LoanInfo<A>) -> (r: List<A>)
    ensures
        r.0@.len() == old(loan).period,
        chained(r.0@, old(loan).principal),
        follows_steps(r.0@, old(loan).rate, old(loan).payment),
        forall|i: int|
            0 <= i < r.0@.len() ==> #[trigger] r.0@[i].principal == old(loan).payment.spec_minus(
                r.0@[i].interest,
            ),
        final(loan).principal == closing_balance(r.0@, old(loan).principal),
        same_terms(*final(loan), *old(loan)),
{
    let payment = loan.payment;
    let mut ret: Vec<PeriodInfo<A>> = Vec::new();
    let mut x: u32 = 0;
    while x < loan.period
        invariant
            x <= loan.period,
            ret@.len() == x,
            payment == old(loan).payment,
            same_terms(*loan, *old(loan)),
            chained(ret@, old(loan).principal),
            follows_steps(ret@, old(loan).rate, old(loan).payment),
            loan.principal == closing_balance(ret@, old(loan).principal),
        decreases loan.period - x,
    {
        x = x + 1;
        let rec = amort_period(loan, x, payment);
        ret.push(rec);
    }
    List(ret)
}

impl<A> List<A> {
    /// The record of the final period, if the schedule has any.
    pub fn last(&self) -> (r: Option<&PeriodInfo<A>>)
        ensures
            self.0@.len() == 0 ==> r.is_none(),
            self.0@.len() > 0 ==> r == Some(&self.0@.last()),
    {
        self.0.last()
    }
}

} // verus!
