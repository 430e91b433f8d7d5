//! Fixed-rate loan amortization: the loan terms and level payment, the
//! period-by-period schedule generator, and the output destination selector
//! of the command-line tool.
pub mod amount;
pub mod loan;
pub mod output;
pub mod schedule;
