//! Paid-leave bookkeeping: a ledger of accrued and planned leave, the
//! month-by-month projection of what is left, and the single owner that
//! serves every read and write of the ledger one at a time.
//!
//! Amounts of leave are whole numbers of hundredths of a day.

pub mod accessor;
pub mod accessor_laws;
pub mod commands;
pub mod ledger;
pub mod ledger_laws;
pub mod persist;
