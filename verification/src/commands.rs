//! The operations as a caller outside sees them: plain values in, plain
//! values or an error in words out.

use crate::accessor::HolidaysActor;
use crate::accessor::PendingWrite;
use crate::ledger::Month;
use crate::ledger::MonthHolidays;
use vstd::prelude::*;
use vstd::string::*;

verus! {

/// What a read is refused with once the owner has stopped.
pub open spec fn unavailable_message() -> Seq<char> {
    "actor is not running"@
}

/// The words that refuse a read once the owner has stopped.
pub fn unavailable() -> (r: String)
    ensures
        r@ == unavailable_message(),
{
    String::from_str("actor is not running")
}

/// Projects the first `months_count` months of the ledger.
pub fn compute_month_leftovers(state: &HolidaysActor, months_count: u32) -> (r: Result<
    Vec<MonthHolidays>,
    String,
>)
    ensures
        match r {
            Ok(months) => state@.month_leftovers(months_count) == Some(months@),
            Err(message) => !state@.running && message@ == unavailable_message(),
        },
{
    match state.compute_month_leftovers(months_count) {
        Some(months) => Ok(months),
        None => Err(unavailable()),
    }
}

/// Plans `number_of_day` for `month`. Gives the ledger to put on disk.
pub fn set_planned_holiday(state: &mut HolidaysActor, month: Month, number_of_day: i64) -> (r:
    Result<PendingWrite<'_>, String>)
    ensures
        final(state)@ == old(state)@.with_planned_holiday(month, number_of_day),
        final(state)@.write_result(r),
{
    state.set_planned_holiday(month, number_of_day)
}

/// Sets the balance carried in. Gives the ledger to put on disk.
pub fn set_start_holiday_amount(state: &mut HolidaysActor, start_holiday_amount: i64) -> (r:
    Result<PendingWrite<'_>, String>)
    ensures
        final(state)@ == old(state)@.with_start_holiday_amount(start_holiday_amount),
        final(state)@.write_result(r),
{
    state.set_start_holiday_amount(start_holiday_amount)
}

/// Reads the balance carried in.
pub fn get_start_holiday_amount(state: &HolidaysActor) -> (r: Result<i64, String>)
    ensures
        match r {
            Ok(amount) => state@.start_holiday_amount() == Some(amount),
            Err(message) => !state@.running && message@ == unavailable_message(),
        },
{
    match state.get_start_holiday_amount() {
        Some(amount) => Ok(amount),
        None => Err(unavailable()),
    }
}

} // verus!
