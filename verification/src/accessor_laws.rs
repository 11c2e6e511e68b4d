//! What holds of every run of requests to the owner.

use crate::accessor::Answer;
use crate::accessor::Owner;
use crate::accessor::Request;
use crate::ledger::Month;
use crate::ledger_laws::lemma_month_exact;
use crate::ledger_laws::lemma_planning_a_free_month;
use vstd::prelude::*;

verus! {

/// Whether every request of the run only reads.
pub open spec fn all_reads(requests: Seq<Request>) -> bool {
    forall|k: int| 0 <= k < requests.len() ==> (#[trigger] requests[k]).is_read()
}

/// Reads change nothing: after any run of reads the owner is what it was.
pub proof fn lemma_reads_change_nothing(owner: Owner, requests: Seq<Request>)
    requires
        all_reads(requests),
    ensures
        owner.after_all(requests) == owner,
    decreases requests.len(),
{
    if requests.len() > 0 {
        lemma_reads_change_nothing(owner, requests.drop_last());
    }
}

/// Reading the balance carried in gives the same answer again, as long as
/// nothing but reads comes between.
pub proof fn lemma_same_read_twice(owner: Owner, between: Seq<Request>)
    requires
        all_reads(between),
    ensures
        owner.after(Request::GetStartHolidayAmount).after_all(between).answer(
            Request::GetStartHolidayAmount,
        ) == owner.answer(Request::GetStartHolidayAmount),
        owner.after(Request::GetStartHolidayAmount).after_all(between).start_holiday_amount()
            == owner.start_holiday_amount(),
{
    lemma_reads_change_nothing(owner, between);
}

/// Once a running owner has set the balance carried in, a read gives exactly
/// that balance, whatever reads come between and whatever became of the
/// write on its way to disk.
pub proof fn lemma_read_after_write(owner: Owner, amount: i64, between: Seq<Request>)
    requires
        owner.running,
        all_reads(between),
    ensures
        owner.with_start_holiday_amount(amount).after_all(between).start_holiday_amount() == Some(
            amount,
        ),
        owner.after(Request::SetStartHolidayAmount { start_holiday_amount: amount }).after_all(
            between,
        ).answer(Request::GetStartHolidayAmount) == Answer::StartHolidayAmount(amount),
{
    lemma_reads_change_nothing(owner.with_start_holiday_amount(amount), between);
}

/// Once a running owner has planned leave for a month that had none, the
/// next projection that reaches the month shows that leave as used in it,
/// shows what is left lower by that leave in the month and in every month
/// after it, and shows the grants unchanged.
pub proof fn lemma_planned_holiday_shows(
    owner: Owner,
    month: Month,
    number_of_day: i64,
    months_count: u32,
    i: int,
)
    requires
        owner.running,
        owner.ledger.planned(month.0 as int) == 0,
        owner.ledger.start_month <= month.0 <= owner.ledger.start_month + i,
        i < months_count,
    ensures
        owner.month_leftovers(months_count) is Some,
        owner.with_planned_holiday(month, number_of_day).month_leftovers(months_count) is Some,
        ({
            let before = owner.month_leftovers(months_count).unwrap();
            let after = owner.with_planned_holiday(month, number_of_day).month_leftovers(
                months_count,
            ).unwrap();
            &&& after.len() == before.len() == months_count
            &&& after[month.0 - owner.ledger.start_month].used == number_of_day
            &&& after[i].remaining == before[i].remaining - number_of_day
            &&& after[i].base == before[i].base
        }),
{
    let planned = owner.ledger.with_planned(month.0, number_of_day);
    let at = (month.0 - owner.ledger.start_month) as nat;
    lemma_planning_a_free_month(owner.ledger, month.0, number_of_day, i as nat);
    lemma_month_exact(owner.ledger, i as nat);
    lemma_month_exact(planned, i as nat);
    lemma_month_exact(planned, at);
}

/// A stopped owner serves nothing and never changes.
pub proof fn lemma_stopped_serves_nothing(owner: Owner, requests: Seq<Request>)
    requires
        !owner.running,
    ensures
        owner.after_all(requests) == owner,
        forall|k: int|
            0 <= k < requests.len() ==> owner.after_all(requests.take(k)).answer(
                #[trigger] requests[k],
            ) == Answer::Unavailable,
    decreases requests.len(),
{
    if requests.len() > 0 {
        lemma_stopped_serves_nothing(owner, requests.drop_last());
    }
    assert forall|k: int| 0 <= k < requests.len() implies owner.after_all(
        requests.take(k),
    ).answer(#[trigger] requests[k]) == Answer::Unavailable by {
        lemma_stopped_serves_nothing(owner, requests.take(k));
    }
}

/// Serving a run of requests and then another is serving the two runs as
/// one: a request sees the ledger exactly as the requests before it left
/// it, however the run is cut.
pub proof fn lemma_runs_compose(owner: Owner, first: Seq<Request>, second: Seq<Request>)
    ensures
        owner.after_all(first + second) == owner.after_all(first).after_all(second),
    decreases second.len(),
{
    if second.len() == 0 {
        assert(first + second =~= first);
    } else {
        lemma_runs_compose(owner, first, second.drop_last());
        assert((first + second).drop_last() =~= first + second.drop_last());
        assert((first + second).last() == second.last());
    }
}

} // verus!
