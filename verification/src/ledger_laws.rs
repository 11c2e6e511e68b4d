//! What holds of every ledger's projection.

use crate::ledger::Ledger;
use vstd::prelude::*;

verus! {

/// Sizes of what a projection adds up: after `n` months the leave granted
/// and the leave used each stay within `n + 1` times the range of one amount.
pub proof fn lemma_accrual_bounds(ledger: Ledger, n: nat)
    ensures
        -(n + 1) * 0x8000_0000_0000_0000 <= ledger.start_holiday_amount + ledger.holiday_per_month
            * n <= (n + 1) * 0x8000_0000_0000_0000,
        -n * 0x8000_0000_0000_0000 <= ledger.used_before(n) <= n * 0x8000_0000_0000_0000,
    decreases n,
{
    let rate = ledger.holiday_per_month as int;
    assert(-n * 0x8000_0000_0000_0000 <= rate * n <= n * 0x8000_0000_0000_0000) by (nonlinear_arith)
        requires
            -0x8000_0000_0000_0000 <= rate <= 0x8000_0000_0000_0000,
            n >= 0,
    ;
    if n > 0 {
        lemma_accrual_bounds(ledger, (n - 1) as nat);
    }
}

/// Within the months that a projection can reach, its figures are the
/// exact sums: none is cut to fit its field.
pub proof fn lemma_month_exact(ledger: Ledger, i: nat)
    requires
        i <= u32::MAX,
    ensures
        ledger.month(i).base == ledger.base(i),
        ledger.month(i).remaining == ledger.remaining(i),
        ledger.month(i).used == ledger.used(i),
{
    lemma_accrual_bounds(ledger, i + 1);
}

/// The projection is a running account. The first month starts from the
/// balance carried in; every later month adds one month's grant to the
/// month before, and takes its own use from what was left.
pub proof fn lemma_running_balance(ledger: Ledger, i: nat)
    ensures
        i == 0 ==> ledger.base(i) == ledger.start_holiday_amount + ledger.holiday_per_month,
        i == 0 ==> ledger.remaining(i) == ledger.base(i) - ledger.used(i),
        i > 0 ==> ledger.base(i) == ledger.base((i - 1) as nat) + ledger.holiday_per_month,
        i > 0 ==> ledger.remaining(i) == ledger.remaining((i - 1) as nat)
            + ledger.holiday_per_month - ledger.used(i),
{
    let rate = ledger.holiday_per_month as int;
    assert(rate * (i + 1) == rate * i + rate) by (nonlinear_arith);
    assert(rate * 1 == rate) by (nonlinear_arith);
    assert(ledger.used_before(1) == ledger.used_before(0) + ledger.used(0));
    assert(ledger.used_before(i + 1) == ledger.used_before(i) + ledger.used(i));
}

/// The grants do not depend on what is planned: two ledgers that differ only
/// in the leave planned show the same grants month for month.
pub proof fn lemma_grants_ignore_use(ledger: Ledger, holidays: Map<u32, i64>, i: nat)
    ensures
        (Ledger { holidays, ..ledger }).base(i) == ledger.base(i),
{
}

/// The projection of no months is empty.
pub proof fn lemma_no_months(ledger: Ledger)
    ensures
        ledger.leftovers(0) == Seq::<crate::ledger::MonthHolidays>::empty(),
{
    assert(ledger.leftovers(0) =~= Seq::<crate::ledger::MonthHolidays>::empty());
}

/// With no leave planned at all, no month uses any, and what is left after
/// each month is the balance carried in plus one grant for every month so
/// far.
pub proof fn lemma_nothing_planned(ledger: Ledger, i: nat)
    requires
        ledger.holidays == Map::<u32, i64>::empty(),
    ensures
        ledger.used(i) == 0,
        ledger.used_before(i) == 0,
        ledger.base(i) == ledger.start_holiday_amount + ledger.holiday_per_month * (i + 1),
        ledger.remaining(i) == ledger.start_holiday_amount + ledger.holiday_per_month * (i + 1),
    decreases i,
{
    if i > 0 {
        lemma_nothing_planned(ledger, (i - 1) as nat);
    }
    assert(ledger.used_before(i + 1) == ledger.used_before(i) + ledger.used(i));
}

/// By how much planning `number_of_day` for `month` lowers what is left
/// from that month on: the new figure less what was planned for it before.
pub open spec fn planned_more(ledger: Ledger, month: u32, number_of_day: i64) -> int {
    number_of_day - ledger.planned(month as int)
}

/// What planning leave for one month does to the projection. The grants do
/// not move. The month itself shows the new figure as used, every other
/// month what it showed before. What is left is unchanged before that month,
/// and from it on lower by the new figure less the old.
pub proof fn lemma_planning_a_month(ledger: Ledger, month: u32, number_of_day: i64, i: nat)
    ensures
        ledger.with_planned(month, number_of_day).base(i) == ledger.base(i),
        ledger.start_month + i == month ==> ledger.with_planned(month, number_of_day).used(i)
            == number_of_day,
        ledger.start_month + i != month ==> ledger.with_planned(month, number_of_day).used(i)
            == ledger.used(i),
        ledger.start_month + i < month || month < ledger.start_month ==> ledger.with_planned(
            month,
            number_of_day,
        ).remaining(i) == ledger.remaining(i),
        ledger.start_month <= month <= ledger.start_month + i ==> ledger.with_planned(
            month,
            number_of_day,
        ).remaining(i) == ledger.remaining(i) - planned_more(ledger, month, number_of_day),
{
    lemma_used_after_planning(ledger, month, number_of_day, i + 1);
}

/// The same for a month that had nothing planned: from that month on, what
/// is left is lower by exactly the leave now planned.
pub proof fn lemma_planning_a_free_month(ledger: Ledger, month: u32, number_of_day: i64, i: nat)
    requires
        ledger.planned(month as int) == 0,
        ledger.start_month <= month <= ledger.start_month + i,
    ensures
        ledger.with_planned(month, number_of_day).used((month - ledger.start_month) as nat)
            == number_of_day,
        ledger.with_planned(month, number_of_day).remaining(i) == ledger.remaining(i)
            - number_of_day,
        ledger.with_planned(month, number_of_day).base(i) == ledger.base(i),
{
    lemma_planning_a_month(ledger, month, number_of_day, i);
    lemma_planning_a_month(ledger, month, number_of_day, (month - ledger.start_month) as nat);
}

/// Leave used in the first `n` months, before and after planning for one
/// month: the two differ once that month is among them.
proof fn lemma_used_after_planning(ledger: Ledger, month: u32, number_of_day: i64, n: nat)
    ensures
        ledger.start_month <= month < ledger.start_month + n ==> ledger.with_planned(
            month,
            number_of_day,
        ).used_before(n) == ledger.used_before(n) + planned_more(ledger, month, number_of_day),
        !(ledger.start_month <= month < ledger.start_month + n) ==> ledger.with_planned(
            month,
            number_of_day,
        ).used_before(n) == ledger.used_before(n),
    decreases n,
{
    if n > 0 {
        lemma_used_after_planning(ledger, month, number_of_day, (n - 1) as nat);
    }
}

} // verus!
