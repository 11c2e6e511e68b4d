//! The leave ledger and its accrual projection.

use crate::ledger_laws::lemma_accrual_bounds;
use std::collections::BTreeMap;
use vstd::prelude::*;

verus! {

broadcast use vstd::laws_cmp::group_laws_cmp;

/// How many units of leave make one day.
pub const UNITS_PER_DAY: i64 = 100;

/// Ordinal of a calendar month: a lookup key with an order and nothing else.
#[derive(Clone, Copy, Debug, PartialEq, Eq, PartialOrd, Ord, Structural)]
pub struct Month(pub u32);

/// What one month of the projection shows.
#[derive(Clone, Copy, Debug, PartialEq, Eq, Structural)]
pub struct MonthHolidays {
    /// Leave granted up to and including this month, whatever was used.
    pub base: i128,
    /// Leave granted up to and including this month minus all leave used
    /// up to and including it.
    pub remaining: i128,
    /// Leave used in this month.
    pub used: i64,
}

/// The mathematical content of a ledger.
pub struct Ledger {
    pub start_month: u32,
    pub start_holiday_amount: i64,
    pub holiday_per_month: i64,
    pub holidays: Map<u32, i64>,
}

impl Ledger {
    /// Leave planned for the month with the given ordinal: the entry under
    /// that key, and nothing where there is none or the ordinal is no key.
    pub open spec fn planned(self, ordinal: int) -> int {
        if 0 <= ordinal <= u32::MAX && self.holidays.contains_key(ordinal as u32) {
            self.holidays[ordinal as u32] as int
        } else {
            0
        }
    }

    /// Leave used in the month `i` months after the first.
    pub open spec fn used(self, i: nat) -> int {
        self.planned(self.start_month + i)
    }

    /// Leave granted by the end of the month `i` months after the first.
    pub open spec fn base(self, i: nat) -> int {
        self.start_holiday_amount + self.holiday_per_month * (i + 1)
    }

    /// Leave used in the first `n` months.
    pub open spec fn used_before(self, n: nat) -> int
        decreases n,
    {
        if n == 0 {
            0
        } else {
            self.used_before((n - 1) as nat) + self.used((n - 1) as nat)
        }
    }

    /// Leave left at the end of the month `i` months after the first.
    pub open spec fn remaining(self, i: nat) -> int {
        self.base(i) - self.used_before(i + 1)
    }

    /// The projection of the month `i` months after the first.
    pub open spec fn month(self, i: nat) -> MonthHolidays {
        MonthHolidays {
            base: self.base(i) as i128,
            remaining: self.remaining(i) as i128,
            used: self.used(i) as i64,
        }
    }

    /// The projection of the first `n` months, in order.
    pub open spec fn leftovers(self, n: nat) -> Seq<MonthHolidays> {
        Seq::new(n, |i: int| self.month(i as nat))
    }

    /// The ledger with `number_of_day` planned for `month`, in place of
    /// whatever was planned for it.
    pub open spec fn with_planned(self, month: u32, number_of_day: i64) -> Ledger {
        Ledger { holidays: self.holidays.insert(month, number_of_day), ..self }
    }

    /// The ledger with another balance carried in.
    pub open spec fn with_start_amount(self, amount: i64) -> Ledger {
        Ledger { start_holiday_amount: amount, ..self }
    }
}

/// The record of accrual parameters and of leave planned by month.
#[derive(Debug)]
pub struct HolidaysInner {
    /// First month that the ledger tracks.
    pub start_month: Month,
    /// Balance carried in before the first month.
    pub start_holiday_amount: i64,
    /// Leave granted each month.
    pub holiday_per_month: i64,
    /// Leave planned, by month ordinal.
    pub holidays: BTreeMap<u32, i64>,
}

impl View for HolidaysInner {
    type V = Ledger;

    open spec fn view(&self) -> Ledger {
        Ledger {
            start_month: self.start_month.0,
            start_holiday_amount: self.start_holiday_amount,
            holiday_per_month: self.holiday_per_month,
            holidays: self.holidays@,
        }
    }
}

impl Clone for HolidaysInner {
    /// A second ledger with the same content.
    fn clone(&self) -> (r: Self)
        ensures
            r@ == self@,
    {
        HolidaysInner {
            start_month: self.start_month,
            start_holiday_amount: self.start_holiday_amount,
            holiday_per_month: self.holiday_per_month,
            holidays: self.holidays.clone(),
        }
    }
}

impl Default for HolidaysInner {
    /// The ledger of a first start: tracking begins with month 1, nothing is
    /// carried in, nothing is planned, and each month grants 2.08 days.
    fn default() -> (r: Self)
        ensures
            r@ == (Ledger {
                start_month: 1,
                start_holiday_amount: 0,
                holiday_per_month: 208,
                holidays: Map::empty(),
            }),
    {
        HolidaysInner {
            start_month: Month(1),
            start_holiday_amount: 0,
            holiday_per_month: 208,
            holidays: BTreeMap::new(),
        }
    }
}

impl HolidaysInner {
    /// Leave planned for the month with the given ordinal.
    pub fn planned(&self, ordinal: u64) -> (r: i64)
        ensures
            r == self@.planned(ordinal as int),
    {
        if ordinal > 0xffff_ffff {
            return 0;
        }
        let key: u32 = ordinal as u32;
        match self.holidays.get(&key) {
            Some(v) => *v,
            None => 0,
        }
    }

    /// Projects the first `months_count` months: for each, in order, the
    /// leave granted so far, the leave left, and the leave used in it.
    pub fn compute_month_leftovers(&self, months_count: u32) -> (r: Vec<MonthHolidays>)
        ensures
            r@ == self@.leftovers(months_count as nat),
            r@.len() == months_count,
            forall|i: int|
                0 <= i < months_count ==> {
                    &&& (#[trigger] r@[i]).base == self@.base(i as nat)
                    &&& r@[i].remaining == self@.remaining(i as nat)
                    &&& r@[i].used == self@.used(i as nat)
                },
    {
        let mut out: Vec<MonthHolidays> = Vec::new();
        let mut base: i128 = self.start_holiday_amount as i128;
        let mut remaining: i128 = self.start_holiday_amount as i128;
        let mut i: u32 = 0;
        while i < months_count
            invariant
                i <= months_count,
                out@.len() == i,
                base == self@.start_holiday_amount + self@.holiday_per_month * i,
                remaining == base - self@.used_before(i as nat),
                forall|k: int|
                    0 <= k < i ==> {
                        &&& #[trigger] out@[k] == self@.month(k as nat)
                        &&& out@[k].base == self@.base(k as nat)
                        &&& out@[k].remaining == self@.remaining(k as nat)
                        &&& out@[k].used == self@.used(k as nat)
                    },
            decreases months_count - i,
        {
            let used: i64 = self.planned(self.start_month.0 as u64 + i as u64);
            proof {
                lemma_accrual_bounds(self@, i as nat);
                lemma_accrual_bounds(self@, (i + 1) as nat);
                assert(self@.holiday_per_month * (i + 1) == self@.holiday_per_month * i
                    + self@.holiday_per_month) by (nonlinear_arith);
            }
            base = base + self.holiday_per_month as i128;
            remaining = remaining + self.holiday_per_month as i128 - used as i128;
            out.push(MonthHolidays { base, remaining, used });
            i = i + 1;
        }
        assert(out@ =~= self@.leftovers(months_count as nat));
        out
    }

    /// Plans `number_of_day` for `month`, in place of whatever was planned.
    pub fn plan(&mut self, month: Month, number_of_day: i64)
        ensures
            final(self)@ == old(self)@.with_planned(month.0, number_of_day),
    {
        self.holidays.insert(month.0, number_of_day);
    }
}

} // verus!
