//! The single owner of the ledger.
//!
//! Every read and every write of the ledger goes through one
//! [`HolidaysActor`], one request at a time. A write changes the ledger at
//! once and hands back a [`PendingWrite`]: the whole ledger as it now
//! stands, to be put on disk before the request is answered. The pending
//! write borrows the owner, so nothing else is served until it is settled.
//! The ledger keeps the new value whether or not it reaches the disk.

use crate::ledger::HolidaysInner;
use crate::ledger::Ledger;
use crate::ledger::Month;
use crate::ledger::MonthHolidays;
use crate::persist::settle;
use crate::persist::settled;
use crate::persist::PersistError;
use vstd::prelude::*;
use vstd::string::*;

verus! {

/// What a write is refused with once the owner has stopped.
pub open spec fn not_running_message() -> Seq<char> {
    "actor not running"@
}

/// The words that refuse a write once the owner has stopped.
pub fn not_running() -> (r: String)
    ensures
        r@ == not_running_message(),
{
    String::from_str("actor not running")
}

/// A write that is done in memory and has yet to reach the disk. It holds
/// the ledger as the write left it, and with it the owner: no other request
/// can be served, and the ledger cannot change, until this is settled.
#[must_use]
#[derive(Debug)]
pub struct PendingWrite<'a> {
    ledger: &'a HolidaysInner,
}

impl<'a> View for PendingWrite<'a> {
    type V = Ledger;

    closed spec fn view(&self) -> Ledger {
        self.ledger@
    }
}

impl<'a> PendingWrite<'a> {
    /// The whole ledger, to be put on disk.
    pub fn ledger(&self) -> (r: &'a HolidaysInner)
        ensures
            r@ == self@,
    {
        self.ledger
    }

    /// Ends the write with what became of the ledger on its way to disk,
    /// and gives the answer for the caller: success, or the failure in
    /// words. The owner is free again.
    pub fn settle(self, written: Result<(), PersistError>) -> (r: Result<(), String>)
        ensures
            match r {
                Ok(_) => settled(written) == Ok::<(), Seq<char>>(()),
                Err(message) => settled(written) == Err::<(), Seq<char>>(message@),
            },
    {
        settle(written)
    }
}

/// One request to the owner.
#[derive(Debug, Clone, Copy, PartialEq, Eq, Structural)]
pub enum Request {
    /// Read the balance carried in.
    GetStartHolidayAmount,
    /// Project the first `months_count` months.
    ComputeMonthLeftovers { months_count: u32 },
    /// Plan `number_of_day` for `month`.
    SetPlannedHoliday { month: Month, number_of_day: i64 },
    /// Set the balance carried in.
    SetStartHolidayAmount { start_holiday_amount: i64 },
}

impl Request {
    /// Whether the request only reads.
    pub open spec fn is_read(self) -> bool {
        self is GetStartHolidayAmount || self is ComputeMonthLeftovers
    }
}

/// What the owner does about one request.
#[derive(Debug)]
pub enum Reply<'a> {
    /// The balance carried in.
    StartHolidayAmount(i64),
    /// The projection asked for.
    MonthLeftovers(Vec<MonthHolidays>),
    /// The write is done in memory: the ledger is to be put on disk before
    /// the caller is answered.
    Persist(PendingWrite<'a>),
    /// The owner has stopped.
    Unavailable,
}

/// The mathematical content of a [`Reply`].
pub enum Answer {
    StartHolidayAmount(i64),
    MonthLeftovers(Seq<MonthHolidays>),
    Persist(Ledger),
    Unavailable,
}

impl<'a> View for Reply<'a> {
    type V = Answer;

    open spec fn view(&self) -> Answer {
        match self {
            Reply::StartHolidayAmount(amount) => Answer::StartHolidayAmount(*amount),
            Reply::MonthLeftovers(months) => Answer::MonthLeftovers(months@),
            Reply::Persist(pending) => Answer::Persist(pending@),
            Reply::Unavailable => Answer::Unavailable,
        }
    }
}

/// The mathematical content of the owner: the ledger it holds, and whether
/// it still serves requests.
pub struct Owner {
    pub ledger: Ledger,
    pub running: bool,
}

impl Owner {
    /// What a read of the balance carried in gives.
    pub open spec fn start_holiday_amount(self) -> Option<i64> {
        if self.running {
            Some(self.ledger.start_holiday_amount)
        } else {
            None
        }
    }

    /// What a projection of the first `months_count` months gives.
    pub open spec fn month_leftovers(self, months_count: u32) -> Option<Seq<MonthHolidays>> {
        if self.running {
            Some(self.ledger.leftovers(months_count as nat))
        } else {
            None
        }
    }

    /// The owner after a request to plan leave for a month.
    pub open spec fn with_planned_holiday(self, month: Month, number_of_day: i64) -> Owner {
        if self.running {
            Owner { ledger: self.ledger.with_planned(month.0, number_of_day), ..self }
        } else {
            self
        }
    }

    /// The owner after a request to change the balance carried in.
    pub open spec fn with_start_holiday_amount(self, amount: i64) -> Owner {
        if self.running {
            Owner { ledger: self.ledger.with_start_amount(amount), ..self }
        } else {
            self
        }
    }

    /// The owner after one request. A read leaves it as it is; a write
    /// changes the ledger; a stopped owner never changes.
    pub open spec fn after(self, request: Request) -> Owner {
        match request {
            Request::GetStartHolidayAmount => self,
            Request::ComputeMonthLeftovers { months_count } => self,
            Request::SetPlannedHoliday { month, number_of_day } => self.with_planned_holiday(
                month,
                number_of_day,
            ),
            Request::SetStartHolidayAmount { start_holiday_amount } => self.with_start_holiday_amount(
                start_holiday_amount,
            ),
        }
    }

    /// What is done about one request: a read is answered from the ledger
    /// as it stands, a write with the ledger as the write leaves it.
    pub open spec fn answer(self, request: Request) -> Answer {
        if !self.running {
            Answer::Unavailable
        } else {
            match request {
                Request::GetStartHolidayAmount => Answer::StartHolidayAmount(
                    self.ledger.start_holiday_amount,
                ),
                Request::ComputeMonthLeftovers { months_count } => Answer::MonthLeftovers(
                    self.ledger.leftovers(months_count as nat),
                ),
                Request::SetPlannedHoliday { .. } => Answer::Persist(self.after(request).ledger),
                Request::SetStartHolidayAmount { .. } => Answer::Persist(
                    self.after(request).ledger,
                ),
            }
        }
    }

    /// The owner after a run of requests, served one after another.
    pub open spec fn after_all(self, requests: Seq<Request>) -> Owner
        decreases requests.len(),
    {
        if requests.len() == 0 {
            self
        } else {
            self.after_all(requests.drop_last()).after(requests.last())
        }
    }

    /// What a write hands back: the ledger to put on disk, or the refusal.
    pub open spec fn write_result<'a>(self, r: Result<PendingWrite<'a>, String>) -> bool {
        match r {
            Ok(pending) => self.running && pending@ == self.ledger,
            Err(message) => !self.running && message@ == not_running_message(),
        }
    }
}

/// The owner of the one ledger.
pub struct HolidaysActor {
    state: HolidaysInner,
    running: bool,
}

impl View for HolidaysActor {
    type V = Owner;

    closed spec fn view(&self) -> Owner {
        Owner { ledger: self.state@, running: self.running }
    }
}

impl HolidaysActor {
    /// An owner that serves requests on `state`.
    pub fn new(state: HolidaysInner) -> (r: Self)
        ensures
            r@ == (Owner { ledger: state@, running: true }),
    {
        HolidaysActor { state, running: true }
    }

    /// Whether the owner still serves requests.
    pub fn is_active(&self) -> (r: bool)
        ensures
            r == self@.running,
    {
        self.running
    }

    /// Stops the owner for good. The ledger stays as it is; no request is
    /// served from now on.
    pub fn shutdown(&mut self)
        ensures
            final(self)@ == (Owner { running: false, ..old(self)@ }),
    {
        self.running = false;
    }

    /// Reads the balance carried in. `None` once the owner has stopped.
    pub fn get_start_holiday_amount(&self) -> (r: Option<i64>)
        ensures
            r == self@.start_holiday_amount(),
    {
        if self.running {
            Some(self.state.start_holiday_amount)
        } else {
            None
        }
    }

    /// Projects the first `months_count` months of the ledger as it stands.
    /// `None` once the owner has stopped.
    pub fn compute_month_leftovers(&self, months_count: u32) -> (r: Option<Vec<MonthHolidays>>)
        ensures
            r is Some == self@.running,
            r matches Some(months) ==> self@.month_leftovers(months_count) == Some(months@),
    {
        if self.running {
            Some(self.state.compute_month_leftovers(months_count))
        } else {
            None
        }
    }

    /// Serves one request: the next state of the owner, and what is to be
    /// done about the request.
    pub fn serve(&mut self, request: Request) -> (r: Reply<'_>)
        ensures
            final(self)@ == old(self)@.after(request),
            r@ == old(self)@.answer(request),
    {
        match request {
            Request::GetStartHolidayAmount => match self.get_start_holiday_amount() {
                Some(amount) => Reply::StartHolidayAmount(amount),
                None => Reply::Unavailable,
            },
            Request::ComputeMonthLeftovers { months_count } => match self.compute_month_leftovers(
                months_count,
            ) {
                Some(months) => Reply::MonthLeftovers(months),
                None => Reply::Unavailable,
            },
            Request::SetPlannedHoliday { month, number_of_day } => match self.set_planned_holiday(
                month,
                number_of_day,
            ) {
                Ok(pending) => Reply::Persist(pending),
                Err(_) => Reply::Unavailable,
            },
            Request::SetStartHolidayAmount {
                start_holiday_amount,
            } => match self.set_start_holiday_amount(start_holiday_amount) {
                Ok(pending) => Reply::Persist(pending),
                Err(_) => Reply::Unavailable,
            },
        }
    }

    /// Plans `number_of_day` for `month`, in place of whatever was planned
    /// for it, and hands back the ledger to put on disk. Once the owner has
    /// stopped, nothing changes and the request is refused.
    pub fn set_planned_holiday(&mut self, month: Month, number_of_day: i64) -> (r: Result<
        PendingWrite<'_>,
        String,
    >)
        ensures
            final(self)@ == old(self)@.with_planned_holiday(month, number_of_day),
            final(self)@.write_result(r),
    {
        if !self.running {
            return Err(not_running());
        }
        self.state.plan(month, number_of_day);
        Ok(PendingWrite { ledger: &self.state })
    }

    /// Sets the balance carried in, and hands back the ledger to put on
    /// disk. Once the owner has stopped, nothing changes and the request is
    /// refused.
    pub fn set_start_holiday_amount(&mut self, start_holiday_amount: i64) -> (r: Result<
        PendingWrite<'_>,
        String,
    >)
        ensures
            final(self)@ == old(self)@.with_start_holiday_amount(start_holiday_amount),
            final(self)@.write_result(r),
    {
        if !self.running {
            return Err(not_running());
        }
        self.state.start_holiday_amount = start_holiday_amount;
        Ok(PendingWrite { ledger: &self.state })
    }
}

} // verus!
