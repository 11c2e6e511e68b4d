use holiday_planifier::accessor::not_running;
use holiday_planifier::accessor::HolidaysActor;
use holiday_planifier::accessor::Reply;
use holiday_planifier::accessor::Request;
use holiday_planifier::commands;
use holiday_planifier::ledger::HolidaysInner;
use holiday_planifier::ledger::Month;
use holiday_planifier::ledger::MonthHolidays;
use holiday_planifier::persist::PersistError;
use std::collections::BTreeMap;

fn ledger(start_month: u32, start: i64, per_month: i64, planned: &[(u32, i64)]) -> HolidaysInner {
    let mut holidays = BTreeMap::new();
    for (month, amount) in planned {
        holidays.insert(*month, *amount);
    }
    HolidaysInner {
        start_month: Month(start_month),
        start_holiday_amount: start,
        holiday_per_month: per_month,
        holidays,
    }
}

fn entries(l: &HolidaysInner) -> Vec<(u32, i64)> {
    l.holidays.iter().map(|(k, v)| (*k, *v)).collect()
}

#[test]
fn new_owner_serves_the_ledger_it_was_given() {
    let owner = HolidaysActor::new(ledger(1, 750, 208, &[(1, 100)]));
    assert!(owner.is_active());
    assert_eq!(owner.get_start_holiday_amount(), Some(750));
    assert_eq!(
        owner.compute_month_leftovers(2),
        Some(vec![
            MonthHolidays { base: 958, remaining: 858, used: 100 },
            MonthHolidays { base: 1166, remaining: 1066, used: 0 },
        ])
    );
}

#[test]
fn reading_twice_gives_the_same() {
    let owner = HolidaysActor::new(ledger(1, 1234, 208, &[]));
    let first = owner.get_start_holiday_amount();
    let between = owner.compute_month_leftovers(5);
    let second = owner.get_start_holiday_amount();
    assert_eq!(first, Some(1234));
    assert_eq!(second, first);
    assert_eq!(owner.compute_month_leftovers(5), between);
}

#[test]
fn read_gives_what_was_written() {
    let mut owner = HolidaysActor::new(HolidaysInner::default());
    let pending = owner.set_start_holiday_amount(1550).unwrap();
    assert_eq!(pending.ledger().start_holiday_amount, 1550);
    assert_eq!(pending.ledger().holiday_per_month, 208);
    assert_eq!(pending.ledger().start_month, Month(1));
    assert_eq!(pending.settle(Ok(())), Ok(()));
    assert_eq!(owner.get_start_holiday_amount(), Some(1550));
    assert_eq!(owner.set_start_holiday_amount(-25).unwrap().settle(Ok(())), Ok(()));
    assert_eq!(owner.get_start_holiday_amount(), Some(-25));
    assert_eq!(owner.compute_month_leftovers(1).unwrap()[0].base, 183);
}

#[test]
fn planned_holiday_shows_in_the_next_projection() {
    let mut owner = HolidaysActor::new(ledger(1, 0, 200, &[]));
    let before = owner.compute_month_leftovers(4).unwrap();
    let pending = owner.set_planned_holiday(Month(2), 150).unwrap();
    assert_eq!(entries(pending.ledger()), vec![(2, 150)]);
    assert_eq!(pending.settle(Ok(())), Ok(()));
    let after = owner.compute_month_leftovers(4).unwrap();
    assert_eq!(after[0], before[0]);
    assert_eq!(after[1], MonthHolidays { base: 400, remaining: 250, used: 150 });
    assert_eq!(after[2].remaining, before[2].remaining - 150);
    assert_eq!(after[3].remaining, before[3].remaining - 150);
    assert_eq!(after[2].base, before[2].base);
    assert_eq!(after[3].used, 0);
}

#[test]
fn every_write_hands_back_the_whole_ledger() {
    let mut owner = HolidaysActor::new(ledger(3, 10, 20, &[(4, 1)]));
    let pending = owner.set_planned_holiday(Month(7), 2).unwrap();
    let first = pending.ledger();
    assert_eq!(entries(first), vec![(4, 1), (7, 2)]);
    assert_eq!((first.start_month, first.start_holiday_amount, first.holiday_per_month), (Month(3), 10, 20));
    assert_eq!(pending.settle(Ok(())), Ok(()));
    let pending = owner.set_start_holiday_amount(99).unwrap();
    let second = pending.ledger();
    assert_eq!(entries(second), vec![(4, 1), (7, 2)]);
    assert_eq!((second.start_month, second.start_holiday_amount, second.holiday_per_month), (Month(3), 99, 20));
    assert_eq!(pending.settle(Ok(())), Ok(()));
    let pending = owner.set_planned_holiday(Month(4), 5).unwrap();
    let third = pending.ledger();
    assert_eq!(entries(third), vec![(4, 5), (7, 2)]);
    assert_eq!(third.start_holiday_amount, 99);
    assert_eq!(pending.settle(Ok(())), Ok(()));
}

#[test]
fn stopped_owner_serves_nothing() {
    let mut owner = HolidaysActor::new(ledger(1, 40, 200, &[]));
    owner.shutdown();
    assert!(!owner.is_active());
    assert_eq!(owner.get_start_holiday_amount(), None);
    assert_eq!(owner.compute_month_leftovers(3), None);
    assert_eq!(owner.compute_month_leftovers(0), None);
    assert_eq!(owner.set_planned_holiday(Month(1), 100).unwrap_err(), "actor not running");
    assert_eq!(owner.set_start_holiday_amount(7).unwrap_err(), "actor not running");
    assert_eq!(not_running(), "actor not running");
    owner.shutdown();
    assert!(!owner.is_active());
}

#[test]
fn commands_answer_in_plain_values() {
    let mut owner = HolidaysActor::new(ledger(1, 0, 200, &[]));
    assert_eq!(commands::get_start_holiday_amount(&owner), Ok(0));
    assert_eq!(commands::compute_month_leftovers(&owner, 0), Ok(vec![]));
    let pending = commands::set_planned_holiday(&mut owner, Month(1), 100).unwrap();
    assert_eq!(entries(pending.ledger()), vec![(1, 100)]);
    assert_eq!(pending.settle(Ok(())), Ok(()));
    let pending = commands::set_start_holiday_amount(&mut owner, 50).unwrap();
    assert_eq!(pending.ledger().start_holiday_amount, 50);
    assert_eq!(entries(pending.ledger()), vec![(1, 100)]);
    assert_eq!(pending.settle(Ok(())), Ok(()));
    assert_eq!(commands::get_start_holiday_amount(&owner), Ok(50));
    assert_eq!(
        commands::compute_month_leftovers(&owner, 2),
        Ok(vec![
            MonthHolidays { base: 250, remaining: 150, used: 100 },
            MonthHolidays { base: 450, remaining: 350, used: 0 },
        ])
    );
}

#[test]
fn commands_say_when_the_owner_has_stopped() {
    let mut owner = HolidaysActor::new(ledger(1, 0, 200, &[]));
    owner.shutdown();
    assert_eq!(commands::get_start_holiday_amount(&owner), Err(String::from("actor is not running")));
    assert_eq!(commands::compute_month_leftovers(&owner, 3), Err(String::from("actor is not running")));
    assert_eq!(commands::unavailable(), "actor is not running");
    assert_eq!(
        commands::set_planned_holiday(&mut owner, Month(1), 100).unwrap_err(),
        "actor not running"
    );
    assert_eq!(commands::set_start_holiday_amount(&mut owner, 1).unwrap_err(), "actor not running");
}

#[test]
fn serve_answers_every_request() {
    let mut owner = HolidaysActor::new(ledger(1, 30, 200, &[]));
    assert!(matches!(owner.serve(Request::GetStartHolidayAmount), Reply::StartHolidayAmount(30)));
    match owner.serve(Request::ComputeMonthLeftovers { months_count: 1 }) {
        Reply::MonthLeftovers(months) => {
            assert_eq!(months, vec![MonthHolidays { base: 230, remaining: 230, used: 0 }])
        }
        other => panic!("{:?}", other),
    }
    match owner.serve(Request::SetPlannedHoliday { month: Month(1), number_of_day: 80 }) {
        Reply::Persist(pending) => {
            assert_eq!(entries(pending.ledger()), vec![(1, 80)]);
            assert_eq!(pending.ledger().start_holiday_amount, 30);
            assert_eq!(pending.settle(Ok(())), Ok(()));
        }
        other => panic!("{:?}", other),
    }
    match owner.serve(Request::SetStartHolidayAmount { start_holiday_amount: 60 }) {
        Reply::Persist(pending) => {
            assert_eq!(entries(pending.ledger()), vec![(1, 80)]);
            assert_eq!(pending.ledger().start_holiday_amount, 60);
            assert_eq!(
                pending.settle(Err(PersistError::Serialize(String::from("bad")))),
                Err(String::from("failed to serialize: bad"))
            );
        }
        other => panic!("{:?}", other),
    }
    match owner.serve(Request::ComputeMonthLeftovers { months_count: 1 }) {
        Reply::MonthLeftovers(months) => {
            assert_eq!(months, vec![MonthHolidays { base: 260, remaining: 180, used: 80 }])
        }
        other => panic!("{:?}", other),
    }
}

#[test]
fn serve_refuses_everything_once_stopped() {
    let mut owner = HolidaysActor::new(ledger(1, 30, 200, &[]));
    owner.shutdown();
    let requests = [
        Request::GetStartHolidayAmount,
        Request::ComputeMonthLeftovers { months_count: 2 },
        Request::SetPlannedHoliday { month: Month(1), number_of_day: 80 },
        Request::SetStartHolidayAmount { start_holiday_amount: 60 },
    ];
    for request in requests {
        assert!(matches!(owner.serve(request), Reply::Unavailable));
    }
}

#[test]
fn requests_are_served_in_the_order_given() {
    let mut owner = HolidaysActor::new(ledger(1, 0, 100, &[]));
    let run = [
        Request::GetStartHolidayAmount,
        Request::SetStartHolidayAmount { start_holiday_amount: 10 },
        Request::GetStartHolidayAmount,
        Request::SetPlannedHoliday { month: Month(1), number_of_day: 40 },
        Request::SetStartHolidayAmount { start_holiday_amount: 20 },
        Request::ComputeMonthLeftovers { months_count: 1 },
        Request::SetPlannedHoliday { month: Month(1), number_of_day: 5 },
        Request::ComputeMonthLeftovers { months_count: 1 },
        Request::GetStartHolidayAmount,
    ];
    let mut seen: Vec<i128> = Vec::new();
    for request in run {
        match owner.serve(request) {
            Reply::StartHolidayAmount(amount) => seen.push(amount as i128),
            Reply::MonthLeftovers(months) => seen.push(months[0].remaining),
            Reply::Persist(pending) => {
                let written = pending.ledger();
                seen.push(
                    written.start_holiday_amount as i128
                        + 1000 * written.holidays.get(&1).copied().unwrap_or(0) as i128,
                );
                assert_eq!(pending.settle(Ok(())), Ok(()));
            }
            Reply::Unavailable => panic!("the owner runs"),
        }
    }
    assert_eq!(seen, vec![0, 10, 10, 40010, 40020, 80, 5020, 115, 20]);
}

#[test]
fn failed_write_to_disk_keeps_the_new_value() {
    let mut owner = HolidaysActor::new(ledger(1, 0, 200, &[]));
    let pending = owner.set_start_holiday_amount(500).unwrap();
    let told = pending.settle(Err(PersistError::Write(String::from("disk full"))));
    assert_eq!(told, Err(String::from("failed to write to file: disk full")));
    assert_eq!(owner.get_start_holiday_amount(), Some(500));
    let pending = owner.set_planned_holiday(Month(2), 100).unwrap();
    let told = pending.settle(Err(PersistError::Open(String::from("denied"))));
    assert_eq!(told, Err(String::from("failed to open file: denied")));
    assert_eq!(owner.compute_month_leftovers(2).unwrap()[1].used, 100);
}

#[test]
fn write_left_unsettled_still_changed_the_ledger() {
    let mut owner = HolidaysActor::new(ledger(1, 0, 200, &[]));
    let _ = owner.set_planned_holiday(Month(1), 70);
    let _ = owner.set_start_holiday_amount(15);
    assert_eq!(owner.get_start_holiday_amount(), Some(15));
    assert_eq!(
        owner.compute_month_leftovers(1),
        Some(vec![MonthHolidays { base: 215, remaining: 145, used: 70 }])
    );
}

#[test]
fn stopped_owner_keeps_its_ledger_out_of_reach() {
    let mut owner = HolidaysActor::new(ledger(1, 40, 200, &[]));
    assert_eq!(owner.set_start_holiday_amount(41).unwrap().settle(Ok(())), Ok(()));
    owner.shutdown();
    assert!(owner.set_start_holiday_amount(42).is_err());
    assert!(owner.set_planned_holiday(Month(1), 1).is_err());
    assert_eq!(commands::get_start_holiday_amount(&owner).unwrap_err(), "actor is not running");
}
