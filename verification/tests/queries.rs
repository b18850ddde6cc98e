use reservation_msservice::admission::ReservationLimits;
use reservation_msservice::domain::{Reservation, ReservationStatus, Timestamp};
use reservation_msservice::repository::ReservationRepositoryImpl;

fn ask(user: &str, schedule_id: u64, ad_cnt: i32, cd_cnt: i32) -> Reservation {
    Reservation::requested(user.to_string(), schedule_id, ad_cnt, cd_cnt)
}

fn ask_at(user: &str, schedule_id: u64, secs: i64, nanos: u32) -> Reservation {
    let mut asked = ask(user, schedule_id, 1, 0);
    asked.reserved_at = Some(Timestamp { secs, nanos });
    asked
}

/// Schedules 1 and 2 are occurrences of content 100 and start at different
/// times; schedule 3 is of content 200 and starts when schedule 1 starts.
fn three_schedules() -> ReservationRepositoryImpl {
    let mut store = ReservationRepositoryImpl::new();
    assert_eq!(store.register_schedule(1, 100, 1_000, 50), Ok(()));
    assert_eq!(store.register_schedule(2, 100, 2_000, 50), Ok(()));
    assert_eq!(store.register_schedule(3, 200, 1_000, 50), Ok(()));
    store
}

fn ids(found: &[Reservation]) -> Vec<i32> {
    found.iter().map(|r| r.id).collect()
}

fn totals(adults: i64, children: i64) -> ReservationLimits {
    ReservationLimits { total_adults: Some(adults), total_children: Some(children) }
}

const NO_TOTALS: ReservationLimits = ReservationLimits { total_adults: None, total_children: None };

#[test]
fn content_booking_looks_at_every_schedule_of_the_content() {
    let mut store = three_schedules();
    assert_eq!(store.check_user_reservation_for_content("ann", 1), Ok(false));
    assert_eq!(store.save_reservation(ask("ann", 1, 2, 0)), Ok(1));
    assert_eq!(store.check_user_reservation_for_content("ann", 1), Ok(true));
    assert_eq!(store.check_user_reservation_for_content("ann", 2), Ok(true));
    assert_eq!(store.check_user_reservation_for_content("ann", 3), Ok(false));
    assert_eq!(store.check_user_reservation_for_content("bob", 1), Ok(false));
    assert_eq!(store.check_user_reservation_for_content("ann", 9), Ok(false));
    assert_eq!(store.check_user_reservation_for_content("", 1), Ok(false));
}

#[test]
fn content_booking_ignores_cancelled_reservations() {
    let mut store = three_schedules();
    assert_eq!(store.save_reservation(ask("ann", 1, 2, 0)), Ok(1));
    assert_eq!(store.update_status(1, ReservationStatus::Confirmed), Ok(()));
    assert_eq!(store.check_user_reservation_for_content("ann", 2), Ok(true));
    assert_eq!(store.update_status(1, ReservationStatus::Cancelled), Ok(()));
    assert_eq!(store.check_user_reservation_for_content("ann", 2), Ok(false));
    assert_eq!(store.check_user_reservation_for_content("ann", 1), Ok(false));
}

#[test]
fn overlapping_time_needs_another_schedule_with_the_same_start() {
    let mut store = three_schedules();
    assert_eq!(store.save_reservation(ask("ann", 1, 1, 0)), Ok(1));
    // the reservation of schedule 1 itself is not an overlap with schedule 1
    assert_eq!(store.check_schedule_and_reservation("ann", 1), Ok(false));
    // schedule 3 starts when schedule 1 starts
    assert_eq!(store.check_schedule_and_reservation("ann", 3), Ok(true));
    // schedule 2 starts at another time
    assert_eq!(store.check_schedule_and_reservation("ann", 2), Ok(false));
    assert_eq!(store.check_schedule_and_reservation("bob", 3), Ok(false));
    assert_eq!(store.check_schedule_and_reservation("ann", 9), Ok(false));
    assert_eq!(store.update_status(1, ReservationStatus::Cancelled), Ok(()));
    assert_eq!(store.check_schedule_and_reservation("ann", 3), Ok(false));
}

#[test]
fn the_aggregate_sums_what_the_user_holds_of_the_content() {
    let mut store = three_schedules();
    assert_eq!(store.check_reservation_for_user_count("ann", 1), Ok(NO_TOTALS));
    assert_eq!(store.save_reservation(ask("ann", 1, 2, 1)), Ok(1));
    assert_eq!(store.save_reservation(ask("ann", 2, 3, 0)), Ok(2));
    assert_eq!(store.save_reservation(ask("ann", 3, 7, 7)), Ok(3));
    assert_eq!(store.save_reservation(ask("bob", 1, 4, 4)), Ok(4));
    // ann holds (2, 1) and (3, 0) of content 100
    assert_eq!(store.check_reservation_for_user_count("ann", 1), Ok(totals(5, 1)));
    assert_eq!(store.check_reservation_for_user_count("ann", 2), Ok(totals(5, 1)));
    assert_eq!(store.check_reservation_for_user_count("ann", 3), Ok(totals(7, 7)));
    assert_eq!(store.check_reservation_for_user_count("bob", 2), Ok(totals(4, 4)));
    assert_eq!(store.check_reservation_for_user_count("bob", 3), Ok(NO_TOTALS));
    assert_eq!(store.check_reservation_for_user_count("ann", 9), Ok(NO_TOTALS));
}

#[test]
fn the_aggregate_leaves_cancelled_reservations_out() {
    let mut store = three_schedules();
    assert_eq!(store.save_reservation(ask("ann", 1, 2, 1)), Ok(1));
    assert_eq!(store.save_reservation(ask("ann", 2, 3, 0)), Ok(2));
    assert_eq!(store.update_status(1, ReservationStatus::Cancelled), Ok(()));
    assert_eq!(store.check_reservation_for_user_count("ann", 1), Ok(totals(3, 0)));
    assert_eq!(store.update_status(2, ReservationStatus::Cancelled), Ok(()));
    assert_eq!(store.check_reservation_for_user_count("ann", 1), Ok(NO_TOTALS));
}

#[test]
fn the_aggregate_of_empty_reservations_is_zero_and_not_absent() {
    let mut store = three_schedules();
    assert_eq!(store.save_reservation(ask("ann", 1, 0, 0)), Ok(1));
    assert_eq!(store.check_reservation_for_user_count("ann", 2), Ok(totals(0, 0)));
}

#[test]
fn reservations_are_listed_by_user_in_the_order_of_admission() {
    let mut store = three_schedules();
    assert_eq!(store.save_reservation(ask("ann", 1, 1, 0)), Ok(1));
    assert_eq!(store.save_reservation(ask("bob", 1, 1, 0)), Ok(2));
    assert_eq!(store.save_reservation(ask("ann", 3, 1, 0)), Ok(3));
    assert_eq!(store.update_status(1, ReservationStatus::Cancelled), Ok(()));
    assert_eq!(ids(&store.load_reservations_by_user("ann").unwrap()), vec![1, 3]);
    assert_eq!(ids(&store.load_reservations_by_user("bob").unwrap()), vec![2]);
    assert!(store.load_reservations_by_user("cid").unwrap().is_empty());
    assert!(store.load_reservations_by_user("an").unwrap().is_empty());
    let listed = store.load_reservations_by_user("ann").unwrap();
    assert_eq!(listed[0].status, Some(ReservationStatus::Cancelled));
    assert_eq!(listed[1].content_schedule_id, 3);
}

#[test]
fn reservations_are_listed_by_schedule() {
    let mut store = three_schedules();
    assert_eq!(store.save_reservation(ask("ann", 1, 1, 0)), Ok(1));
    assert_eq!(store.save_reservation(ask("bob", 2, 1, 0)), Ok(2));
    assert_eq!(store.save_reservation(ask("cid", 1, 1, 0)), Ok(3));
    assert_eq!(ids(&store.load_reservation_by_content_schedule(1).unwrap()), vec![1, 3]);
    assert_eq!(ids(&store.load_reservation_by_content_schedule(2).unwrap()), vec![2]);
    assert!(store.load_reservation_by_content_schedule(3).unwrap().is_empty());
    assert!(store.load_reservation_by_content_schedule(9).unwrap().is_empty());
}

#[test]
fn reservations_are_listed_by_time_of_booking() {
    let mut store = three_schedules();
    assert_eq!(store.save_reservation(ask_at("ann", 1, 86_399, 999_999_999)), Ok(1));
    assert_eq!(store.save_reservation(ask_at("bob", 1, 86_400, 0)), Ok(2));
    assert_eq!(store.save_reservation(ask_at("cid", 1, 172_799, 0)), Ok(3));
    assert_eq!(store.save_reservation(ask_at("dan", 1, 172_799, 1)), Ok(4));
    assert_eq!(store.save_reservation(ask("eve", 1, 1, 0)), Ok(5));
    let start = Timestamp { secs: 86_400, nanos: 0 };
    let end = Timestamp { secs: 172_799, nanos: 0 };
    assert_eq!(ids(&store.load_reservations_between(start, end).unwrap()), vec![2, 3]);
    let all = Timestamp { secs: i64::MAX, nanos: u32::MAX };
    let none = Timestamp { secs: i64::MIN, nanos: 0 };
    assert_eq!(ids(&store.load_reservations_between(none, all).unwrap()), vec![1, 2, 3, 4]);
    assert!(store.load_reservations_between(end, start).unwrap().is_empty());
}

#[test]
fn instants_are_ordered_by_seconds_then_nanoseconds() {
    let early = Timestamp { secs: 5, nanos: 900 };
    let late = Timestamp { secs: 6, nanos: 0 };
    assert!(early.is_at_or_before(&late));
    assert!(!late.is_at_or_before(&early));
    assert!(early.is_at_or_before(&early));
    assert!(Timestamp { secs: 5, nanos: 899 }.is_at_or_before(&early));
    assert!(!Timestamp { secs: 5, nanos: 901 }.is_at_or_before(&early));
    assert!(early.is_within(&early, &late));
    assert!(late.is_within(&early, &late));
    assert!(!Timestamp { secs: 6, nanos: 1 }.is_within(&early, &late));
    assert!(Timestamp { secs: -1, nanos: 0 }.is_at_or_before(&Timestamp { secs: 0, nanos: 0 }));
}
