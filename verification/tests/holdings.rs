use reservation_msservice::admission::ReservationLimits;
use reservation_msservice::domain::{Reservation, ReservationStatus};
use reservation_msservice::holdings::{
    aggregate_user_counts, has_content_booking, has_overlapping_time_booking, Holding,
};
use reservation_msservice::occupancy::ScheduleOccupancy;
use reservation_msservice::repository::ReservationRepositoryImpl;

fn holding(schedule_id: u64, content_id: u64, start_time: i64, ad_cnt: i32, cd_cnt: i32) -> Holding {
    Holding {
        schedule_id,
        content_id,
        start_time,
        status: Some(ReservationStatus::Pending),
        ad_cnt,
        cd_cnt,
    }
}

fn cancelled(mut held: Holding) -> Holding {
    held.status = Some(ReservationStatus::Cancelled);
    held
}

fn target(schedule_id: u64, content_id: u64, start_time: i64) -> Option<ScheduleOccupancy> {
    Some(ScheduleOccupancy { schedule_id, content_id, start_time, ad_cnt: 0, cd_cnt: 0, capacity: 50 })
}

fn sums(adults: i64, children: i64) -> ReservationLimits {
    ReservationLimits { total_adults: Some(adults), total_children: Some(children) }
}

const NO_SUMS: ReservationLimits = ReservationLimits { total_adults: None, total_children: None };

#[test]
fn a_live_holding_of_the_content_is_a_content_booking() {
    let held = vec![holding(1, 100, 1_000, 2, 0), holding(3, 200, 1_000, 1, 1)];
    assert!(has_content_booking(&held, target(1, 100, 1_000)));
    assert!(has_content_booking(&held, target(2, 100, 2_000)));
    assert!(has_content_booking(&held, target(3, 200, 1_000)));
    assert!(!has_content_booking(&held, target(4, 300, 1_000)));
    assert!(!has_content_booking(&held, None));
    assert!(!has_content_booking(&vec![], target(1, 100, 1_000)));
}

#[test]
fn a_cancelled_holding_is_no_content_booking() {
    let held = vec![cancelled(holding(1, 100, 1_000, 2, 0))];
    assert!(!has_content_booking(&held, target(1, 100, 1_000)));
    let mixed = vec![cancelled(holding(1, 100, 1_000, 2, 0)), holding(2, 100, 2_000, 1, 0)];
    assert!(has_content_booking(&mixed, target(1, 100, 1_000)));
    let unset = vec![Holding { status: None, ..holding(1, 100, 1_000, 2, 0) }];
    assert!(has_content_booking(&unset, target(1, 100, 1_000)));
}

#[test]
fn an_overlap_is_another_schedule_with_the_same_start() {
    let held = vec![holding(1, 100, 1_000, 2, 0)];
    assert!(!has_overlapping_time_booking(&held, target(1, 100, 1_000)));
    assert!(has_overlapping_time_booking(&held, target(3, 200, 1_000)));
    assert!(!has_overlapping_time_booking(&held, target(2, 100, 2_000)));
    assert!(!has_overlapping_time_booking(&held, None));
    let gone = vec![cancelled(holding(1, 100, 1_000, 2, 0))];
    assert!(!has_overlapping_time_booking(&gone, target(3, 200, 1_000)));
}

#[test]
fn the_totals_are_summed_over_the_live_holdings_of_the_content() {
    let held = vec![
        holding(1, 100, 1_000, 2, 1),
        holding(2, 100, 2_000, 3, 0),
        holding(3, 200, 1_000, 7, 7),
        cancelled(holding(1, 100, 1_000, 9, 9)),
    ];
    assert_eq!(aggregate_user_counts(&held, target(1, 100, 1_000)), Ok(sums(5, 1)));
    assert_eq!(aggregate_user_counts(&held, target(9, 100, 0)), Ok(sums(5, 1)));
    assert_eq!(aggregate_user_counts(&held, target(3, 200, 1_000)), Ok(sums(7, 7)));
    assert_eq!(aggregate_user_counts(&held, target(4, 300, 1_000)), Ok(NO_SUMS));
    assert_eq!(aggregate_user_counts(&held, None), Ok(NO_SUMS));
    assert_eq!(aggregate_user_counts(&vec![], target(1, 100, 1_000)), Ok(NO_SUMS));
    let empty_party = vec![holding(1, 100, 1_000, 0, 0)];
    assert_eq!(aggregate_user_counts(&empty_party, target(1, 100, 1_000)), Ok(sums(0, 0)));
}

#[test]
fn totals_beyond_an_i32_are_still_exact() {
    let held = vec![holding(1, 100, 0, i32::MAX, i32::MAX); 5];
    let expected = 5 * i32::MAX as i64;
    assert_eq!(aggregate_user_counts(&held, target(1, 100, 0)), Ok(sums(expected, expected)));
    let negative = vec![holding(1, 100, 0, i32::MIN, -1); 3];
    assert_eq!(
        aggregate_user_counts(&negative, target(1, 100, 0)),
        Ok(sums(3 * i32::MIN as i64, -3))
    );
}

#[test]
fn the_queries_on_holdings_answer_as_the_stores_do() {
    let mut store = ReservationRepositoryImpl::new();
    assert_eq!(store.register_schedule(1, 100, 1_000, 50), Ok(()));
    assert_eq!(store.register_schedule(2, 100, 2_000, 50), Ok(()));
    assert_eq!(store.register_schedule(3, 200, 1_000, 50), Ok(()));
    let bookings = [("ann", 1, 2, 1), ("bob", 3, 1, 0), ("ann", 2, 3, 0), ("cid", 2, 4, 4), ("ann", 3, 1, 1)];
    for (user, schedule, ad_cnt, cd_cnt) in bookings {
        assert!(store
            .save_reservation(Reservation::requested(user.to_string(), schedule, ad_cnt, cd_cnt))
            .is_ok());
    }
    assert_eq!(store.update_status(3, ReservationStatus::Cancelled), Ok(()));
    assert_eq!(store.update_status(2, ReservationStatus::Confirmed), Ok(()));
    for user in ["ann", "bob", "cid", "dan"] {
        let held = store.holdings_of(user);
        for schedule in [1, 2, 3, 4] {
            let found = store.schedule_occupancy(schedule);
            assert_eq!(
                Ok(has_content_booking(&held, found)),
                store.check_user_reservation_for_content(user, schedule)
            );
            assert_eq!(
                Ok(has_overlapping_time_booking(&held, found)),
                store.check_schedule_and_reservation(user, schedule)
            );
            assert_eq!(
                aggregate_user_counts(&held, found),
                store.check_reservation_for_user_count(user, schedule)
            );
        }
    }
    let of_ann = store.holdings_of("ann");
    assert_eq!(of_ann.len(), 3);
    assert_eq!(of_ann[0], holding(1, 100, 1_000, 2, 1));
    assert_eq!(of_ann[1], cancelled(holding(2, 100, 2_000, 3, 0)));
    assert_eq!(of_ann[2], holding(3, 200, 1_000, 1, 1));
    assert!(store.holdings_of("dan").is_empty());
}
