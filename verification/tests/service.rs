use reservation_msservice::adapter::ReservationAdapter;
use reservation_msservice::admission::Decision;
use reservation_msservice::domain::{Reservation, ReservationStatus, Timestamp};
use reservation_msservice::error::ReservationError;
use reservation_msservice::repository::ReservationRepositoryImpl;
use reservation_msservice::service::ReservationService;

/// Schedules 1 and 2 are occurrences of content 100, schedule 3 of content 200.
fn service_with_schedules(capacity: i32) -> ReservationService {
    let mut repository = ReservationRepositoryImpl::new();
    assert_eq!(repository.register_schedule(1, 100, 1_000, capacity), Ok(()));
    assert_eq!(repository.register_schedule(2, 100, 2_000, capacity), Ok(()));
    assert_eq!(repository.register_schedule(3, 200, 1_000, capacity), Ok(()));
    ReservationService::new(ReservationAdapter::new(repository))
}

fn occupancy_of(service: ReservationService, schedule_id: u64) -> (i32, i32) {
    let occupancy = service.into_adapter().schedule_occupancy(schedule_id).unwrap();
    (occupancy.ad_cnt, occupancy.cd_cnt)
}

#[test]
fn the_adapter_serves_the_repository_it_was_given() {
    let mut repository = ReservationRepositoryImpl::new();
    assert_eq!(repository.register_schedule(1, 100, 1_000, 10), Ok(()));
    assert_eq!(
        repository.save_reservation(Reservation::requested("ann".to_string(), 1, 2, 1)),
        Ok(1)
    );
    let mut adapter = ReservationAdapter::new(repository);
    assert_eq!(adapter.load_reservation(1).unwrap().user_id, "ann");
    assert_eq!(adapter.schedule_occupancy(1).unwrap().ad_cnt, 2);
    assert_eq!(adapter.check_user_reservation_for_content("ann", 1), Ok(true));
    assert_eq!(adapter.check_schedule_and_reservation("ann", 1), Ok(false));
    assert_eq!(
        adapter.check_reservation_for_user_count("ann", 1).unwrap().total_adults,
        Some(2)
    );
    assert_eq!(adapter.load_reservations_by_user("ann").unwrap().len(), 1);
    assert_eq!(adapter.load_reservation_by_content_schedule(1).unwrap().len(), 1);
    assert_eq!(
        adapter.save_reservation(Reservation::requested("bob".to_string(), 1, 7, 0)),
        Ok(2)
    );
    assert_eq!(adapter.update_reservaiton_user_count(2, 8, 0), Err(ReservationError::CapacityExceeded));
    assert_eq!(adapter.update_reservaiton_user_count(2, 6, 1), Ok(()));
    assert_eq!(adapter.update_status(2, ReservationStatus::Confirmed), Ok(()));
    assert_eq!(adapter.set_used(2, true), Ok(()));
    assert_eq!(adapter.register_schedule(1, 100, 1_000, 10), Err(ReservationError::PersistenceError));
    let repository = adapter.into_repository();
    assert_eq!(repository.reservation_count(), 2);
    assert_eq!(repository.schedule_occupancy(1).unwrap().occupied(), 10);
}

#[test]
fn a_first_booking_is_admitted_and_stored() {
    let mut service = service_with_schedules(10);
    assert_eq!(service.book("ann".to_string(), 1, 2, 1, None, 3, 2), Ok(1));
    let stored = service.show_reservation(1).unwrap();
    assert_eq!(stored.user_id, "ann");
    assert_eq!(stored.status, Some(ReservationStatus::Pending));
    assert_eq!((stored.ad_cnt, stored.cd_cnt), (2, 1));
    assert_eq!(occupancy_of(service, 1), (2, 1));
}

#[test]
fn a_booking_above_the_maxima_is_an_invalid_request() {
    let mut service = service_with_schedules(10);
    assert_eq!(
        service.book("ann".to_string(), 1, 4, 0, None, 3, 2),
        Err(ReservationError::InvalidRequest)
    );
    assert_eq!(
        service.book("ann".to_string(), 1, 0, 3, None, 3, 2),
        Err(ReservationError::InvalidRequest)
    );
    assert!(service.show_reservation(1).is_err());
    assert_eq!(occupancy_of(service, 1), (0, 0));
}

#[test]
fn an_admitted_booking_can_still_fail_for_want_of_seats() {
    let mut service = service_with_schedules(3);
    assert_eq!(service.book("ann".to_string(), 1, 2, 0, None, 5, 5), Ok(1));
    assert_eq!(service.check_reservation("bob".to_string(), 1, 2, 0, 5, 5), Ok(true));
    assert_eq!(
        service.book("bob".to_string(), 1, 2, 0, None, 5, 5),
        Err(ReservationError::CapacityExceeded)
    );
    assert_eq!(service.book("bob".to_string(), 1, 1, 0, None, 5, 5), Ok(2));
    assert_eq!(occupancy_of(service, 1), (3, 0));
}

#[test]
fn a_second_booking_of_the_same_content_is_gated_by_what_is_held() {
    // ann holds (2, 0) of content 100 and may hold at most 3 adults
    let mut service = service_with_schedules(10);
    assert_eq!(service.book("ann".to_string(), 1, 2, 0, None, 3, 0), Ok(1));
    // the aggregate gate compares what is held, 2, with the maximum, 3: the
    // request for 2 more on another schedule of the content passes it
    assert_eq!(service.decide("ann", 2, 2, 0, 3, 0), Decision::Admit);
    assert_eq!(service.book("ann".to_string(), 2, 2, 0, None, 3, 0), Ok(2));
    // ann now holds 4 > 3: every further request is over the limit
    assert_eq!(
        service.decide("ann", 2, 1, 0, 3, 0),
        Decision::Reject(ReservationError::LimitExceeded)
    );
    assert_eq!(
        service.book("ann".to_string(), 1, 1, 0, None, 3, 0),
        Err(ReservationError::LimitExceeded)
    );
    assert_eq!(service.check_reservation("ann".to_string(), 2, 0, 0, 3, 0), Ok(false));
    // another content, and another user, are not affected
    assert_eq!(service.decide("ann", 3, 1, 0, 3, 0), Decision::Admit);
    assert_eq!(service.decide("bob", 1, 1, 0, 3, 0), Decision::Admit);
    assert_eq!(occupancy_of(service, 2), (2, 0));
}

#[test]
fn a_user_within_both_limits_is_admitted_again() {
    let mut service = service_with_schedules(10);
    assert_eq!(service.book("ann".to_string(), 1, 1, 1, None, 3, 2), Ok(1));
    // held (1, 1), asking (2, 1): together (3, 2), within (3, 2)
    assert_eq!(service.decide("ann", 2, 2, 1, 3, 2), Decision::Admit);
    assert_eq!(service.book("ann".to_string(), 2, 2, 1, None, 3, 2), Ok(2));
    assert_eq!(service.decide("ann", 1, 0, 0, 3, 2), Decision::Admit);
    assert_eq!(service.decide("ann", 1, 0, 0, 2, 2), Decision::Reject(ReservationError::LimitExceeded));
    assert_eq!(service.decide("ann", 1, 0, 0, 3, 1), Decision::Reject(ReservationError::LimitExceeded));
}

#[test]
fn a_cancelled_booking_does_not_count_towards_the_limit() {
    let mut service = service_with_schedules(10);
    assert_eq!(service.book("ann".to_string(), 1, 3, 0, None, 3, 0), Ok(1));
    assert_eq!(service.book("ann".to_string(), 2, 3, 0, None, 3, 0), Ok(2));
    assert_eq!(
        service.decide("ann", 1, 1, 0, 3, 0),
        Decision::Reject(ReservationError::LimitExceeded)
    );
    assert_eq!(service.cancel_reservation(2), Ok(()));
    assert_eq!(service.decide("ann", 1, 1, 0, 3, 0), Decision::Admit);
    assert_eq!(service.cancel_reservation(1), Ok(()));
    // nothing live is left: the user is admitted at once, whatever the maxima
    assert_eq!(service.decide("ann", 1, 0, 0, -4, -4), Decision::Admit);
}

#[test]
fn deciding_changes_nothing() {
    let mut service = service_with_schedules(10);
    assert_eq!(service.book("ann".to_string(), 1, 2, 0, None, 3, 0), Ok(1));
    assert_eq!(service.decide("ann", 1, 1, 0, 3, 0), Decision::Admit);
    assert_eq!(service.decide("ann", 1, 1, 0, 3, 0), Decision::Admit);
    assert_eq!(service.check_reservation("ann".to_string(), 1, 9, 0, 3, 0), Ok(false));
    assert!(service.show_reservation(2).is_err());
    assert_eq!(occupancy_of(service, 1), (2, 0));
}

#[test]
fn create_goes_straight_to_the_allocator() {
    let mut service = service_with_schedules(10);
    // no maxima are asked for: only the capacity decides
    assert_eq!(
        service.create_reservation(Reservation::requested("ann".to_string(), 1, 9, 0)),
        Ok(1)
    );
    assert_eq!(
        service.create_reservation(Reservation::requested("ann".to_string(), 1, 1, 1)),
        Err(ReservationError::CapacityExceeded)
    );
    assert_eq!(
        service.create_reservation(Reservation::requested("ann".to_string(), 8, 1, 1)),
        Err(ReservationError::PersistenceError)
    );
    assert_eq!(occupancy_of(service, 1), (9, 0));
}

#[test]
fn show_reservation_finds_it_or_says_not_found() {
    let mut service = service_with_schedules(10);
    assert_eq!(service.book("ann".to_string(), 1, 2, 1, None, 3, 2), Ok(1));
    assert_eq!(service.show_reservation(1).unwrap().id, 1);
    assert_eq!(service.show_reservation(1).unwrap().id, 1);
    assert_eq!(service.show_reservation(2).err(), Some(ReservationError::NotFound));
    assert_eq!(service.show_reservation(0).err(), Some(ReservationError::NotFound));
    assert_eq!(service.show_reservation(i32::MIN).err(), Some(ReservationError::NotFound));
}

#[test]
fn use_confirms_and_cancel_cancels() {
    let mut service = service_with_schedules(10);
    assert_eq!(service.book("ann".to_string(), 1, 2, 1, None, 3, 2), Ok(1));
    assert_eq!(service.book("bob".to_string(), 1, 1, 0, None, 3, 2), Ok(2));
    assert_eq!(service.use_reservation(1), Ok(()));
    let used = service.show_reservation(1).unwrap();
    assert_eq!(used.status, Some(ReservationStatus::Confirmed));
    // the redeemed flag is not coupled to the status
    assert!(!used.use_at);
    assert_eq!(service.use_reservation(1), Err(ReservationError::InvalidTransition));
    assert_eq!(service.cancel_reservation(1), Ok(()));
    assert_eq!(service.cancel_reservation(1), Err(ReservationError::InvalidTransition));
    assert_eq!(service.use_reservation(1), Err(ReservationError::InvalidTransition));
    assert_eq!(service.cancel_reservation(2), Ok(()));
    assert_eq!(service.use_reservation(2), Err(ReservationError::InvalidTransition));
    assert_eq!(service.use_reservation(3), Err(ReservationError::NotFound));
    assert_eq!(service.cancel_reservation(3), Err(ReservationError::NotFound));
    // cancelling gave no seat back
    assert_eq!(occupancy_of(service, 1), (3, 1));
}

#[test]
fn update_checks_the_gates_in_order() {
    let mut service = service_with_schedules(10);
    assert_eq!(service.book("ann".to_string(), 1, 2, 0, None, 5, 5), Ok(1));
    assert_eq!(service.book("bob".to_string(), 1, 6, 0, None, 9, 9), Ok(2));
    // above the maximum: invalid, also for an unknown id
    assert_eq!(service.update_reservation(1, 4, 0, 3, 3), Err(ReservationError::InvalidRequest));
    assert_eq!(service.update_reservation(9, 4, 0, 3, 3), Err(ReservationError::InvalidRequest));
    assert_eq!(service.update_reservation(9, 1, 0, 3, 3), Err(ReservationError::NotFound));
    // ann holds 2 adults, more than a maximum of 1
    assert_eq!(service.update_reservation(1, 1, 0, 1, 3), Err(ReservationError::LimitExceeded));
    // 8 held, (2, 0) becomes (3, 2): 11 > 10
    assert_eq!(service.update_reservation(1, 3, 2, 3, 3), Err(ReservationError::CapacityExceeded));
    // a negative count passes the input gate and is refused by the allocator
    assert_eq!(service.update_reservation(1, -1, 0, 3, 3), Err(ReservationError::InvalidRequest));
    let unchanged = service.show_reservation(1).unwrap();
    assert_eq!((unchanged.ad_cnt, unchanged.cd_cnt), (2, 0));
    assert_eq!(service.update_reservation(1, 3, 1, 3, 3), Ok(()));
    let changed = service.show_reservation(1).unwrap();
    assert_eq!((changed.ad_cnt, changed.cd_cnt), (3, 1));
    assert_eq!(occupancy_of(service, 1), (9, 1));
}

#[test]
fn update_looks_at_everything_the_user_holds_of_the_content() {
    let mut service = service_with_schedules(10);
    assert_eq!(service.book("ann".to_string(), 1, 2, 0, None, 9, 9), Ok(1));
    assert_eq!(service.create_reservation(Reservation::requested("ann".to_string(), 2, 2, 0)), Ok(2));
    // ann holds 4 adults of content 100 over two schedules
    assert_eq!(service.update_reservation(1, 1, 0, 3, 0), Err(ReservationError::LimitExceeded));
    assert_eq!(service.update_reservation(1, 1, 0, 4, 0), Ok(()));
    assert_eq!(service.update_reservation(2, 3, 0, 3, 0), Ok(()));
}

#[test]
fn the_users_of_a_schedule_are_listed_one_for_each_reservation() {
    let mut service = service_with_schedules(10);
    assert_eq!(service.book("ann".to_string(), 1, 1, 0, None, 9, 9), Ok(1));
    assert_eq!(service.book("bob".to_string(), 2, 1, 0, None, 9, 9), Ok(2));
    assert_eq!(service.book("cid".to_string(), 1, 1, 0, None, 9, 9), Ok(3));
    assert_eq!(service.book("ann".to_string(), 1, 1, 0, None, 9, 9), Ok(4));
    assert_eq!(service.cancel_reservation(3), Ok(()));
    assert_eq!(
        service.users_by_content_schedule(1),
        Ok(vec!["ann".to_string(), "cid".to_string(), "ann".to_string()])
    );
    assert_eq!(service.users_by_content_schedule(2), Ok(vec!["bob".to_string()]));
    assert_eq!(service.users_by_content_schedule(3), Ok(vec![]));
    assert_eq!(service.users_by_content_schedule(9), Ok(vec![]));
}

#[test]
fn reservations_are_shown_by_user_and_by_time() {
    let mut service = service_with_schedules(10);
    let noon = Timestamp { secs: 43_200, nanos: 0 };
    let next_noon = Timestamp { secs: 129_600, nanos: 0 };
    assert_eq!(service.book("ann".to_string(), 1, 1, 0, Some(noon), 9, 9), Ok(1));
    assert_eq!(service.book("ann".to_string(), 2, 1, 0, Some(next_noon), 9, 9), Ok(2));
    assert_eq!(service.book("bob".to_string(), 2, 1, 0, None, 9, 9), Ok(3));
    let of_ann = service.show_user_reservations("ann").unwrap();
    assert_eq!(of_ann.iter().map(|r| r.id).collect::<Vec<i32>>(), vec![1, 2]);
    let first_day = service
        .show_reservations_between(
            Timestamp { secs: 0, nanos: 0 },
            Timestamp { secs: 86_399, nanos: 0 },
        )
        .unwrap();
    assert_eq!(first_day.iter().map(|r| r.id).collect::<Vec<i32>>(), vec![1]);
    assert_eq!(first_day[0].reserved_at, Some(noon));
}

#[test]
fn a_schedule_can_be_registered_through_the_service() {
    let mut service = service_with_schedules(10);
    assert_eq!(service.register_schedule(4, 300, 5, 2), Ok(()));
    assert_eq!(service.register_schedule(4, 300, 5, 2), Err(ReservationError::PersistenceError));
    assert_eq!(service.register_schedule(5, 300, 5, -2), Err(ReservationError::InvalidRequest));
    assert_eq!(service.book("ann".to_string(), 4, 1, 1, None, 9, 9), Ok(1));
    assert_eq!(service.book("bob".to_string(), 4, 1, 0, None, 9, 9), Err(ReservationError::CapacityExceeded));
    assert_eq!(service.book("bob".to_string(), 5, 1, 0, None, 9, 9), Err(ReservationError::PersistenceError));
}
