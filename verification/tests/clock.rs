use reservation_msservice::adapter::ReservationAdapter;
use reservation_msservice::clock::{get_today_start_end_date, SECONDS_PER_DAY};
use reservation_msservice::domain::{Reservation, Timestamp};
use reservation_msservice::dto::ReservationDTO;
use reservation_msservice::error::ReservationError;
use reservation_msservice::repository::ReservationRepositoryImpl;
use reservation_msservice::service::ReservationService;

fn whole(secs: i64) -> Timestamp {
    Timestamp { secs, nanos: 0 }
}

fn stamped(secs: i64, nanos: u32) -> Reservation {
    let mut reservation = Reservation::requested("ann".to_string(), 1, 1, 0);
    reservation.reserved_at = Some(Timestamp { secs, nanos });
    reservation
}

#[test]
fn a_day_runs_from_midnight_to_the_last_second() {
    assert_eq!(SECONDS_PER_DAY, 86_400);
    assert_eq!(get_today_start_end_date(whole(0)), Some((whole(0), whole(86_399))));
    assert_eq!(get_today_start_end_date(whole(86_399)), Some((whole(0), whole(86_399))));
    assert_eq!(get_today_start_end_date(whole(86_400)), Some((whole(86_400), whole(172_799))));
    // 2015-05-15T13:20:00Z
    assert_eq!(get_today_start_end_date(whole(1_431_696_000)), Some((whole(1_431_648_000), whole(1_431_734_399))));
}

#[test]
fn the_nanoseconds_of_now_do_not_move_the_day() {
    let late = Timestamp { secs: 86_399, nanos: 999_999_999 };
    assert_eq!(get_today_start_end_date(late), Some((whole(0), whole(86_399))));
}

#[test]
fn days_before_1970_round_down() {
    assert_eq!(get_today_start_end_date(whole(-1)), Some((whole(-86_400), whole(-1))));
    assert_eq!(get_today_start_end_date(whole(-86_400)), Some((whole(-86_400), whole(-1))));
    assert_eq!(get_today_start_end_date(whole(-86_401)), Some((whole(-172_800), whole(-86_401))));
}

#[test]
fn a_day_that_does_not_fit_is_none() {
    assert_eq!(get_today_start_end_date(whole(i64::MAX)), None);
    assert_eq!(get_today_start_end_date(whole(i64::MIN)), None);
    let last_start = i64::MAX - i64::MAX.rem_euclid(86_400) - 86_400;
    assert_eq!(
        get_today_start_end_date(whole(last_start + 5)),
        Some((whole(last_start), whole(last_start + 86_399)))
    );
}

#[test]
fn today_is_the_whole_day_around_the_clocks_instant() {
    let clock = chrono::Utc::now();
    let now = Timestamp { secs: clock.timestamp(), nanos: clock.timestamp_subsec_nanos() };
    let (start, end) = get_today_start_end_date(now).unwrap();
    assert_eq!(start.nanos, 0);
    assert_eq!(end.nanos, 0);
    assert_eq!(start.secs.rem_euclid(86_400), 0);
    assert_eq!(end.secs, start.secs + 86_399);
    assert!(start.secs <= now.secs && now.secs <= end.secs);
    // the same day as the calendar's
    let midnight = clock.date_naive().and_hms_opt(0, 0, 0).unwrap().and_utc().timestamp();
    assert_eq!(start.secs, midnight);
}

#[test]
fn the_list_for_today_holds_what_was_booked_on_the_day_of_now() {
    let now = Timestamp { secs: 1_431_696_000, nanos: 5 };
    let mut repository = ReservationRepositoryImpl::new();
    assert_eq!(repository.register_schedule(1, 100, 0, 50), Ok(()));
    // the day before, its last instant
    assert_eq!(repository.save_reservation(stamped(1_431_647_999, 999_999_999)), Ok(1));
    // the first and the last second of the day
    assert_eq!(repository.save_reservation(stamped(1_431_648_000, 0)), Ok(2));
    assert_eq!(repository.save_reservation(stamped(1_431_734_399, 0)), Ok(3));
    // past the last whole second
    assert_eq!(repository.save_reservation(stamped(1_431_734_399, 1)), Ok(4));
    assert_eq!(repository.save_reservation(stamped(1_431_734_400, 0)), Ok(5));
    assert_eq!(
        repository.save_reservation(Reservation::requested("ann".to_string(), 1, 1, 0)),
        Ok(6)
    );
    let service = ReservationService::new(ReservationAdapter::new(repository));
    let listed = service.show_today_reservations(now).unwrap();
    assert_eq!(listed.iter().map(|r| r.id).collect::<Vec<i32>>(), vec![2, 3]);
    let next_day = Timestamp { secs: 1_431_734_400, nanos: 0 };
    let listed = service.show_today_reservations(next_day).unwrap();
    assert_eq!(listed.iter().map(|r| r.id).collect::<Vec<i32>>(), vec![5]);
}

#[test]
fn the_list_for_a_day_that_does_not_fit_is_a_persistence_error() {
    let service = ReservationService::new(ReservationAdapter::new(ReservationRepositoryImpl::new()));
    assert_eq!(
        service.show_today_reservations(whole(i64::MAX)).err(),
        Some(ReservationError::PersistenceError)
    );
    assert_eq!(
        service.show_today_reservations(whole(i64::MIN)).err(),
        Some(ReservationError::PersistenceError)
    );
    assert!(service.show_today_reservations(whole(0)).unwrap().is_empty());
}

#[test]
fn a_time_of_booking_is_shown_as_rfc_3339() {
    // 2015-05-15T00:00:00Z
    let shown = ReservationDTO::from(stamped(1_431_648_000, 0));
    assert_eq!(shown.reserved_at.as_deref(), Some("2015-05-15T00:00:00+00:00"));
    let epoch = ReservationDTO::from(stamped(0, 0));
    assert_eq!(epoch.reserved_at.as_deref(), Some("1970-01-01T00:00:00+00:00"));
    let before = ReservationDTO::from(stamped(-1, 0));
    assert_eq!(before.reserved_at.as_deref(), Some("1969-12-31T23:59:59+00:00"));
}

#[test]
fn fractions_of_a_second_are_shown_as_far_as_they_go() {
    let millis = ReservationDTO::from(stamped(1_431_648_000, 250_000_000));
    assert_eq!(millis.reserved_at.as_deref(), Some("2015-05-15T00:00:00.250+00:00"));
    let micros = ReservationDTO::from(stamped(1_431_648_000, 1_500));
    assert_eq!(micros.reserved_at.as_deref(), Some("2015-05-15T00:00:00.000001500+00:00"));
    let micros_even = ReservationDTO::from(stamped(1_431_648_000, 2_000));
    assert_eq!(micros_even.reserved_at.as_deref(), Some("2015-05-15T00:00:00.000002+00:00"));
}

#[test]
fn the_text_is_what_chrono_writes() {
    for (secs, nanos) in [(0_i64, 0_u32), (1_700_000_000, 123_456_789), (-86_400, 1), (253_402_300_799, 0)] {
        let expected = chrono::DateTime::<chrono::Utc>::from_timestamp(secs, nanos).unwrap().to_rfc3339();
        let shown = ReservationDTO::from(stamped(secs, nanos));
        assert_eq!(shown.reserved_at, Some(expected));
    }
}

#[test]
fn an_instant_that_chrono_has_no_date_for_is_shown_without_text() {
    let far = ReservationDTO::from(stamped(i64::MAX, 0));
    assert_eq!(far.reserved_at, None);
    let bad_nanos = ReservationDTO::from(stamped(0, 2_000_000_000));
    assert_eq!(bad_nanos.reserved_at, None);
    // a leap second is written as second 60
    let leap = ReservationDTO::from(stamped(59, 1_000_000_000));
    assert_eq!(leap.reserved_at.as_deref(), Some("1970-01-01T00:00:60+00:00"));
    let not_leap = ReservationDTO::from(stamped(58, 1_000_000_000));
    assert_eq!(not_leap.reserved_at, None);
}
