use reservation_msservice::domain::{Reservation, ReservationStatus, Timestamp};
use reservation_msservice::dto::{
    CreateReservationRequest, CreateReservationResponse, ReservationDTO, ReservationRequest,
    UpdateReservationRequest, UpdateStatusRequest,
};
use reservation_msservice::error::ReservationError;

fn stored() -> Reservation {
    Reservation {
        id: 12,
        user_id: "ann".to_string(),
        content_schedule_id: 4,
        reserved_at: Some(Timestamp { secs: 1_431_648_000, nanos: 0 }),
        status: Some(ReservationStatus::Confirmed),
        ad_cnt: 2,
        cd_cnt: 1,
        use_at: true,
    }
}

#[test]
fn a_reservation_is_shown_field_by_field() {
    let shown = ReservationDTO::from(stored());
    assert_eq!(shown.id, 12);
    assert_eq!(shown.user_id, "ann");
    assert_eq!(shown.content_schedule_id, 4);
    assert_eq!(shown.reserved_at.as_deref(), Some("2015-05-15T00:00:00+00:00"));
    assert_eq!(shown.ad_cnt, 2);
    assert_eq!(shown.cd_cnt, 1);
    assert!(shown.use_at);
}

#[test]
fn a_reservation_without_a_time_is_shown_without_one() {
    let shown = ReservationDTO::from(Reservation::requested("bob".to_string(), 9, 0, 3));
    assert_eq!(shown.id, 0);
    assert_eq!(shown.user_id, "bob");
    assert_eq!(shown.content_schedule_id, 9);
    assert_eq!(shown.reserved_at, None);
    assert_eq!((shown.ad_cnt, shown.cd_cnt), (0, 3));
    assert!(!shown.use_at);
}

#[test]
fn assemble_takes_the_text_as_it_is_given() {
    let shown = ReservationDTO::assemble(stored(), Some("yesterday".to_string()));
    assert_eq!(shown.reserved_at.as_deref(), Some("yesterday"));
    assert_eq!(shown.id, 12);
    assert_eq!(shown.user_id, "ann");
    let bare = ReservationDTO::assemble(stored(), None);
    assert_eq!(bare.reserved_at, None);
    assert_eq!((bare.ad_cnt, bare.cd_cnt, bare.use_at), (2, 1, true));
}

#[test]
fn the_answer_to_a_booking_says_how_it_ended() {
    let good = CreateReservationResponse::from_outcome(Ok(5));
    assert!(good.success);
    assert_eq!(good.message, "Reservation created successfully");
    let full = CreateReservationResponse::from_outcome(Err(ReservationError::CapacityExceeded));
    assert!(!full.success);
    assert_eq!(full.message, "Failed to create reservation: capacity exceeded");
    let down = CreateReservationResponse::from_outcome(Err(ReservationError::PersistenceError));
    assert!(!down.success);
    assert_eq!(down.message, "Failed to create reservation: persistence error");
}

#[test]
fn requests_carry_plain_fields() {
    let create = CreateReservationRequest {
        content_schedule_id: 3,
        reserved_at: Some("2015-05-15T00:00:00+00:00".to_string()),
        ad_cnt: 2,
        cd_cnt: 1,
    };
    assert_eq!(create.content_schedule_id, 3);
    assert_eq!((create.ad_cnt, create.cd_cnt), (2, 1));
    assert!(create.reserved_at.is_some());
    let named = ReservationRequest { user_id: "ann".to_string(), content_schedule_id: 3, use_at: true };
    assert_eq!(named.user_id, "ann");
    assert!(named.use_at);
    let update = UpdateReservationRequest { reservation_id: 8, ad_cnt: 1, cd_cnt: 0 };
    assert_eq!(update, UpdateReservationRequest { reservation_id: 8, ad_cnt: 1, cd_cnt: 0 });
    let status = UpdateStatusRequest { reservation_id: 8 };
    assert_eq!(status.reservation_id, update.reservation_id);
}
