//! The shapes in which requests come in and answers go out.

use vstd::prelude::*;
use vstd::string::*;
use crate::clock::{format_rfc3339, rfc3339_text, text_view};
use crate::domain::{Reservation, ReservationView};
use crate::error::{client_message, ReservationError};

verus! {

/// A request to book seats on a schedule.
#[derive(Debug)]
pub struct CreateReservationRequest {
    pub content_schedule_id: u64,
    pub reserved_at: Option<String>,
    pub ad_cnt: i32,
    pub cd_cnt: i32,
}

/// A request that names a user's reservation of a schedule and its redeemed flag.
#[derive(Debug)]
pub struct ReservationRequest {
    pub user_id: String,
    pub content_schedule_id: u64,
    pub use_at: bool,
}

/// A request to change the counts of a reservation.
#[derive(Clone, Copy, Debug, PartialEq, Eq, Structural)]
pub struct UpdateReservationRequest {
    pub reservation_id: i32,
    pub ad_cnt: i32,
    pub cd_cnt: i32,
}

/// A request to redeem or to cancel a reservation.
#[derive(Clone, Copy, Debug, PartialEq, Eq, Structural)]
pub struct UpdateStatusRequest {
    pub reservation_id: i32,
}

/// A reservation as it is shown to a client: without its status, and with
/// the time of booking as RFC 3339 text.
#[derive(Debug)]
pub struct ReservationDTO {
    pub id: i32,
    pub user_id: String,
    pub content_schedule_id: u64,
    pub reserved_at: Option<String>,
    pub ad_cnt: i32,
    pub cd_cnt: i32,
    pub use_at: bool,
}

/// The mathematical value of a [`ReservationDTO`].
pub struct ReservationDTOView {
    pub id: i32,
    pub user_id: Seq<char>,
    pub content_schedule_id: u64,
    pub reserved_at: Option<Seq<char>>,
    pub ad_cnt: i32,
    pub cd_cnt: i32,
    pub use_at: bool,
}

impl View for ReservationDTO {
    type V = ReservationDTOView;

    open spec fn view(&self) -> ReservationDTOView {
        ReservationDTOView {
            id: self.id,
            user_id: self.user_id@,
            content_schedule_id: self.content_schedule_id,
            reserved_at: text_view(self.reserved_at),
            ad_cnt: self.ad_cnt,
            cd_cnt: self.cd_cnt,
            use_at: self.use_at,
        }
    }
}

/// A reservation shown with `reserved_at` as the text of its time of booking.
pub open spec fn shown_with(reservation: ReservationView, reserved_at: Option<Seq<char>>) -> ReservationDTOView {
    ReservationDTOView {
        id: reservation.id,
        user_id: reservation.user_id,
        content_schedule_id: reservation.content_schedule_id,
        reserved_at,
        ad_cnt: reservation.ad_cnt,
        cd_cnt: reservation.cd_cnt,
        use_at: reservation.use_at,
    }
}

/// The text of a reservation's time of booking: its RFC 3339 text, and none
/// for a reservation that has no time of booking.
pub open spec fn reserved_at_text(reservation: ReservationView) -> Option<Seq<char>> {
    match reservation.reserved_at {
        Some(at) => rfc3339_text(at.secs, at.nanos),
        None => None,
    }
}

impl ReservationDTO {
    /// Shows a reservation, given the text of its time of booking.
    pub fn assemble(reservation: Reservation, reserved_at: Option<String>) -> (dto: ReservationDTO)
        ensures
            dto@ == shown_with(reservation@, text_view(reserved_at)),
    {
        ReservationDTO {
            id: reservation.id,
            user_id: reservation.user_id,
            content_schedule_id: reservation.content_schedule_id,
            reserved_at,
            ad_cnt: reservation.ad_cnt,
            cd_cnt: reservation.cd_cnt,
            use_at: reservation.use_at,
        }
    }

    /// Shows a reservation: every field but the status is carried over, and
    /// the time of booking becomes its RFC 3339 text.
    pub fn from(reservation: Reservation) -> (dto: ReservationDTO)
        ensures
            dto@ == shown_with(reservation@, reserved_at_text(reservation@)),
    {
        let reserved_at = match reservation.reserved_at {
            Some(at) => format_rfc3339(at.secs, at.nanos),
            None => None,
        };
        ReservationDTO::assemble(reservation, reserved_at)
    }
}

/// The answer to a request to book seats.
#[derive(Debug)]
pub struct CreateReservationResponse {
    pub success: bool,
    pub message: String,
}

/// The message of the answer to a request that ended in `outcome`.
pub open spec fn response_message(outcome: Result<i32, ReservationError>) -> Seq<char> {
    match outcome {
        Ok(_) => "Reservation created successfully"@,
        Err(error) => "Failed to create reservation: "@ + client_message(error),
    }
}

impl CreateReservationResponse {
    /// The answer to a request that ended in `outcome`: success with a fixed
    /// message, or failure with a message that names the error.
    pub fn from_outcome(outcome: Result<i32, ReservationError>) -> (response:
        CreateReservationResponse)
        ensures
            response.success == outcome is Ok,
            response.message@ == response_message(outcome),
    {
        match outcome {
            Ok(_) => CreateReservationResponse {
                success: true,
                message: String::from_str("Reservation created successfully"),
            },
            Err(error) => {
                let mut message = String::from_str("Failed to create reservation: ");
                let reason = error.message();
                message.append(reason.as_str());
                CreateReservationResponse { success: false, message }
            },
        }
    }
}

} // verus!
