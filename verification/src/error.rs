//! The failures a booking request can end in, and the status each one shows to a client.

use vstd::prelude::*;
use vstd::string::*;

verus! {

/// Every way a request to the booking core can fail. Each failure ends the
/// request it belongs to: nothing is retried.
#[derive(Clone, Copy, Debug, PartialEq, Eq, Structural)]
pub enum ReservationError {
    /// The requested counts are malformed or above what the user may ask for.
    InvalidRequest,
    /// The identity gateway did not accept the caller's token.
    Unauthorized,
    /// No reservation has the given id.
    NotFound,
    /// The user already holds an active reservation that excludes this one.
    DuplicateBooking,
    /// The user already holds more seats of the content than allowed.
    LimitExceeded,
    /// The schedule has too few free seats.
    CapacityExceeded,
    /// The requested status change is not part of the lifecycle.
    InvalidTransition,
    /// The stores could not carry out the operation; nothing was changed.
    PersistenceError,
    /// The identity or profile gateway could not be reached or failed.
    UpstreamError,
}

/// The status code a failure is reported with.
pub open spec fn client_status(error: ReservationError) -> u16 {
    match error {
        ReservationError::Unauthorized => 401,
        ReservationError::NotFound => 404,
        ReservationError::InvalidRequest => 400,
        ReservationError::DuplicateBooking => 400,
        ReservationError::LimitExceeded => 400,
        ReservationError::CapacityExceeded => 400,
        ReservationError::InvalidTransition => 409,
        ReservationError::PersistenceError => 500,
        ReservationError::UpstreamError => 500,
    }
}

/// The short text a failure is reported with.
pub open spec fn client_message(error: ReservationError) -> Seq<char> {
    match error {
        ReservationError::InvalidRequest => "invalid request"@,
        ReservationError::Unauthorized => "unauthorized"@,
        ReservationError::NotFound => "reservation not found"@,
        ReservationError::DuplicateBooking => "duplicate booking"@,
        ReservationError::LimitExceeded => "limit exceeded"@,
        ReservationError::CapacityExceeded => "capacity exceeded"@,
        ReservationError::InvalidTransition => "invalid transition"@,
        ReservationError::PersistenceError => "persistence error"@,
        ReservationError::UpstreamError => "upstream error"@,
    }
}

impl ReservationError {
    /// The status code shown to the client: 401 for a rejected token, 404 for an
    /// unknown reservation, 409 for an illegal status change, 400 for every
    /// other rejected request, and 500 where a store or a gateway failed.
    pub fn status_code(&self) -> (code: u16)
        ensures
            code == client_status(*self),
    {
        match self {
            ReservationError::Unauthorized => 401,
            ReservationError::NotFound => 404,
            ReservationError::InvalidRequest => 400,
            ReservationError::DuplicateBooking => 400,
            ReservationError::LimitExceeded => 400,
            ReservationError::CapacityExceeded => 400,
            ReservationError::InvalidTransition => 409,
            ReservationError::PersistenceError => 500,
            ReservationError::UpstreamError => 500,
        }
    }

    /// Whether the failure is the caller's (a 4xx status) and not the service's.
    pub fn is_client_error(&self) -> (client: bool)
        ensures
            client == (400 <= client_status(*self) < 500),
    {
        let code: u16 = self.status_code();
        400 <= code && code < 500
    }

    /// The text shown to the client.
    pub fn message(&self) -> (text: String)
        ensures
            text@ == client_message(*self),
    {
        match self {
            ReservationError::InvalidRequest => String::from_str("invalid request"),
            ReservationError::Unauthorized => String::from_str("unauthorized"),
            ReservationError::NotFound => String::from_str("reservation not found"),
            ReservationError::DuplicateBooking => String::from_str("duplicate booking"),
            ReservationError::LimitExceeded => String::from_str("limit exceeded"),
            ReservationError::CapacityExceeded => String::from_str("capacity exceeded"),
            ReservationError::InvalidTransition => String::from_str("invalid transition"),
            ReservationError::PersistenceError => String::from_str("persistence error"),
            ReservationError::UpstreamError => String::from_str("upstream error"),
        }
    }
}

} // verus!
