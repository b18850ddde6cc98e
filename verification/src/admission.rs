//! The admission controller: the decision, taken before anything is written,
//! whether a request may go on to the allocator.
//!
//! The decision knows nothing of seat capacity. Capacity is checked by the
//! allocator in the same step that writes, because occupancy can change
//! between the decision and the write.

use vstd::prelude::*;
use crate::error::ReservationError;

verus! {

/// What a user already holds of one content, summed over the user's
/// reservations that are not cancelled. Both totals are absent where the user
/// holds no such reservation.
#[derive(Clone, Copy, Debug, PartialEq, Eq, Structural)]
pub struct ReservationLimits {
    pub total_adults: Option<i64>,
    pub total_children: Option<i64>,
}

/// The outcome of the admission controller.
#[derive(Clone, Copy, Debug, PartialEq, Eq, Structural)]
pub enum Decision {
    Admit,
    Reject(ReservationError),
}

/// The number that stands for "no rows" in a total.
pub const NO_ROWS: i64 = -1;

/// The input gate: a requested count above the user's maximum fails it,
/// unless the count is not positive. A count of exactly 0 asks for nothing
/// in that category and passes whatever the maximum is.
pub open spec fn input_counts_valid(ad_cnt: i32, cd_cnt: i32, max_adult: i32, max_child: i32) -> bool {
    &&& !(ad_cnt > max_adult && ad_cnt > 0)
    &&& !(cd_cnt > max_child && cd_cnt > 0)
}

/// A total as one number: an absent total reads as `NO_ROWS`.
pub open spec fn total_or_no_rows(total: Option<i64>) -> int {
    match total {
        Some(t) => t as int,
        None => NO_ROWS as int,
    }
}

/// One total is within its maximum: it does not exceed it, or it is the
/// number that stands for "no rows", which is within every maximum.
pub open spec fn total_within(total: Option<i64>, max: i32) -> bool {
    total_or_no_rows(total) == NO_ROWS || total_or_no_rows(total) <= max
}

/// The aggregate gate: both totals held are within the user's maxima.
pub open spec fn held_within_limits(held: ReservationLimits, max_adult: i32, max_child: i32) -> bool {
    total_within(held.total_adults, max_adult) && total_within(held.total_children, max_child)
}

/// The decision, gate by gate; the first gate that fails gives the outcome.
///
/// 1. Input: counts that fail [`input_counts_valid`] are an `InvalidRequest`.
/// 2. Duplicate: a user who holds no live reservation of the content is
///    admitted at once, whatever the totals say.
/// 3. Aggregate: totals that fail [`held_within_limits`] are `LimitExceeded`.
/// 4. Everything else is admitted.
pub open spec fn decision(
    ad_cnt: i32,
    cd_cnt: i32,
    max_adult: i32,
    max_child: i32,
    has_content_booking: bool,
    held: ReservationLimits,
) -> Decision {
    if !input_counts_valid(ad_cnt, cd_cnt, max_adult, max_child) {
        Decision::Reject(ReservationError::InvalidRequest)
    } else if !has_content_booking {
        Decision::Admit
    } else if !held_within_limits(held, max_adult, max_child) {
        Decision::Reject(ReservationError::LimitExceeded)
    } else {
        Decision::Admit
    }
}

/// The gates of the update use case that come before the allocator; the
/// first gate that fails gives the outcome.
///
/// 1. Input: counts that fail [`input_counts_valid`] are an `InvalidRequest`.
/// 2. Lookup: a reservation that was not found is `NotFound`.
/// 3. Aggregate: totals of the reservation's user that fail
///    [`held_within_limits`] are `LimitExceeded`.
pub open spec fn update_gates(
    ad_cnt: i32,
    cd_cnt: i32,
    max_adult: i32,
    max_child: i32,
    found: bool,
    held: ReservationLimits,
) -> Result<(), ReservationError> {
    if !input_counts_valid(ad_cnt, cd_cnt, max_adult, max_child) {
        Err(ReservationError::InvalidRequest)
    } else if !found {
        Err(ReservationError::NotFound)
    } else if !held_within_limits(held, max_adult, max_child) {
        Err(ReservationError::LimitExceeded)
    } else {
        Ok(())
    }
}

impl Decision {
    /// Whether the request may go on to the allocator.
    pub fn is_admitted(&self) -> (admitted: bool)
        ensures
            admitted == (*self == Decision::Admit),
    {
        match self {
            Decision::Admit => true,
            Decision::Reject(_) => false,
        }
    }

    /// The decision as a result: the reason of a rejection becomes the error.
    pub fn into_result(self) -> (outcome: Result<(), ReservationError>)
        ensures
            self == Decision::Admit ==> outcome == Ok::<(), ReservationError>(()),
            self matches Decision::Reject(reason) ==> outcome == Err::<(), ReservationError>(reason),
    {
        match self {
            Decision::Admit => Ok(()),
            Decision::Reject(reason) => Err(reason),
        }
    }
}

/// The input gate of the admission controller.
pub fn validate_reservation_input_count(ad_cnt: i32, cd_cnt: i32, max_adult: i32, max_child: i32) -> (valid:
    bool)
    ensures
        valid == input_counts_valid(ad_cnt, cd_cnt, max_adult, max_child),
{
    if ad_cnt > max_adult && ad_cnt > 0 {
        return false;
    }
    if cd_cnt > max_child && cd_cnt > 0 {
        return false;
    }
    true
}

/// The aggregate gate of the admission controller.
pub fn is_reservation_available(count: ReservationLimits, max_adult: i32, max_child: i32) -> (available:
    bool)
    ensures
        available == held_within_limits(count, max_adult, max_child),
{
    let total_adults: i64 = match count.total_adults {
        Some(v) => v,
        None => NO_ROWS,
    };
    let total_children: i64 = match count.total_children {
        Some(v) => v,
        None => NO_ROWS,
    };
    if total_adults != NO_ROWS && total_adults > max_adult as i64 {
        return false;
    }
    if total_children != NO_ROWS && total_children > max_child as i64 {
        return false;
    }
    true
}

/// The admission controller on plain values: the request, the user's maxima,
/// and the two answers of the stores (whether the user holds a live
/// reservation of the content, and what the user holds of it in total).
/// `held` is read only where `has_content_booking` is true.
pub fn decide(
    ad_cnt: i32,
    cd_cnt: i32,
    max_adult: i32,
    max_child: i32,
    has_content_booking: bool,
    held: ReservationLimits,
) -> (outcome: Decision)
    ensures
        outcome == decision(ad_cnt, cd_cnt, max_adult, max_child, has_content_booking, held),
{
    if !validate_reservation_input_count(ad_cnt, cd_cnt, max_adult, max_child) {
        return Decision::Reject(ReservationError::InvalidRequest);
    }
    if has_content_booking {
        if !is_reservation_available(held, max_adult, max_child) {
            return Decision::Reject(ReservationError::LimitExceeded);
        }
    }
    Decision::Admit
}

/// The gates of the update use case on plain values: the new counts, the
/// user's maxima, whether the reservation was found, and what its user holds
/// of the content. `held` is read only where `found` is true. Where all
/// gates pass, the change may go on to the allocator.
pub fn check_update(
    ad_cnt: i32,
    cd_cnt: i32,
    max_adult: i32,
    max_child: i32,
    found: bool,
    held: ReservationLimits,
) -> (outcome: Result<(), ReservationError>)
    ensures
        outcome == update_gates(ad_cnt, cd_cnt, max_adult, max_child, found, held),
{
    if !validate_reservation_input_count(ad_cnt, cd_cnt, max_adult, max_child) {
        return Err(ReservationError::InvalidRequest);
    }
    if !found {
        return Err(ReservationError::NotFound);
    }
    if !is_reservation_available(held, max_adult, max_child) {
        return Err(ReservationError::LimitExceeded);
    }
    Ok(())
}

} // verus!
