//! The occupancy aggregate of one schedule and the capacity rule that every
//! change of it has to pass.

use vstd::prelude::*;
use crate::error::ReservationError;

verus! {

/// The seats held against one schedule, beside the capacity of the content
/// that the schedule belongs to.
#[derive(Clone, Copy, Debug, PartialEq, Eq, Structural)]
pub struct ScheduleOccupancy {
    pub schedule_id: u64,
    /// The content that this schedule is an occurrence of.
    pub content_id: u64,
    /// When the schedule starts, in seconds since 1970-01-01T00:00:00Z.
    pub start_time: i64,
    /// Adult seats held.
    pub ad_cnt: i32,
    /// Child seats held.
    pub cd_cnt: i32,
    /// Seats that the owning content allows.
    pub capacity: i32,
}

impl ScheduleOccupancy {
    /// All seats held, adults and children together.
    pub open spec fn total(self) -> int {
        self.ad_cnt + self.cd_cnt
    }

    /// Neither counter is negative and the total is within the capacity.
    pub open spec fn wf(self) -> bool {
        &&& self.ad_cnt >= 0
        &&& self.cd_cnt >= 0
        &&& self.total() <= self.capacity
    }

    /// The capacity rule of the create path: the total after adding the party
    /// does not exceed the capacity.
    pub open spec fn fits(self, ad_cnt: i32, cd_cnt: i32) -> bool {
        self.total() + ad_cnt + cd_cnt <= self.capacity
    }

    /// The capacity rule of the count-update path: the total after replacing
    /// a party of `(old_ad, old_cd)` by one of `(new_ad, new_cd)` does not
    /// exceed the capacity.
    pub open spec fn fits_change(self, old_ad: i32, old_cd: i32, new_ad: i32, new_cd: i32) -> bool {
        self.total() + (new_ad + new_cd) - (old_ad + old_cd) <= self.capacity
    }

    /// The aggregate after a party of `(ad_cnt, cd_cnt)` was added.
    pub open spec fn reserved(self, ad_cnt: i32, cd_cnt: i32) -> ScheduleOccupancy {
        ScheduleOccupancy {
            ad_cnt: (self.ad_cnt + ad_cnt) as i32,
            cd_cnt: (self.cd_cnt + cd_cnt) as i32,
            ..self
        }
    }

    /// The aggregate after a party of `(old_ad, old_cd)` was replaced by one
    /// of `(new_ad, new_cd)`.
    pub open spec fn rebooked(
        self,
        old_ad: i32,
        old_cd: i32,
        new_ad: i32,
        new_cd: i32,
    ) -> ScheduleOccupancy {
        ScheduleOccupancy {
            ad_cnt: (self.ad_cnt - old_ad + new_ad) as i32,
            cd_cnt: (self.cd_cnt - old_cd + new_cd) as i32,
            ..self
        }
    }

    /// Neither counter is negative.
    pub open spec fn counters_valid(self) -> bool {
        self.ad_cnt >= 0 && self.cd_cnt >= 0
    }

    /// The aggregate counts a party of `(ad_cnt, cd_cnt)`: neither count of
    /// the party is negative or above the aggregate's.
    pub open spec fn counts_party(self, ad_cnt: i32, cd_cnt: i32) -> bool {
        &&& 0 <= ad_cnt <= self.ad_cnt
        &&& 0 <= cd_cnt <= self.cd_cnt
    }

    /// What the create path answers on this aggregate: `InvalidRequest` for
    /// a negative count, `CapacityExceeded` where the total after the booking
    /// would exceed the capacity, `PersistenceError` on an aggregate with a
    /// negative counter, and else the aggregate after the booking.
    pub open spec fn reserve_outcome(self, ad_cnt: i32, cd_cnt: i32) -> Result<
        ScheduleOccupancy,
        ReservationError,
    > {
        if ad_cnt < 0 || cd_cnt < 0 {
            Err(ReservationError::InvalidRequest)
        } else if !self.fits(ad_cnt, cd_cnt) {
            Err(ReservationError::CapacityExceeded)
        } else if !self.counters_valid() {
            Err(ReservationError::PersistenceError)
        } else {
            Ok(self.reserved(ad_cnt, cd_cnt))
        }
    }

    /// What the count-update path answers on this aggregate:
    /// `InvalidRequest` for a negative new count, `CapacityExceeded` where
    /// the total after the change would exceed the capacity,
    /// `PersistenceError` on an aggregate that does not count the old party,
    /// and else the aggregate after the change.
    pub open spec fn rebook_outcome(
        self,
        old_ad: i32,
        old_cd: i32,
        new_ad: i32,
        new_cd: i32,
    ) -> Result<ScheduleOccupancy, ReservationError> {
        if new_ad < 0 || new_cd < 0 {
            Err(ReservationError::InvalidRequest)
        } else if !self.fits_change(old_ad, old_cd, new_ad, new_cd) {
            Err(ReservationError::CapacityExceeded)
        } else if !self.counts_party(old_ad, old_cd) {
            Err(ReservationError::PersistenceError)
        } else {
            Ok(self.rebooked(old_ad, old_cd, new_ad, new_cd))
        }
    }

    /// An empty aggregate for a schedule, or `None` where the capacity is negative.
    pub fn new(schedule_id: u64, content_id: u64, start_time: i64, capacity: i32) -> (created:
        Option<ScheduleOccupancy>)
        ensures
            capacity < 0 ==> created is None,
            capacity >= 0 ==> created == Some(
                ScheduleOccupancy {
                    schedule_id,
                    content_id,
                    start_time,
                    ad_cnt: 0,
                    cd_cnt: 0,
                    capacity,
                },
            ),
            created matches Some(o) ==> o.wf(),
    {
        if capacity < 0 {
            None
        } else {
            Some(ScheduleOccupancy { schedule_id, content_id, start_time, ad_cnt: 0, cd_cnt: 0, capacity })
        }
    }

    /// All seats held.
    pub fn occupied(&self) -> (seats: i64)
        ensures
            seats == self.total(),
    {
        self.ad_cnt as i64 + self.cd_cnt as i64
    }

    /// The seats still free; negative only on an aggregate that is not well formed.
    pub fn remaining(&self) -> (seats: i64)
        ensures
            seats == self.capacity - self.total(),
    {
        self.capacity as i64 - (self.ad_cnt as i64 + self.cd_cnt as i64)
    }

    /// Whether the aggregate is well formed.
    pub fn is_wf(&self) -> (valid: bool)
        ensures
            valid == self.wf(),
    {
        self.ad_cnt >= 0 && self.cd_cnt >= 0 && self.occupied() <= self.capacity as i64
    }

    /// The create path on one aggregate: computes the total that a booking
    /// of `(ad_cnt, cd_cnt)` would give, and answers with the new aggregate
    /// where it fits. Negative counts are an `InvalidRequest`; a total above
    /// the capacity is `CapacityExceeded`; an aggregate with a negative
    /// counter is a `PersistenceError`.
    pub fn reserve(&self, ad_cnt: i32, cd_cnt: i32) -> (outcome: Result<
        ScheduleOccupancy,
        ReservationError,
    >)
        ensures
            outcome == self.reserve_outcome(ad_cnt, cd_cnt),
            outcome matches Ok(o) ==> o.wf() && o.total() == self.total() + ad_cnt + cd_cnt,
    {
        if ad_cnt < 0 || cd_cnt < 0 {
            return Err(ReservationError::InvalidRequest);
        }
        let final_total: i64 = self.occupied() + ad_cnt as i64 + cd_cnt as i64;
        if final_total > self.capacity as i64 {
            return Err(ReservationError::CapacityExceeded);
        }
        if self.ad_cnt < 0 || self.cd_cnt < 0 {
            return Err(ReservationError::PersistenceError);
        }
        Ok(
            ScheduleOccupancy {
                schedule_id: self.schedule_id,
                content_id: self.content_id,
                start_time: self.start_time,
                ad_cnt: self.ad_cnt + ad_cnt,
                cd_cnt: self.cd_cnt + cd_cnt,
                capacity: self.capacity,
            },
        )
    }

    /// The count-update path on one aggregate that counts a party of
    /// `(old_ad, old_cd)`: answers with the aggregate after that party became
    /// `(new_ad, new_cd)`, where the new total fits. Negative new counts are
    /// an `InvalidRequest`; a total above the capacity is `CapacityExceeded`;
    /// an aggregate that does not count the old party is a `PersistenceError`.
    pub fn rebook(&self, old_ad: i32, old_cd: i32, new_ad: i32, new_cd: i32) -> (outcome: Result<
        ScheduleOccupancy,
        ReservationError,
    >)
        ensures
            outcome == self.rebook_outcome(old_ad, old_cd, new_ad, new_cd),
            outcome matches Ok(o) ==> o.wf() && o.total() == self.total() + (new_ad + new_cd) - (
            old_ad + old_cd),
    {
        if new_ad < 0 || new_cd < 0 {
            return Err(ReservationError::InvalidRequest);
        }
        let final_total: i64 = self.occupied() + (new_ad as i64 + new_cd as i64) - (old_ad as i64
            + old_cd as i64);
        if final_total > self.capacity as i64 {
            return Err(ReservationError::CapacityExceeded);
        }
        if old_ad < 0 || old_ad > self.ad_cnt || old_cd < 0 || old_cd > self.cd_cnt {
            return Err(ReservationError::PersistenceError);
        }
        Ok(
            ScheduleOccupancy {
                schedule_id: self.schedule_id,
                content_id: self.content_id,
                start_time: self.start_time,
                ad_cnt: self.ad_cnt - old_ad + new_ad,
                cd_cnt: self.cd_cnt - old_cd + new_cd,
                capacity: self.capacity,
            },
        )
    }
}

/// What the create path answers, given the aggregate that was found for the
/// schedule: `InvalidRequest` for a negative count, `PersistenceError` where
/// no aggregate was found, and else what the aggregate answers.
pub open spec fn allocation_outcome(found: Option<ScheduleOccupancy>, ad_cnt: i32, cd_cnt: i32) -> Result<
    ScheduleOccupancy,
    ReservationError,
> {
    if ad_cnt < 0 || cd_cnt < 0 {
        Err(ReservationError::InvalidRequest)
    } else {
        match found {
            Some(occupancy) => occupancy.reserve_outcome(ad_cnt, cd_cnt),
            None => Err(ReservationError::PersistenceError),
        }
    }
}

/// What the count-update path answers, given the party that the reservation
/// holds, if the reservation was found, and the aggregate that was found for
/// its schedule: `NotFound` where no reservation was found, `InvalidRequest`
/// for a negative new count, `PersistenceError` where no aggregate was found,
/// and else what the aggregate answers.
pub open spec fn reallocation_outcome(
    party: Option<(i32, i32)>,
    found: Option<ScheduleOccupancy>,
    new_ad: i32,
    new_cd: i32,
) -> Result<ScheduleOccupancy, ReservationError> {
    match party {
        None => Err(ReservationError::NotFound),
        Some((old_ad, old_cd)) => {
            if new_ad < 0 || new_cd < 0 {
                Err(ReservationError::InvalidRequest)
            } else {
                match found {
                    None => Err(ReservationError::PersistenceError),
                    Some(occupancy) => occupancy.rebook_outcome(old_ad, old_cd, new_ad, new_cd),
                }
            }
        },
    }
}

/// The create path on what was read for it: the aggregate of the schedule,
/// if the schedule is known. Answers with the aggregate to write back.
pub fn allocate_on(found: Option<ScheduleOccupancy>, ad_cnt: i32, cd_cnt: i32) -> (outcome: Result<
    ScheduleOccupancy,
    ReservationError,
>)
    ensures
        outcome == allocation_outcome(found, ad_cnt, cd_cnt),
        outcome matches Ok(o) ==> o.wf(),
{
    if ad_cnt < 0 || cd_cnt < 0 {
        return Err(ReservationError::InvalidRequest);
    }
    match found {
        Some(occupancy) => occupancy.reserve(ad_cnt, cd_cnt),
        None => Err(ReservationError::PersistenceError),
    }
}

/// The count-update path on what was read for it: the party that the
/// reservation holds, if the reservation exists, and the aggregate of its
/// schedule. Answers with the aggregate to write back.
pub fn reallocate_on(
    party: Option<(i32, i32)>,
    found: Option<ScheduleOccupancy>,
    new_ad: i32,
    new_cd: i32,
) -> (outcome: Result<ScheduleOccupancy, ReservationError>)
    ensures
        outcome == reallocation_outcome(party, found, new_ad, new_cd),
        outcome matches Ok(o) ==> o.wf(),
{
    let (old_ad, old_cd) = match party {
        Some(party) => party,
        None => {
            return Err(ReservationError::NotFound);
        },
    };
    if new_ad < 0 || new_cd < 0 {
        return Err(ReservationError::InvalidRequest);
    }
    match found {
        Some(occupancy) => occupancy.rebook(old_ad, old_cd, new_ad, new_cd),
        None => Err(ReservationError::PersistenceError),
    }
}

/// Shrinking a party never fails for want of seats: where the new party is
/// no larger than the old one, the count-update path succeeds on every
/// well-formed aggregate that counts the old party, however full.
pub proof fn lemma_shrinking_always_fits(
    occupancy: ScheduleOccupancy,
    old_ad: i32,
    old_cd: i32,
    new_ad: i32,
    new_cd: i32,
)
    requires
        occupancy.wf(),
        occupancy.counts_party(old_ad, old_cd),
        0 <= new_ad,
        0 <= new_cd,
        new_ad + new_cd <= old_ad + old_cd,
    ensures
        occupancy.rebook_outcome(old_ad, old_cd, new_ad, new_cd) == Ok::<
            ScheduleOccupancy,
            ReservationError,
        >(occupancy.rebooked(old_ad, old_cd, new_ad, new_cd)),
        occupancy.rebooked(old_ad, old_cd, new_ad, new_cd).total() == occupancy.total() - ((old_ad
            + old_cd) - (new_ad + new_cd)),
{
}

} // verus!
