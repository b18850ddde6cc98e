//! The adapter through which the use cases reach the stores: what they
//! load and what they save, both served by one repository.

use vstd::prelude::*;
use crate::admission::ReservationLimits;
use crate::domain::{record_views, Reservation, ReservationStatus, Timestamp};
use crate::error::ReservationError;
use crate::holdings::found_schedule;
use crate::ledger::Ledger;
use crate::occupancy::ScheduleOccupancy;
use crate::repository::ReservationRepositoryImpl;

verus! {

/// Serves loads and saves from one repository.
pub struct ReservationAdapter {
    repository: ReservationRepositoryImpl,
}

impl View for ReservationAdapter {
    type V = Ledger;

    closed spec fn view(&self) -> Ledger {
        self.repository@
    }
}

impl ReservationAdapter {
    /// The invariant of the stores holds of what the adapter serves.
    pub open spec fn wf(&self) -> bool {
        self@.wf()
    }

    /// An adapter that serves `repository`.
    pub fn new(repository: ReservationRepositoryImpl) -> (adapter: Self)
        ensures
            adapter@ == repository@,
    {
        ReservationAdapter { repository }
    }

    /// Hands the repository back.
    pub fn into_repository(self) -> (repository: ReservationRepositoryImpl)
        ensures
            repository@ == self@,
    {
        self.repository
    }

    // ---------------------------------------------------------------- loads

    /// Fetch by id.
    pub fn load_reservation(&self, reservation_id: i32) -> (found: Option<Reservation>)
        ensures
            found matches Some(record) ==> self@.fetch(reservation_id) == Some(record@),
            found is None ==> self@.fetch(reservation_id) is None,
    {
        self.repository.load_reservation(reservation_id)
    }

    /// List by user, in the order of admission.
    pub fn load_reservations_by_user(&self, user_id: &str) -> (listed: Result<
        Vec<Reservation>,
        ReservationError,
    >)
        ensures
            listed matches Ok(found) && record_views(found@) == self@.listed_for_user(user_id@),
    {
        self.repository.load_reservations_by_user(user_id)
    }

    /// List by schedule, in the order of admission.
    pub fn load_reservation_by_content_schedule(&self, content_schedule_id: u64) -> (listed:
        Result<Vec<Reservation>, ReservationError>)
        ensures
            listed matches Ok(found) && record_views(found@) == self@.listed_for_schedule(
                content_schedule_id,
            ),
    {
        self.repository.load_reservation_by_content_schedule(content_schedule_id)
    }

    /// List by time of booking, in the order of admission.
    pub fn load_reservations_between(&self, start: Timestamp, end: Timestamp) -> (listed: Result<
        Vec<Reservation>,
        ReservationError,
    >)
        ensures
            listed matches Ok(found) && record_views(found@) == self@.listed_within(start, end),
    {
        self.repository.load_reservations_between(start, end)
    }

    /// The aggregate query.
    pub fn check_reservation_for_user_count(&self, user_id: &str, schedule_id: u64) -> (answer:
        Result<ReservationLimits, ReservationError>)
        requires
            self.wf(),
        ensures
            answer == Ok::<ReservationLimits, ReservationError>(
                self@.aggregate_user_counts(user_id@, schedule_id),
            ),
    {
        let limits = self.repository.check_reservation_for_user_count(user_id, schedule_id)?;
        Ok(limits)
    }

    /// The overlapping-time query.
    pub fn check_schedule_and_reservation(&self, user_id: &str, schedule_id: u64) -> (answer:
        Result<bool, ReservationError>)
        requires
            self.wf(),
        ensures
            answer == Ok::<bool, ReservationError>(
                self@.has_overlapping_time_booking(user_id@, schedule_id),
            ),
    {
        let chk_val = self.repository.check_schedule_and_reservation(user_id, schedule_id)?;
        Ok(chk_val)
    }

    /// The duplicate-content query.
    pub fn check_user_reservation_for_content(&self, user_id: &str, schedule_id: u64) -> (answer:
        Result<bool, ReservationError>)
        requires
            self.wf(),
        ensures
            answer == Ok::<bool, ReservationError>(self@.has_content_booking(user_id@, schedule_id)),
    {
        let chk_val = self.repository.check_user_reservation_for_content(user_id, schedule_id)?;
        Ok(chk_val)
    }

    /// The aggregate of a schedule, if the schedule is known.
    pub fn schedule_occupancy(&self, schedule_id: u64) -> (found: Option<ScheduleOccupancy>)
        ensures
            found == found_schedule(self@, schedule_id),
    {
        self.repository.schedule_occupancy(schedule_id)
    }

    // ---------------------------------------------------------------- saves

    /// Makes a schedule known, with nothing held against it.
    pub fn register_schedule(
        &mut self,
        schedule_id: u64,
        content_id: u64,
        start_time: i64,
        capacity: i32,
    ) -> (outcome: Result<(), ReservationError>)
        requires
            old(self).wf(),
        ensures
            final(self).wf(),
            outcome == old(self)@.register_outcome(schedule_id, capacity),
            final(self)@ == old(self)@.register_schedule(
                schedule_id,
                content_id,
                start_time,
                capacity,
            ),
    {
        self.repository.register_schedule(schedule_id, content_id, start_time, capacity)
    }

    /// The create path of the allocator.
    pub fn save_reservation(&mut self, reservation: Reservation) -> (outcome: Result<
        i32,
        ReservationError,
    >)
        requires
            old(self).wf(),
        ensures
            final(self).wf(),
            outcome == old(self)@.allocate_outcome(
                reservation.content_schedule_id,
                reservation.ad_cnt,
                reservation.cd_cnt,
            ),
            final(self)@ == old(self)@.allocate(
                reservation.user_id@,
                reservation.content_schedule_id,
                reservation.ad_cnt,
                reservation.cd_cnt,
                reservation.reserved_at,
            ),
    {
        self.repository.save_reservation(reservation)
    }

    /// A status transition.
    pub fn update_status(&mut self, reservation_id: i32, status: ReservationStatus) -> (outcome:
        Result<(), ReservationError>)
        requires
            old(self).wf(),
        ensures
            final(self).wf(),
            outcome == old(self)@.update_status_outcome(reservation_id, status),
            final(self)@ == old(self)@.update_status(reservation_id, status),
    {
        self.repository.update_status(reservation_id, status)
    }

    /// The count-update path of the allocator.
    pub fn update_reservaiton_user_count(&mut self, reservation_id: i32, ad_cnt: i32, cd_cnt: i32) -> (outcome:
        Result<(), ReservationError>)
        requires
            old(self).wf(),
        ensures
            final(self).wf(),
            outcome == old(self)@.reallocate_outcome(reservation_id, ad_cnt, cd_cnt),
            final(self)@ == old(self)@.reallocate(reservation_id, ad_cnt, cd_cnt),
    {
        self.repository.update_reservaiton_user_count(reservation_id, ad_cnt, cd_cnt)
    }

    /// Sets or clears the redeemed flag of a reservation.
    pub fn set_used(&mut self, reservation_id: i32, used: bool) -> (outcome: Result<
        (),
        ReservationError,
    >)
        requires
            old(self).wf(),
        ensures
            final(self).wf(),
            old(self)@.knows(reservation_id) ==> outcome == Ok::<(), ReservationError>(()),
            !old(self)@.knows(reservation_id) ==> outcome == Err::<(), ReservationError>(
                ReservationError::NotFound,
            ),
            final(self)@ == old(self)@.set_used(reservation_id, used),
    {
        self.repository.set_used(reservation_id, used)
    }
}

} // verus!
