//! The stores in memory: the reservation records and the occupancy
//! aggregates, and the allocator, which alone writes both.
//!
//! Every operation that writes takes the repository by `&mut`, so two of
//! them never overlap: whoever shares a repository between concurrent
//! requests has to serialise them, and the operations then take effect one
//! after the other, in some order. Each is all or nothing: on any error the
//! repository is left exactly as it was.

use std::collections::HashMap;
use vstd::prelude::*;
use vstd::std_specs::hash::*;
use crate::admission::ReservationLimits;
use crate::domain::{record_views, transition_on, Reservation, ReservationStatus, Timestamp};
use crate::error::ReservationError;
use crate::holdings::{
    aggregate_user_counts, found_schedule, has_content_booking, has_overlapping_time_booking,
    holdings_among, holdings_of, lemma_holdings_agree, Holding,
};
use crate::ledger::{
    lemma_aggregate_counts_party, lemma_allocate_keeps_wf, lemma_reallocate_keeps_wf,
    lemma_register_keeps_wf, lemma_set_used_keeps_wf, lemma_update_status_keeps_wf, of_user,
    on_schedule, reserved_within, Ledger,
};
use crate::occupancy::{allocate_on, reallocate_on, ScheduleOccupancy};

verus! {

/// The reservation record store and the schedule occupancy store.
pub struct ReservationRepositoryImpl {
    reservations: Vec<Reservation>,
    schedules: HashMap<u64, ScheduleOccupancy>,
}

impl View for ReservationRepositoryImpl {
    type V = Ledger;

    closed spec fn view(&self) -> Ledger {
        Ledger { records: record_views(self.reservations@), schedules: self.schedules@ }
    }
}

impl ReservationRepositoryImpl {
    /// The invariant of the stores holds of what the repository holds.
    pub open spec fn wf(&self) -> bool {
        self@.wf()
    }

    /// A repository that knows no schedule and holds no reservation.
    pub fn new() -> (repository: Self)
        ensures
            repository@ == Ledger::empty(),
            repository.wf(),
    {
        broadcast use group_hash_axioms;

        let repository = ReservationRepositoryImpl {
            reservations: Vec::new(),
            schedules: HashMap::new(),
        };
        assert(repository@.records =~= Ledger::empty().records);
        repository
    }

    /// Makes a schedule known, with nothing held against it. A negative
    /// capacity is an `InvalidRequest`; an id that is already known is a
    /// `PersistenceError`.
    pub fn register_schedule(
        &mut self,
        schedule_id: u64,
        content_id: u64,
        start_time: i64,
        capacity: i32,
    ) -> (outcome: Result<(), ReservationError>)
        requires
            old(self).wf(),
        ensures
            final(self).wf(),
            outcome == old(self)@.register_outcome(schedule_id, capacity),
            final(self)@ == old(self)@.register_schedule(
                schedule_id,
                content_id,
                start_time,
                capacity,
            ),
    {
        broadcast use group_hash_axioms;

        let fresh = match ScheduleOccupancy::new(schedule_id, content_id, start_time, capacity) {
            Some(occupancy) => occupancy,
            None => {
                return Err(ReservationError::InvalidRequest);
            },
        };
        if self.schedules.get(&schedule_id).is_some() {
            return Err(ReservationError::PersistenceError);
        }
        self.schedules.insert(schedule_id, fresh);
        proof {
            lemma_register_keeps_wf(old(self)@, schedule_id, content_id, start_time, capacity);
        }
        Ok(())
    }

    /// The aggregate of a schedule, if the schedule is known.
    pub fn schedule_occupancy(&self, schedule_id: u64) -> (found: Option<ScheduleOccupancy>)
        ensures
            found == found_schedule(self@, schedule_id),
    {
        broadcast use group_hash_axioms;

        match self.schedules.get(&schedule_id) {
            Some(occupancy) => Some(*occupancy),
            None => None,
        }
    }

    /// The number of reservations ever admitted.
    pub fn reservation_count(&self) -> (count: usize)
        ensures
            count == self@.records.len(),
    {
        self.reservations.len()
    }

    /// Fetch by id. Reads only: two calls with no write between them give
    /// the same answer.
    pub fn load_reservation(&self, reservation_id: i32) -> (found: Option<Reservation>)
        ensures
            found matches Some(record) ==> self@.fetch(reservation_id) == Some(record@),
            found is None ==> self@.fetch(reservation_id) is None,
    {
        if reservation_id < 1 {
            return None;
        }
        let index = (reservation_id - 1) as usize;
        if index >= self.reservations.len() {
            return None;
        }
        Some(self.reservations[index].clone())
    }

    /// The create path of the allocator. The reservation is stored under a
    /// new id, in status `Pending` and not redeemed, whatever id, status and
    /// flag the request carries, and the aggregate of its schedule is raised
    /// by its party: both, or on any error neither.
    ///
    /// Answers with the new id, or with `InvalidRequest` for a negative
    /// count, `PersistenceError` for an unknown schedule, `CapacityExceeded`
    /// where the total after the booking would exceed the capacity, and
    /// `PersistenceError` where no id is left.
    pub fn save_reservation(&mut self, reservation: Reservation) -> (outcome: Result<
        i32,
        ReservationError,
    >)
        requires
            old(self).wf(),
        ensures
            final(self).wf(),
            outcome == old(self)@.allocate_outcome(
                reservation.content_schedule_id,
                reservation.ad_cnt,
                reservation.cd_cnt,
            ),
            final(self)@ == old(self)@.allocate(
                reservation.user_id@,
                reservation.content_schedule_id,
                reservation.ad_cnt,
                reservation.cd_cnt,
                reservation.reserved_at,
            ),
    {
        broadcast use group_hash_axioms;

        let schedule_id = reservation.content_schedule_id;
        let ad_cnt = reservation.ad_cnt;
        let cd_cnt = reservation.cd_cnt;
        let found = self.schedule_occupancy(schedule_id);
        let raised = match allocate_on(found, ad_cnt, cd_cnt) {
            Ok(raised) => raised,
            Err(error) => {
                return Err(error);
            },
        };
        if self.reservations.len() >= i32::MAX as usize {
            return Err(ReservationError::PersistenceError);
        }
        let id = (self.reservations.len() + 1) as i32;
        let record = Reservation {
            id,
            user_id: reservation.user_id,
            content_schedule_id: schedule_id,
            reserved_at: reservation.reserved_at,
            status: Some(ReservationStatus::Pending),
            ad_cnt,
            cd_cnt,
            use_at: false,
        };
        self.reservations.push(record);
        self.schedules.insert(schedule_id, raised);
        proof {
            let after = old(self)@.allocate(
                reservation.user_id@,
                schedule_id,
                ad_cnt,
                cd_cnt,
                reservation.reserved_at,
            );
            lemma_allocate_keeps_wf(
                old(self)@,
                reservation.user_id@,
                schedule_id,
                ad_cnt,
                cd_cnt,
                reservation.reserved_at,
            );
            assert(self@.records =~= after.records);
        }
        Ok(id)
    }

    /// The count-update path of the allocator. The reservation takes the new
    /// counts and the aggregate of its schedule moves by the same
    /// difference: both, or on any error neither.
    ///
    /// Fails with `NotFound` for an unknown id, `InvalidRequest` for a
    /// negative count, and `CapacityExceeded` where the total after the
    /// change would exceed the capacity. A change that does not enlarge the party
    /// therefore never fails for want of seats.
    pub fn update_reservaiton_user_count(&mut self, reservation_id: i32, ad_cnt: i32, cd_cnt: i32) -> (outcome:
        Result<(), ReservationError>)
        requires
            old(self).wf(),
        ensures
            final(self).wf(),
            outcome == old(self)@.reallocate_outcome(reservation_id, ad_cnt, cd_cnt),
            final(self)@ == old(self)@.reallocate(reservation_id, ad_cnt, cd_cnt),
    {
        broadcast use group_hash_axioms;

        let loaded = self.load_reservation(reservation_id);
        let (party, found) = match &loaded {
            Some(current) => (
                Some((current.ad_cnt, current.cd_cnt)),
                self.schedule_occupancy(current.content_schedule_id),
            ),
            None => (None, None),
        };
        proof {
            if self@.knows(reservation_id) {
                lemma_aggregate_counts_party(self@, reservation_id);
            }
        }
        let moved = match reallocate_on(party, found, ad_cnt, cd_cnt) {
            Ok(moved) => moved,
            Err(error) => {
                return Err(error);
            },
        };
        let current = match loaded {
            Some(current) => current,
            None => {
                return Err(ReservationError::NotFound);
            },
        };
        let index = (reservation_id - 1) as usize;
        let schedule_id = current.content_schedule_id;
        let record = Reservation {
            id: current.id,
            user_id: current.user_id,
            content_schedule_id: schedule_id,
            reserved_at: current.reserved_at,
            status: current.status,
            ad_cnt,
            cd_cnt,
            use_at: current.use_at,
        };
        self.reservations.set(index, record);
        self.schedules.insert(schedule_id, moved);
        proof {
            let after = old(self)@.reallocate(reservation_id, ad_cnt, cd_cnt);
            lemma_reallocate_keeps_wf(old(self)@, reservation_id, ad_cnt, cd_cnt);
            assert(self@.records =~= after.records);
        }
        Ok(())
    }

    /// A status transition. Only the status of the one reservation changes:
    /// no aggregate moves, also not where a reservation is cancelled.
    ///
    /// Fails with `NotFound` for an unknown id and with `InvalidTransition`
    /// where the lifecycle has no transition from the reservation's status to
    /// `status`; nothing leaves `Cancelled`.
    pub fn update_status(&mut self, reservation_id: i32, status: ReservationStatus) -> (outcome:
        Result<(), ReservationError>)
        requires
            old(self).wf(),
        ensures
            final(self).wf(),
            outcome == old(self)@.update_status_outcome(reservation_id, status),
            final(self)@ == old(self)@.update_status(reservation_id, status),
    {
        let loaded = self.load_reservation(reservation_id);
        let found = match &loaded {
            Some(current) => Some(current.status),
            None => None,
        };
        let next = match transition_on(found, status) {
            Ok(next) => next,
            Err(error) => {
                return Err(error);
            },
        };
        let current = match loaded {
            Some(current) => current,
            None => {
                return Err(ReservationError::NotFound);
            },
        };
        let index = (reservation_id - 1) as usize;
        let record = Reservation {
            id: current.id,
            user_id: current.user_id,
            content_schedule_id: current.content_schedule_id,
            reserved_at: current.reserved_at,
            status: Some(next),
            ad_cnt: current.ad_cnt,
            cd_cnt: current.cd_cnt,
            use_at: current.use_at,
        };
        self.reservations.set(index, record);
        proof {
            let after = old(self)@.update_status(reservation_id, status);
            lemma_update_status_keeps_wf(old(self)@, reservation_id, status);
            assert(self@.records =~= after.records);
        }
        Ok(())
    }

    /// Sets or clears the redeemed flag of a reservation, and nothing else:
    /// the flag and the status are independent. Fails with `NotFound` for an
    /// unknown id.
    pub fn set_used(&mut self, reservation_id: i32, used: bool) -> (outcome: Result<
        (),
        ReservationError,
    >)
        requires
            old(self).wf(),
        ensures
            final(self).wf(),
            old(self)@.knows(reservation_id) ==> outcome == Ok::<(), ReservationError>(()),
            !old(self)@.knows(reservation_id) ==> outcome == Err::<(), ReservationError>(
                ReservationError::NotFound,
            ),
            final(self)@ == old(self)@.set_used(reservation_id, used),
    {
        let current = match self.load_reservation(reservation_id) {
            Some(current) => current,
            None => {
                return Err(ReservationError::NotFound);
            },
        };
        let index = (reservation_id - 1) as usize;
        let record = Reservation {
            id: current.id,
            user_id: current.user_id,
            content_schedule_id: current.content_schedule_id,
            reserved_at: current.reserved_at,
            status: current.status,
            ad_cnt: current.ad_cnt,
            cd_cnt: current.cd_cnt,
            use_at: used,
        };
        self.reservations.set(index, record);
        proof {
            let after = old(self)@.set_used(reservation_id, used);
            lemma_set_used_keeps_wf(old(self)@, reservation_id, used);
            assert(self@.records =~= after.records);
        }
        Ok(())
    }

    /// The duplicate-content query: whether the user holds a reservation
    /// that is not cancelled for any schedule of the content that
    /// `schedule_id` belongs to, that schedule itself included. False for an
    /// unknown schedule. Never fails.
    pub fn check_user_reservation_for_content(&self, user_id: &str, schedule_id: u64) -> (answer:
        Result<bool, ReservationError>)
        requires
            self.wf(),
        ensures
            answer == Ok::<bool, ReservationError>(self@.has_content_booking(user_id@, schedule_id)),
    {
        let held = self.holdings_of(user_id);
        let target = self.schedule_occupancy(schedule_id);
        proof {
            lemma_holdings_agree(self@, user_id@, schedule_id);
        }
        Ok(has_content_booking(&held, target))
    }

    /// The overlapping-time query: whether the user holds a reservation
    /// that is not cancelled for a different schedule that starts at the
    /// time at which `schedule_id` starts. False for an unknown schedule.
    /// Never fails.
    pub fn check_schedule_and_reservation(&self, user_id: &str, schedule_id: u64) -> (answer:
        Result<bool, ReservationError>)
        requires
            self.wf(),
        ensures
            answer == Ok::<bool, ReservationError>(
                self@.has_overlapping_time_booking(user_id@, schedule_id),
            ),
    {
        let held = self.holdings_of(user_id);
        let target = self.schedule_occupancy(schedule_id);
        proof {
            lemma_holdings_agree(self@, user_id@, schedule_id);
        }
        Ok(has_overlapping_time_booking(&held, target))
    }

    /// The aggregate query: the adult and child seats that the user holds,
    /// in reservations that are not cancelled, of the content that
    /// `schedule_id` belongs to, over all its schedules. Both totals are
    /// absent where the user holds no such reservation. Never fails.
    pub fn check_reservation_for_user_count(&self, user_id: &str, schedule_id: u64) -> (answer:
        Result<ReservationLimits, ReservationError>)
        requires
            self.wf(),
        ensures
            answer == Ok::<ReservationLimits, ReservationError>(
                self@.aggregate_user_counts(user_id@, schedule_id),
            ),
    {
        let held = self.holdings_of(user_id);
        let target = self.schedule_occupancy(schedule_id);
        proof {
            lemma_holdings_agree(self@, user_id@, schedule_id);
        }
        aggregate_user_counts(&held, target)
    }

    /// List by user: the user's reservations, whatever their status, in the
    /// order in which they were admitted. Never fails.
    pub fn load_reservations_by_user(&self, user_id: &str) -> (listed: Result<
        Vec<Reservation>,
        ReservationError,
    >)
        ensures
            listed matches Ok(found) && record_views(found@) == self@.listed_for_user(user_id@),
    {
        let user = user_id.to_owned();
        let ghost pick = of_user(user_id@);
        let mut found: Vec<Reservation> = Vec::new();
        let mut i: usize = 0;
        assert(self@.records.take(0).filter(pick) =~= record_views(found@)) by {
            reveal(Seq::filter);
        }
        while i < self.reservations.len()
            invariant
                i <= self.reservations.len(),
                user@ == user_id@,
                pick == of_user(user_id@),
                record_views(found@) == self@.records.take(i as int).filter(pick),
            decreases self.reservations.len() - i,
        {
            let record = &self.reservations[i];
            proof {
                let seen = self@.records.take(i as int + 1);
                assert(seen.drop_last() =~= self@.records.take(i as int));
                reveal(Seq::filter);
            }
            if record.user_id == user {
                found.push(record.clone());
            }
            i = i + 1;
        }
        assert(self@.records.take(i as int) =~= self@.records);
        Ok(found)
    }

    /// List by schedule: the schedule's reservations, whatever their
    /// status, in the order in which they were admitted. Never fails.
    pub fn load_reservation_by_content_schedule(&self, content_schedule_id: u64) -> (listed:
        Result<Vec<Reservation>, ReservationError>)
        ensures
            listed matches Ok(found) && record_views(found@) == self@.listed_for_schedule(
                content_schedule_id,
            ),
    {
        let ghost pick = on_schedule(content_schedule_id);
        let mut found: Vec<Reservation> = Vec::new();
        let mut i: usize = 0;
        assert(self@.records.take(0).filter(pick) =~= record_views(found@)) by {
            reveal(Seq::filter);
        }
        while i < self.reservations.len()
            invariant
                i <= self.reservations.len(),
                pick == on_schedule(content_schedule_id),
                record_views(found@) == self@.records.take(i as int).filter(pick),
            decreases self.reservations.len() - i,
        {
            let record = &self.reservations[i];
            proof {
                let seen = self@.records.take(i as int + 1);
                assert(seen.drop_last() =~= self@.records.take(i as int));
                reveal(Seq::filter);
            }
            if record.content_schedule_id == content_schedule_id {
                found.push(record.clone());
            }
            i = i + 1;
        }
        assert(self@.records.take(i as int) =~= self@.records);
        Ok(found)
    }

    /// List by time of booking: the reservations made within the closed
    /// range from `start` to `end`, in the order in which they were
    /// admitted. A reservation without a timestamp is never listed. Never
    /// fails.
    pub fn load_reservations_between(&self, start: Timestamp, end: Timestamp) -> (listed: Result<
        Vec<Reservation>,
        ReservationError,
    >)
        ensures
            listed matches Ok(found) && record_views(found@) == self@.listed_within(start, end),
    {
        let ghost pick = reserved_within(start, end);
        let mut found: Vec<Reservation> = Vec::new();
        let mut i: usize = 0;
        assert(self@.records.take(0).filter(pick) =~= record_views(found@)) by {
            reveal(Seq::filter);
        }
        while i < self.reservations.len()
            invariant
                i <= self.reservations.len(),
                pick == reserved_within(start, end),
                record_views(found@) == self@.records.take(i as int).filter(pick),
            decreases self.reservations.len() - i,
        {
            let record = &self.reservations[i];
            proof {
                let seen = self@.records.take(i as int + 1);
                assert(seen.drop_last() =~= self@.records.take(i as int));
                reveal(Seq::filter);
            }
            let inside = match record.reserved_at {
                Some(at) => at.is_within(&start, &end),
                None => false,
            };
            if inside {
                found.push(record.clone());
            }
            i = i + 1;
        }
        assert(self@.records.take(i as int) =~= self@.records);
        Ok(found)
    }

    /// What a user holds: the user's reservations, whatever their status,
    /// each joined with its schedule, in the order in which they were
    /// admitted.
    pub fn holdings_of(&self, user_id: &str) -> (held: Vec<Holding>)
        requires
            self.wf(),
        ensures
            held@ == holdings_of(self@, user_id@),
    {
        let user = user_id.to_owned();
        let mut held: Vec<Holding> = Vec::new();
        let mut i: usize = 0;
        while i < self.reservations.len()
            invariant
                self.wf(),
                i <= self.reservations.len(),
                user@ == user_id@,
                held@ == holdings_among(self@, self@.records.take(i as int), user_id@),
            decreases self.reservations.len() - i,
        {
            let record = &self.reservations[i];
            proof {
                let seen = self@.records.take(i as int + 1);
                assert(seen.drop_last() =~= self@.records.take(i as int));
                assert(self@.record_wf(i as int));
            }
            if record.user_id == user {
                match self.schedule_occupancy(record.content_schedule_id) {
                    Some(schedule) => {
                        held.push(
                            Holding {
                                schedule_id: record.content_schedule_id,
                                content_id: schedule.content_id,
                                start_time: schedule.start_time,
                                status: record.status,
                                ad_cnt: record.ad_cnt,
                                cd_cnt: record.cd_cnt,
                            },
                        );
                    },
                    None => {},
                }
            }
            i = i + 1;
        }
        assert(self@.records.take(i as int) =~= self@.records);
        held
    }
}

} // verus!
