//! The use cases: what the front doors (REST and RPC) ask of the booking core.

use vstd::prelude::*;
use crate::adapter::ReservationAdapter;
use crate::admission::{
    check_update, decide, validate_reservation_input_count, Decision, ReservationLimits,
};
use crate::clock::{day_fits, day_of, get_today_start_end_date};
use crate::domain::{record_views, Reservation, ReservationStatus, Timestamp};
use crate::error::ReservationError;
use crate::ledger::{users_of, Ledger};

verus! {

/// The booking core behind one adapter.
pub struct ReservationService {
    adapter: ReservationAdapter,
}

/// The values of a sequence of texts, one for one.
pub open spec fn text_views(texts: Seq<String>) -> Seq<Seq<char>> {
    Seq::new(texts.len(), |i: int| texts[i]@)
}

impl View for ReservationService {
    type V = Ledger;

    closed spec fn view(&self) -> Ledger {
        self.adapter@
    }
}

impl ReservationService {
    /// The invariant of the stores holds of what the service works on.
    pub open spec fn wf(&self) -> bool {
        self@.wf()
    }

    /// A service on the stores that `adapter` serves.
    pub fn new(adapter: ReservationAdapter) -> (service: Self)
        ensures
            service@ == adapter@,
    {
        ReservationService { adapter }
    }

    /// Hands the adapter back.
    pub fn into_adapter(self) -> (adapter: ReservationAdapter)
        ensures
            adapter@ == self@,
    {
        self.adapter
    }

    /// Makes a schedule known, with nothing held against it. A negative
    /// capacity is an `InvalidRequest`; an id that is already known is a
    /// `PersistenceError`.
    pub fn register_schedule(
        &mut self,
        schedule_id: u64,
        content_id: u64,
        start_time: i64,
        capacity: i32,
    ) -> (outcome: Result<(), ReservationError>)
        requires
            old(self).wf(),
        ensures
            final(self).wf(),
            outcome == old(self)@.register_outcome(schedule_id, capacity),
            final(self)@ == old(self)@.register_schedule(
                schedule_id,
                content_id,
                start_time,
                capacity,
            ),
    {
        self.adapter.register_schedule(schedule_id, content_id, start_time, capacity)
    }

    /// Create: hands the reservation to the allocator, without asking the
    /// admission controller. Answers with the new id, or with
    /// `InvalidRequest` for a negative count, `PersistenceError` for an
    /// unknown schedule or where no id is left, and `CapacityExceeded` where
    /// the party does not fit; on any error nothing is changed.
    pub fn create_reservation(&mut self, reservation: Reservation) -> (outcome: Result<
        i32,
        ReservationError,
    >)
        requires
            old(self).wf(),
        ensures
            final(self).wf(),
            outcome == old(self)@.allocate_outcome(
                reservation.content_schedule_id,
                reservation.ad_cnt,
                reservation.cd_cnt,
            ),
            final(self)@ == old(self)@.allocate(
                reservation.user_id@,
                reservation.content_schedule_id,
                reservation.ad_cnt,
                reservation.cd_cnt,
                reservation.reserved_at,
            ),
    {
        self.adapter.save_reservation(reservation)
    }

    /// Fetch by id; `NotFound` for an unknown id. Reads only: two calls with
    /// no write between them give the same answer.
    pub fn show_reservation(&self, reservation_id: i32) -> (shown: Result<
        Reservation,
        ReservationError,
    >)
        ensures
            shown matches Ok(record) ==> self@.fetch(reservation_id) == Some(record@),
            shown matches Err(error) ==> error == ReservationError::NotFound && self@.fetch(
                reservation_id,
            ) is None,
    {
        match self.adapter.load_reservation(reservation_id) {
            Some(record) => Ok(record),
            None => Err(ReservationError::NotFound),
        }
    }

    /// List by user: the user's reservations, whatever their status, in the
    /// order of admission. Never fails.
    pub fn show_user_reservations(&self, user_id: &str) -> (listed: Result<
        Vec<Reservation>,
        ReservationError,
    >)
        ensures
            listed matches Ok(found) && record_views(found@) == self@.listed_for_user(user_id@),
    {
        self.adapter.load_reservations_by_user(user_id)
    }

    /// List by time of booking: the reservations made within the closed
    /// range from `start` to `end`, in the order of admission. Never fails.
    pub fn show_reservations_between(&self, start: Timestamp, end: Timestamp) -> (listed: Result<
        Vec<Reservation>,
        ReservationError,
    >)
        ensures
            listed matches Ok(found) && record_views(found@) == self@.listed_within(start, end),
    {
        self.adapter.load_reservations_between(start, end)
    }

    /// List for today: the reservations made on the UTC day that the instant
    /// `now` falls on, in the order of admission. `PersistenceError` where
    /// that day does not fit the range of `i64` seconds; nothing else fails.
    pub fn show_today_reservations(&self, now: Timestamp) -> (listed: Result<
        Vec<Reservation>,
        ReservationError,
    >)
        ensures
            day_fits(now.secs) ==> (listed matches Ok(found) && record_views(found@)
                == self@.listed_within(day_of(now.secs).0, day_of(now.secs).1)),
            !day_fits(now.secs) ==> (listed matches Err(error) && error
                == ReservationError::PersistenceError),
    {
        match get_today_start_end_date(now) {
            Some((start, end)) => self.adapter.load_reservations_between(start, end),
            None => Err(ReservationError::PersistenceError),
        }
    }

    /// The users who hold a reservation of a schedule, one entry for each
    /// reservation, whatever its status, in the order of admission. Never
    /// fails.
    pub fn users_by_content_schedule(&self, content_schedule_id: u64) -> (listed: Result<
        Vec<String>,
        ReservationError,
    >)
        ensures
            listed matches Ok(names) && text_views(names@) == users_of(
                self@.listed_for_schedule(content_schedule_id),
            ),
    {
        let reservations = match self.adapter.load_reservation_by_content_schedule(
            content_schedule_id,
        ) {
            Ok(reservations) => reservations,
            Err(error) => {
                return Err(error);
            },
        };
        let mut names: Vec<String> = Vec::new();
        let mut i: usize = 0;
        while i < reservations.len()
            invariant
                i <= reservations.len(),
                names@.len() == i,
                forall|j: int| 0 <= j < i ==> (#[trigger] names@[j])@ == reservations@[j].user_id@,
            decreases reservations.len() - i,
        {
            names.push(reservations[i].user_id.clone());
            i = i + 1;
        }
        Ok(names)
    }

    /// The admission controller: decides whether a request of `user_id` for
    /// `(ad_cnt, cd_cnt)` seats on `schedule_id` may go on to the allocator,
    /// given the user's maxima. Reads the stores and changes nothing.
    ///
    /// The gates, the first that fails deciding: counts above the maxima
    /// (a count of 0 is exempt) are an `InvalidRequest`; a user who holds no
    /// live reservation of the schedule's content is admitted; a user who
    /// already holds more of that content than a maximum is `LimitExceeded`;
    /// everyone else is admitted.
    pub fn decide(
        &self,
        user_id: &str,
        schedule_id: u64,
        ad_cnt: i32,
        cd_cnt: i32,
        max_adult: i32,
        max_child: i32,
    ) -> (outcome: Decision)
        requires
            self.wf(),
        ensures
            outcome == self@.decide(user_id@, schedule_id, ad_cnt, cd_cnt, max_adult, max_child),
    {
        if !validate_reservation_input_count(ad_cnt, cd_cnt, max_adult, max_child) {
            return Decision::Reject(ReservationError::InvalidRequest);
        }
        let dup_reservation = match self.adapter.check_user_reservation_for_content(
            user_id,
            schedule_id,
        ) {
            Ok(dup_reservation) => dup_reservation,
            Err(error) => {
                return Decision::Reject(error);
            },
        };
        let limits = if dup_reservation {
            match self.adapter.check_reservation_for_user_count(user_id, schedule_id) {
                Ok(limits) => limits,
                Err(error) => {
                    return Decision::Reject(error);
                },
            }
        } else {
            ReservationLimits { total_adults: None, total_children: None }
        };
        decide(ad_cnt, cd_cnt, max_adult, max_child, dup_reservation, limits)
    }

    /// Check availability: whether the admission controller admits the
    /// request. Never fails.
    pub fn check_reservation(
        &self,
        user_id: String,
        schedule_id: u64,
        ad_cnt: i32,
        cd_cnt: i32,
        max_adult: i32,
        max_child: i32,
    ) -> (answer: Result<bool, ReservationError>)
        requires
            self.wf(),
        ensures
            answer == Ok::<bool, ReservationError>(
                self@.decide(user_id@, schedule_id, ad_cnt, cd_cnt, max_adult, max_child)
                    == Decision::Admit,
            ),
    {
        let outcome = self.decide(
            user_id.as_str(),
            schedule_id,
            ad_cnt,
            cd_cnt,
            max_adult,
            max_child,
        );
        Ok(outcome.is_admitted())
    }

    /// A booking request from the front door: asks the admission controller
    /// and, where it admits, hands the request to the allocator. Answers
    /// with the new reservation's id, with the controller's reason where it
    /// rejects, or with the allocator's error; on any error nothing is
    /// changed.
    pub fn book(
        &mut self,
        user_id: String,
        schedule_id: u64,
        ad_cnt: i32,
        cd_cnt: i32,
        reserved_at: Option<Timestamp>,
        max_adult: i32,
        max_child: i32,
    ) -> (outcome: Result<i32, ReservationError>)
        requires
            old(self).wf(),
        ensures
            final(self).wf(),
            outcome == old(self)@.book_outcome(
                user_id@,
                schedule_id,
                ad_cnt,
                cd_cnt,
                max_adult,
                max_child,
            ),
            final(self)@ == old(self)@.book(
                user_id@,
                schedule_id,
                ad_cnt,
                cd_cnt,
                reserved_at,
                max_adult,
                max_child,
            ),
    {
        let decided = self.decide(
            user_id.as_str(),
            schedule_id,
            ad_cnt,
            cd_cnt,
            max_adult,
            max_child,
        );
        match decided {
            Decision::Reject(reason) => Err(reason),
            Decision::Admit => {
                let reservation = Reservation {
                    id: 0,
                    user_id,
                    content_schedule_id: schedule_id,
                    reserved_at,
                    status: Some(ReservationStatus::Pending),
                    ad_cnt,
                    cd_cnt,
                    use_at: false,
                };
                self.adapter.save_reservation(reservation)
            },
        }
    }

    /// Use: confirms a pending reservation. Only the status changes: the
    /// redeemed flag and the aggregates stay as they are. `NotFound` for an
    /// unknown id, `InvalidTransition` for a reservation that is not pending.
    pub fn use_reservation(&mut self, reservation_id: i32) -> (outcome: Result<
        (),
        ReservationError,
    >)
        requires
            old(self).wf(),
        ensures
            final(self).wf(),
            outcome == old(self)@.update_status_outcome(
                reservation_id,
                ReservationStatus::Confirmed,
            ),
            final(self)@ == old(self)@.update_status(reservation_id, ReservationStatus::Confirmed),
    {
        let use_status = ReservationStatus::Confirmed;
        self.adapter.update_status(reservation_id, use_status)
    }

    /// Cancel: cancels a pending or confirmed reservation. Only the status
    /// changes: the seats stay counted in the aggregate of the schedule.
    /// `NotFound` for an unknown id, `InvalidTransition` for a reservation
    /// that is cancelled already.
    pub fn cancel_reservation(&mut self, reservation_id: i32) -> (outcome: Result<
        (),
        ReservationError,
    >)
        requires
            old(self).wf(),
        ensures
            final(self).wf(),
            outcome == old(self)@.update_status_outcome(
                reservation_id,
                ReservationStatus::Cancelled,
            ),
            final(self)@ == old(self)@.update_status(reservation_id, ReservationStatus::Cancelled),
    {
        let cancel_status = ReservationStatus::Cancelled;
        self.adapter.update_status(reservation_id, cancel_status)
    }

    /// Update counts: checks the new counts against the user's maxima, what
    /// the reservation's user already holds of the content against the same
    /// maxima, and then hands the change to the allocator.
    ///
    /// The gates, the first that fails deciding: `InvalidRequest` for counts
    /// above the maxima (a count of 0 is exempt), `NotFound` for an unknown
    /// id, `LimitExceeded` where the user already holds more than a maximum,
    /// and then the allocator's answers: `InvalidRequest` for a negative
    /// count and `CapacityExceeded` where the changed party does not fit. On
    /// any error nothing is changed.
    pub fn update_reservation(
        &mut self,
        reservation_id: i32,
        ad_cnt: i32,
        cd_cnt: i32,
        max_adult: i32,
        max_child: i32,
    ) -> (outcome: Result<(), ReservationError>)
        requires
            old(self).wf(),
        ensures
            final(self).wf(),
            outcome == old(self)@.update_reservation_outcome(
                reservation_id,
                ad_cnt,
                cd_cnt,
                max_adult,
                max_child,
            ),
            final(self)@ == old(self)@.update_reservation(
                reservation_id,
                ad_cnt,
                cd_cnt,
                max_adult,
                max_child,
            ),
    {
        if !validate_reservation_input_count(ad_cnt, cd_cnt, max_adult, max_child) {
            return Err(ReservationError::InvalidRequest);
        }
        let my_reservation = self.adapter.load_reservation(reservation_id);
        let chk_val = match &my_reservation {
            Some(reservation) => {
                match self.adapter.check_reservation_for_user_count(
                    reservation.user_id.as_str(),
                    reservation.content_schedule_id,
                ) {
                    Ok(val) => val,
                    Err(error) => {
                        return Err(error);
                    },
                }
            },
            None => ReservationLimits { total_adults: None, total_children: None },
        };
        match check_update(ad_cnt, cd_cnt, max_adult, max_child, my_reservation.is_some(), chk_val) {
            Ok(()) => self.adapter.update_reservaiton_user_count(reservation_id, ad_cnt, cd_cnt),
            Err(error) => Err(error),
        }
    }
}

} // verus!
