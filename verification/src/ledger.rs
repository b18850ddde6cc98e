//! The mathematical model of the two stores: the reservation records and the
//! occupancy aggregate of every schedule, with the operations that change
//! them and the queries that read them.
//!
//! A [`Ledger`] is a value. Every operation is a function from a ledger to
//! the ledger after it, so a run of operations in any order, however the
//! requests arrived, is a sequence of such steps.

use vstd::prelude::*;
use crate::admission::{decision, update_gates, Decision, ReservationLimits};
use crate::domain::{can_transition, ReservationStatus, ReservationView, Timestamp};
use crate::error::ReservationError;
use crate::occupancy::ScheduleOccupancy;

verus! {

/// The two categories of seats.
#[derive(Clone, Copy, Debug, PartialEq, Eq, Structural)]
pub enum Guest {
    Adult,
    Child,
}

/// The seats of one category that a reservation holds.
pub open spec fn seats(record: ReservationView, guest: Guest) -> int {
    match guest {
        Guest::Adult => record.ad_cnt as int,
        Guest::Child => record.cd_cnt as int,
    }
}

/// What one reservation adds to a total: its seats where `pick` selects it.
pub open spec fn share(
    record: ReservationView,
    pick: spec_fn(ReservationView) -> bool,
    guest: Guest,
) -> int {
    if pick(record) {
        seats(record, guest)
    } else {
        0
    }
}

/// The seats of one category, summed over the reservations that `pick` selects.
pub open spec fn tally(
    records: Seq<ReservationView>,
    pick: spec_fn(ReservationView) -> bool,
    guest: Guest,
) -> int
    decreases records.len(),
{
    if records.len() == 0 {
        0
    } else {
        tally(records.drop_last(), pick, guest) + share(records.last(), pick, guest)
    }
}

/// Selects the reservations of one schedule, whatever their status.
pub open spec fn on_schedule(schedule_id: u64) -> spec_fn(ReservationView) -> bool {
    |record: ReservationView| record.content_schedule_id == schedule_id
}

/// Selects the reservations of one schedule that are not cancelled.
pub open spec fn live_on_schedule(schedule_id: u64) -> spec_fn(ReservationView) -> bool {
    |record: ReservationView| record.content_schedule_id == schedule_id && record.is_live()
}

/// Selects the cancelled reservations of one schedule.
pub open spec fn cancelled_on_schedule(schedule_id: u64) -> spec_fn(ReservationView) -> bool {
    |record: ReservationView| record.content_schedule_id == schedule_id && !record.is_live()
}

/// Selects the reservations of one user, whatever their status.
pub open spec fn of_user(user: Seq<char>) -> spec_fn(ReservationView) -> bool {
    |record: ReservationView| record.user_id == user
}

/// Selects the reservations that were made within the closed range from
/// `start` to `end`. A reservation without a timestamp is outside every range.
pub open spec fn reserved_within(start: Timestamp, end: Timestamp) -> spec_fn(ReservationView) -> bool {
    |record: ReservationView|
        match record.reserved_at {
            Some(at) => at.within(start, end),
            None => false,
        }
}

/// The users of a sequence of reservations, one for one.
pub open spec fn users_of(records: Seq<ReservationView>) -> Seq<Seq<char>> {
    Seq::new(records.len(), |i: int| records[i].user_id)
}

/// The reservation records and the occupancy aggregates, as one value.
pub struct Ledger {
    /// Every reservation ever admitted, in the order of admission. Nothing is
    /// ever removed, so the reservation with id `n` stands at index `n - 1`.
    pub records: Seq<ReservationView>,
    /// The aggregate of each known schedule, by the schedule's id.
    pub schedules: Map<u64, ScheduleOccupancy>,
}

/// One operation on the stores.
pub enum Command {
    /// Makes a schedule known, with nothing held against it.
    RegisterSchedule { schedule_id: u64, content_id: u64, start_time: i64, capacity: i32 },
    /// The create path of the allocator.
    Allocate {
        user_id: Seq<char>,
        schedule_id: u64,
        ad_cnt: i32,
        cd_cnt: i32,
        reserved_at: Option<Timestamp>,
    },
    /// The count-update path of the allocator.
    Reallocate { reservation_id: i32, ad_cnt: i32, cd_cnt: i32 },
    /// A status transition.
    UpdateStatus { reservation_id: i32, status: ReservationStatus },
    /// Sets or clears the redeemed flag.
    SetUsed { reservation_id: i32, used: bool },
}

impl Ledger {
    /// The ledger with no schedule and no reservation.
    pub open spec fn empty() -> Ledger {
        Ledger { records: Seq::empty(), schedules: Map::empty() }
    }

    // ---------------------------------------------------------------- reads

    /// A reservation with this id exists.
    pub open spec fn knows(self, reservation_id: i32) -> bool {
        1 <= reservation_id <= self.records.len()
    }

    /// The reservation with this id, where one exists.
    pub open spec fn record(self, reservation_id: i32) -> ReservationView
        recommends
            self.knows(reservation_id),
    {
        self.records[reservation_id - 1]
    }

    /// Fetch by id.
    pub open spec fn fetch(self, reservation_id: i32) -> Option<ReservationView> {
        if self.knows(reservation_id) {
            Some(self.record(reservation_id))
        } else {
            None
        }
    }

    /// List by user: the user's reservations, in the order of admission.
    pub open spec fn listed_for_user(self, user: Seq<char>) -> Seq<ReservationView> {
        self.records.filter(of_user(user))
    }

    /// List by schedule: the schedule's reservations, in the order of admission.
    pub open spec fn listed_for_schedule(self, schedule_id: u64) -> Seq<ReservationView> {
        self.records.filter(on_schedule(schedule_id))
    }

    /// List by time of booking: the reservations made within the closed
    /// range from `start` to `end`, in the order of admission.
    pub open spec fn listed_within(self, start: Timestamp, end: Timestamp) -> Seq<ReservationView> {
        self.records.filter(reserved_within(start, end))
    }

    /// The seats of one category held against a schedule according to the
    /// records: the sum over all of the schedule's reservations.
    pub open spec fn booked(self, schedule_id: u64, guest: Guest) -> int {
        tally(self.records, on_schedule(schedule_id), guest)
    }

    /// The same sum over the reservations that are not cancelled.
    pub open spec fn live_booked(self, schedule_id: u64, guest: Guest) -> int {
        tally(self.records, live_on_schedule(schedule_id), guest)
    }

    /// The same sum over the cancelled reservations.
    pub open spec fn cancelled_booked(self, schedule_id: u64, guest: Guest) -> int {
        tally(self.records, cancelled_on_schedule(schedule_id), guest)
    }

    /// `record` is a live reservation of `user` for a schedule of `content_id`.
    pub open spec fn holds_content(
        self,
        record: ReservationView,
        user: Seq<char>,
        content_id: u64,
    ) -> bool {
        &&& record.user_id == user
        &&& record.is_live()
        &&& self.schedules.contains_key(record.content_schedule_id)
        &&& self.schedules[record.content_schedule_id].content_id == content_id
    }

    /// Selects the live reservations of `user` for any schedule of `content_id`.
    pub open spec fn held_of_content(self, user: Seq<char>, content_id: u64) -> spec_fn(
        ReservationView,
    ) -> bool {
        |record: ReservationView| self.holds_content(record, user, content_id)
    }

    /// `record` is a live reservation of `user` for another schedule than
    /// `schedule_id` that starts at `start_time`.
    pub open spec fn overlaps(
        self,
        record: ReservationView,
        user: Seq<char>,
        schedule_id: u64,
        start_time: i64,
    ) -> bool {
        &&& record.user_id == user
        &&& record.is_live()
        &&& record.content_schedule_id != schedule_id
        &&& self.schedules.contains_key(record.content_schedule_id)
        &&& self.schedules[record.content_schedule_id].start_time == start_time
    }

    /// The user holds a live reservation for any schedule of the content that
    /// `schedule_id` belongs to. False for an unknown schedule.
    pub open spec fn has_content_booking(self, user: Seq<char>, schedule_id: u64) -> bool {
        &&& self.schedules.contains_key(schedule_id)
        &&& exists|i: int|
            0 <= i < self.records.len() && self.holds_content(
                #[trigger] self.records[i],
                user,
                self.schedules[schedule_id].content_id,
            )
    }

    /// The user holds a live reservation for a different schedule that starts
    /// when `schedule_id` starts. False for an unknown schedule.
    pub open spec fn has_overlapping_time_booking(self, user: Seq<char>, schedule_id: u64) -> bool {
        &&& self.schedules.contains_key(schedule_id)
        &&& exists|i: int|
            0 <= i < self.records.len() && self.overlaps(
                #[trigger] self.records[i],
                user,
                schedule_id,
                self.schedules[schedule_id].start_time,
            )
    }

    /// The seats of one category that the user holds, live, of the content
    /// that `schedule_id` belongs to.
    pub open spec fn held(self, user: Seq<char>, schedule_id: u64, guest: Guest) -> int {
        tally(
            self.records,
            self.held_of_content(user, self.schedules[schedule_id].content_id),
            guest,
        )
    }

    /// The aggregate query: what the user holds of the content that
    /// `schedule_id` belongs to, or no totals where the user holds nothing of it.
    pub open spec fn aggregate_user_counts(self, user: Seq<char>, schedule_id: u64) -> ReservationLimits {
        if self.has_content_booking(user, schedule_id) {
            ReservationLimits {
                total_adults: Some(self.held(user, schedule_id, Guest::Adult) as i64),
                total_children: Some(self.held(user, schedule_id, Guest::Child) as i64),
            }
        } else {
            ReservationLimits { total_adults: None, total_children: None }
        }
    }

    /// The admission controller on this ledger.
    pub open spec fn decide(
        self,
        user: Seq<char>,
        schedule_id: u64,
        ad_cnt: i32,
        cd_cnt: i32,
        max_adult: i32,
        max_child: i32,
    ) -> Decision {
        decision(
            ad_cnt,
            cd_cnt,
            max_adult,
            max_child,
            self.has_content_booking(user, schedule_id),
            self.aggregate_user_counts(user, schedule_id),
        )
    }

    // ------------------------------------------------------------ invariant

    /// The record at index `i` carries the id `i + 1`, holds no negative
    /// count, has a status, and belongs to a known schedule.
    pub open spec fn record_wf(self, i: int) -> bool {
        let record = self.records[i];
        &&& record.id == i + 1
        &&& record.counts_valid()
        &&& record.status is Some
        &&& self.schedules.contains_key(record.content_schedule_id)
    }

    /// The aggregate of schedule `schedule_id` is filed under its own id, is
    /// within its capacity, and counts in each category exactly the seats of
    /// the schedule's reservations.
    pub open spec fn schedule_wf(self, schedule_id: u64) -> bool {
        let occupancy = self.schedules[schedule_id];
        &&& occupancy.schedule_id == schedule_id
        &&& occupancy.wf()
        &&& occupancy.ad_cnt == self.booked(schedule_id, Guest::Adult)
        &&& occupancy.cd_cnt == self.booked(schedule_id, Guest::Child)
    }

    /// The invariant of the stores.
    pub open spec fn wf(self) -> bool {
        &&& self.records.len() <= i32::MAX
        &&& forall|i: int| 0 <= i < self.records.len() ==> #[trigger] self.record_wf(i)
        &&& forall|s: u64| #[trigger] self.schedules.contains_key(s) ==> self.schedule_wf(s)
    }

    // ----------------------------------------------------------- operations

    /// What registering a schedule answers.
    pub open spec fn register_outcome(self, schedule_id: u64, capacity: i32) -> Result<
        (),
        ReservationError,
    > {
        if capacity < 0 {
            Err(ReservationError::InvalidRequest)
        } else if self.schedules.contains_key(schedule_id) {
            Err(ReservationError::PersistenceError)
        } else {
            Ok(())
        }
    }

    /// The ledger after registering a schedule.
    pub open spec fn register_schedule(
        self,
        schedule_id: u64,
        content_id: u64,
        start_time: i64,
        capacity: i32,
    ) -> Ledger {
        if self.register_outcome(schedule_id, capacity) is Ok {
            Ledger {
                schedules: self.schedules.insert(
                    schedule_id,
                    ScheduleOccupancy {
                        schedule_id,
                        content_id,
                        start_time,
                        ad_cnt: 0,
                        cd_cnt: 0,
                        capacity,
                    },
                ),
                ..self
            }
        } else {
            self
        }
    }

    /// What the create path answers: the new reservation's id, or
    /// `InvalidRequest` for a negative count, `PersistenceError` for an
    /// unknown schedule, `CapacityExceeded` where the party does not fit, and
    /// `PersistenceError` where no id is left.
    pub open spec fn allocate_outcome(self, schedule_id: u64, ad_cnt: i32, cd_cnt: i32) -> Result<
        i32,
        ReservationError,
    > {
        if ad_cnt < 0 || cd_cnt < 0 {
            Err(ReservationError::InvalidRequest)
        } else if !self.schedules.contains_key(schedule_id) {
            Err(ReservationError::PersistenceError)
        } else if !self.schedules[schedule_id].fits(ad_cnt, cd_cnt) {
            Err(ReservationError::CapacityExceeded)
        } else if self.records.len() >= i32::MAX {
            Err(ReservationError::PersistenceError)
        } else {
            Ok((self.records.len() + 1) as i32)
        }
    }

    /// The ledger after the create path: on success one more record, in
    /// status `Pending`, and the schedule's aggregate raised by the party;
    /// on any failure the ledger as it was.
    pub open spec fn allocate(
        self,
        user_id: Seq<char>,
        schedule_id: u64,
        ad_cnt: i32,
        cd_cnt: i32,
        reserved_at: Option<Timestamp>,
    ) -> Ledger {
        if self.allocate_outcome(schedule_id, ad_cnt, cd_cnt) is Ok {
            Ledger {
                records: self.records.push(
                    ReservationView {
                        id: (self.records.len() + 1) as i32,
                        user_id,
                        content_schedule_id: schedule_id,
                        reserved_at,
                        status: Some(ReservationStatus::Pending),
                        ad_cnt,
                        cd_cnt,
                        use_at: false,
                    },
                ),
                schedules: self.schedules.insert(
                    schedule_id,
                    self.schedules[schedule_id].reserved(ad_cnt, cd_cnt),
                ),
            }
        } else {
            self
        }
    }

    /// What the count-update path answers: `NotFound` for an unknown id,
    /// `InvalidRequest` for a negative count, `CapacityExceeded` where the
    /// changed party does not fit.
    pub open spec fn reallocate_outcome(self, reservation_id: i32, ad_cnt: i32, cd_cnt: i32) -> Result<
        (),
        ReservationError,
    > {
        if !self.knows(reservation_id) {
            Err(ReservationError::NotFound)
        } else if ad_cnt < 0 || cd_cnt < 0 {
            Err(ReservationError::InvalidRequest)
        } else {
            let record = self.record(reservation_id);
            let occupancy = self.schedules[record.content_schedule_id];
            if !occupancy.fits_change(record.ad_cnt, record.cd_cnt, ad_cnt, cd_cnt) {
                Err(ReservationError::CapacityExceeded)
            } else {
                Ok(())
            }
        }
    }

    /// The ledger after the count-update path: on success the record carries
    /// the new counts and its schedule's aggregate has moved by the same
    /// difference; on any failure the ledger as it was.
    pub open spec fn reallocate(self, reservation_id: i32, ad_cnt: i32, cd_cnt: i32) -> Ledger {
        if self.reallocate_outcome(reservation_id, ad_cnt, cd_cnt) is Ok {
            let record = self.record(reservation_id);
            let occupancy = self.schedules[record.content_schedule_id];
            Ledger {
                records: self.records.update(
                    reservation_id - 1,
                    ReservationView { ad_cnt, cd_cnt, ..record },
                ),
                schedules: self.schedules.insert(
                    record.content_schedule_id,
                    occupancy.rebooked(record.ad_cnt, record.cd_cnt, ad_cnt, cd_cnt),
                ),
            }
        } else {
            self
        }
    }

    /// What a status transition answers: `NotFound` for an unknown id,
    /// `InvalidTransition` where the lifecycle has no such transition.
    pub open spec fn update_status_outcome(self, reservation_id: i32, status: ReservationStatus) -> Result<
        (),
        ReservationError,
    > {
        if !self.knows(reservation_id) {
            Err(ReservationError::NotFound)
        } else if !can_transition(self.record(reservation_id).current_status(), status) {
            Err(ReservationError::InvalidTransition)
        } else {
            Ok(())
        }
    }

    /// The ledger after a status transition: on success the record carries
    /// the new status, and that is all; the aggregates are never touched.
    pub open spec fn update_status(self, reservation_id: i32, status: ReservationStatus) -> Ledger {
        if self.update_status_outcome(reservation_id, status) is Ok {
            Ledger {
                records: self.records.update(
                    reservation_id - 1,
                    ReservationView { status: Some(status), ..self.record(reservation_id) },
                ),
                ..self
            }
        } else {
            self
        }
    }

    /// The ledger after setting the redeemed flag of a known reservation.
    pub open spec fn set_used(self, reservation_id: i32, used: bool) -> Ledger {
        if self.knows(reservation_id) {
            Ledger {
                records: self.records.update(
                    reservation_id - 1,
                    ReservationView { use_at: used, ..self.record(reservation_id) },
                ),
                ..self
            }
        } else {
            self
        }
    }

    /// What the update use case answers: the first failure of the gates
    /// before the allocator (`InvalidRequest` for counts above the maxima,
    /// `NotFound` for an unknown id, `LimitExceeded` where the reservation's
    /// user holds more of the content than a maximum), and else the answer
    /// of the count-update path of the allocator.
    pub open spec fn update_reservation_outcome(
        self,
        reservation_id: i32,
        ad_cnt: i32,
        cd_cnt: i32,
        max_adult: i32,
        max_child: i32,
    ) -> Result<(), ReservationError> {
        let record = self.record(reservation_id);
        let gates = update_gates(
            ad_cnt,
            cd_cnt,
            max_adult,
            max_child,
            self.knows(reservation_id),
            self.aggregate_user_counts(record.user_id, record.content_schedule_id),
        );
        if gates is Err {
            gates
        } else {
            self.reallocate_outcome(reservation_id, ad_cnt, cd_cnt)
        }
    }

    /// The ledger after the update use case.
    pub open spec fn update_reservation(
        self,
        reservation_id: i32,
        ad_cnt: i32,
        cd_cnt: i32,
        max_adult: i32,
        max_child: i32,
    ) -> Ledger {
        if self.update_reservation_outcome(reservation_id, ad_cnt, cd_cnt, max_adult, max_child) is Ok {
            self.reallocate(reservation_id, ad_cnt, cd_cnt)
        } else {
            self
        }
    }

    /// What a booking request ends in: the reason of the admission
    /// controller where it rejects, and else the answer of the create path.
    pub open spec fn book_outcome(
        self,
        user: Seq<char>,
        schedule_id: u64,
        ad_cnt: i32,
        cd_cnt: i32,
        max_adult: i32,
        max_child: i32,
    ) -> Result<i32, ReservationError> {
        match self.decide(user, schedule_id, ad_cnt, cd_cnt, max_adult, max_child) {
            Decision::Reject(reason) => Err(reason),
            Decision::Admit => self.allocate_outcome(schedule_id, ad_cnt, cd_cnt),
        }
    }

    /// The ledger after a booking request: after the create path where the
    /// admission controller admits, and unchanged where it rejects.
    pub open spec fn book(
        self,
        user: Seq<char>,
        schedule_id: u64,
        ad_cnt: i32,
        cd_cnt: i32,
        reserved_at: Option<Timestamp>,
        max_adult: i32,
        max_child: i32,
    ) -> Ledger {
        match self.decide(user, schedule_id, ad_cnt, cd_cnt, max_adult, max_child) {
            Decision::Reject(_) => self,
            Decision::Admit => self.allocate(user, schedule_id, ad_cnt, cd_cnt, reserved_at),
        }
    }

    /// The ledger after one operation.
    pub open spec fn step(self, command: Command) -> Ledger {
        match command {
            Command::RegisterSchedule { schedule_id, content_id, start_time, capacity } => {
                self.register_schedule(schedule_id, content_id, start_time, capacity)
            },
            Command::Allocate { user_id, schedule_id, ad_cnt, cd_cnt, reserved_at } => {
                self.allocate(user_id, schedule_id, ad_cnt, cd_cnt, reserved_at)
            },
            Command::Reallocate { reservation_id, ad_cnt, cd_cnt } => {
                self.reallocate(reservation_id, ad_cnt, cd_cnt)
            },
            Command::UpdateStatus { reservation_id, status } => {
                self.update_status(reservation_id, status)
            },
            Command::SetUsed { reservation_id, used } => self.set_used(reservation_id, used),
        }
    }

    /// The ledger after a sequence of operations, first to last.
    pub open spec fn run(self, commands: Seq<Command>) -> Ledger
        decreases commands.len(),
    {
        if commands.len() == 0 {
            self
        } else {
            self.run(commands.drop_last()).step(commands.last())
        }
    }
}

// ------------------------------------------------------------------ sums

/// A total grows by the share of a record that is appended.
pub proof fn lemma_tally_push(
    records: Seq<ReservationView>,
    record: ReservationView,
    pick: spec_fn(ReservationView) -> bool,
    guest: Guest,
)
    ensures
        tally(records.push(record), pick, guest) == tally(records, pick, guest) + share(
            record,
            pick,
            guest,
        ),
{
    assert(records.push(record).drop_last() =~= records);
}

/// A total moves by the difference of the shares where one record is replaced.
pub proof fn lemma_tally_update(
    records: Seq<ReservationView>,
    i: int,
    record: ReservationView,
    pick: spec_fn(ReservationView) -> bool,
    guest: Guest,
)
    requires
        0 <= i < records.len(),
    ensures
        tally(records.update(i, record), pick, guest) == tally(records, pick, guest) - share(
            records[i],
            pick,
            guest,
        ) + share(record, pick, guest),
    decreases records.len(),
{
    let changed = records.update(i, record);
    if i == records.len() - 1 {
        assert(changed.drop_last() =~= records.drop_last());
    } else {
        assert(changed.drop_last() =~= records.drop_last().update(i, record));
        lemma_tally_update(records.drop_last(), i, record, pick, guest);
    }
}

/// A total over records without negative counts lies between 0 and
/// `i32::MAX` for each record.
pub proof fn lemma_tally_bounds(
    records: Seq<ReservationView>,
    pick: spec_fn(ReservationView) -> bool,
    guest: Guest,
)
    requires
        forall|i: int| 0 <= i < records.len() ==> (#[trigger] records[i]).counts_valid(),
    ensures
        0 <= tally(records, pick, guest) <= records.len() * i32::MAX,
    decreases records.len(),
{
    if records.len() > 0 {
        let rest = records.drop_last();
        assert forall|i: int| 0 <= i < rest.len() implies (#[trigger] rest[i]).counts_valid() by {}
        lemma_tally_bounds(rest, pick, guest);
    }
}

/// A total over records of which none is selected is 0.
pub proof fn lemma_tally_none(
    records: Seq<ReservationView>,
    pick: spec_fn(ReservationView) -> bool,
    guest: Guest,
)
    requires
        forall|i: int| 0 <= i < records.len() ==> !pick(#[trigger] records[i]),
    ensures
        tally(records, pick, guest) == 0,
    decreases records.len(),
{
    if records.len() > 0 {
        let rest = records.drop_last();
        assert forall|i: int| 0 <= i < rest.len() implies !pick(#[trigger] rest[i]) by {}
        lemma_tally_none(rest, pick, guest);
    }
}

/// Where every record selected by `whole` is selected by exactly one of
/// `left` and `right`, and by neither otherwise, the total over `whole` is
/// the sum of the two totals.
pub proof fn lemma_tally_split(
    records: Seq<ReservationView>,
    whole: spec_fn(ReservationView) -> bool,
    left: spec_fn(ReservationView) -> bool,
    right: spec_fn(ReservationView) -> bool,
    guest: Guest,
)
    requires
        forall|r: ReservationView| #[trigger] whole(r) <==> (left(r) || right(r)),
        forall|r: ReservationView| !(#[trigger] left(r) && right(r)),
    ensures
        tally(records, whole, guest) == tally(records, left, guest) + tally(records, right, guest),
    decreases records.len(),
{
    if records.len() > 0 {
        lemma_tally_split(records.drop_last(), whole, left, right, guest);
    }
}

// ------------------------------------------------- the invariant is kept

/// In a well-formed ledger no record holds a negative count.
pub proof fn lemma_records_valid(ledger: Ledger)
    requires
        ledger.wf(),
    ensures
        forall|i: int| 0 <= i < ledger.records.len() ==> (#[trigger] ledger.records[i]).counts_valid(),
{
    assert forall|i: int| 0 <= i < ledger.records.len() implies (
    #[trigger] ledger.records[i]).counts_valid() by {
        assert(ledger.record_wf(i));
    }
}

/// In a well-formed ledger the aggregate of a reservation's schedule counts
/// the reservation's party: in each category it holds at least the seats of
/// that one reservation.
pub proof fn lemma_aggregate_counts_party(ledger: Ledger, reservation_id: i32)
    requires
        ledger.wf(),
        ledger.knows(reservation_id),
    ensures
        ledger.schedules.contains_key(ledger.record(reservation_id).content_schedule_id),
        ledger.schedules[ledger.record(reservation_id).content_schedule_id].wf(),
        ledger.schedules[ledger.record(reservation_id).content_schedule_id].counts_party(
            ledger.record(reservation_id).ad_cnt,
            ledger.record(reservation_id).cd_cnt,
        ),
{
    let at = reservation_id - 1;
    let record = ledger.records[at];
    let schedule_id = record.content_schedule_id;
    assert(ledger.record_wf(at));
    let zeroed = ReservationView { ad_cnt: 0, cd_cnt: 0, ..record };
    let rest = ledger.records.update(at, zeroed);
    lemma_tally_update(ledger.records, at, zeroed, on_schedule(schedule_id), Guest::Adult);
    lemma_tally_update(ledger.records, at, zeroed, on_schedule(schedule_id), Guest::Child);
    assert forall|i: int| 0 <= i < rest.len() implies (#[trigger] rest[i]).counts_valid() by {
        assert(ledger.record_wf(i));
    }
    lemma_tally_bounds(rest, on_schedule(schedule_id), Guest::Adult);
    lemma_tally_bounds(rest, on_schedule(schedule_id), Guest::Child);
}

/// Registering a schedule keeps the invariant.
pub proof fn lemma_register_keeps_wf(
    ledger: Ledger,
    schedule_id: u64,
    content_id: u64,
    start_time: i64,
    capacity: i32,
)
    requires
        ledger.wf(),
    ensures
        ledger.register_schedule(schedule_id, content_id, start_time, capacity).wf(),
{
    let after = ledger.register_schedule(schedule_id, content_id, start_time, capacity);
    if ledger.register_outcome(schedule_id, capacity) is Ok {
        assert forall|i: int| 0 <= i < after.records.len() implies #[trigger] after.record_wf(i) by {
            assert(ledger.record_wf(i));
        }
        assert forall|s: u64| #[trigger] after.schedules.contains_key(s) implies after.schedule_wf(
            s,
        ) by {
            if s == schedule_id {
                assert forall|i: int| 0 <= i < ledger.records.len() implies !on_schedule(s)(
                    #[trigger] ledger.records[i],
                ) by {
                    assert(ledger.record_wf(i));
                }
                lemma_tally_none(ledger.records, on_schedule(s), Guest::Adult);
                lemma_tally_none(ledger.records, on_schedule(s), Guest::Child);
            }
        }
    }
}

/// The create path keeps the invariant.
pub proof fn lemma_allocate_keeps_wf(
    ledger: Ledger,
    user_id: Seq<char>,
    schedule_id: u64,
    ad_cnt: i32,
    cd_cnt: i32,
    reserved_at: Option<Timestamp>,
)
    requires
        ledger.wf(),
    ensures
        ledger.allocate(user_id, schedule_id, ad_cnt, cd_cnt, reserved_at).wf(),
{
    let after = ledger.allocate(user_id, schedule_id, ad_cnt, cd_cnt, reserved_at);
    if ledger.allocate_outcome(schedule_id, ad_cnt, cd_cnt) is Ok {
        let added = after.records[ledger.records.len() as int];
        assert forall|i: int| 0 <= i < after.records.len() implies #[trigger] after.record_wf(i) by {
            if i < ledger.records.len() {
                assert(ledger.record_wf(i));
            }
        }
        assert forall|s: u64| #[trigger] after.schedules.contains_key(s) implies after.schedule_wf(
            s,
        ) by {
            lemma_tally_push(ledger.records, added, on_schedule(s), Guest::Adult);
            lemma_tally_push(ledger.records, added, on_schedule(s), Guest::Child);
        }
    }
}

/// The count-update path keeps the invariant.
pub proof fn lemma_reallocate_keeps_wf(ledger: Ledger, reservation_id: i32, ad_cnt: i32, cd_cnt: i32)
    requires
        ledger.wf(),
    ensures
        ledger.reallocate(reservation_id, ad_cnt, cd_cnt).wf(),
{
    let after = ledger.reallocate(reservation_id, ad_cnt, cd_cnt);
    if ledger.reallocate_outcome(reservation_id, ad_cnt, cd_cnt) is Ok {
        let at = reservation_id - 1;
        let before = ledger.records[at];
        let changed = after.records[at];
        assert(ledger.record_wf(at));
        assert forall|i: int| 0 <= i < after.records.len() implies #[trigger] after.record_wf(i) by {
            assert(ledger.record_wf(i));
        }
        assert forall|i: int| 0 <= i < after.records.len() implies (
        #[trigger] after.records[i]).counts_valid() by {
            assert(after.record_wf(i));
        }
        assert forall|s: u64| #[trigger] after.schedules.contains_key(s) implies after.schedule_wf(
            s,
        ) by {
            lemma_tally_update(ledger.records, at, changed, on_schedule(s), Guest::Adult);
            lemma_tally_update(ledger.records, at, changed, on_schedule(s), Guest::Child);
            lemma_tally_bounds(after.records, on_schedule(s), Guest::Adult);
            lemma_tally_bounds(after.records, on_schedule(s), Guest::Child);
        }
    }
}

/// Replacing a record by one with the same schedule and the same counts
/// keeps the invariant: no aggregate has anything to follow.
pub proof fn lemma_relabel_keeps_wf(ledger: Ledger, at: int, record: ReservationView)
    requires
        ledger.wf(),
        0 <= at < ledger.records.len(),
        record.id == ledger.records[at].id,
        record.content_schedule_id == ledger.records[at].content_schedule_id,
        record.ad_cnt == ledger.records[at].ad_cnt,
        record.cd_cnt == ledger.records[at].cd_cnt,
        record.status is Some,
    ensures
        (Ledger { records: ledger.records.update(at, record), ..ledger }).wf(),
{
    let after = Ledger { records: ledger.records.update(at, record), ..ledger };
    assert forall|i: int| 0 <= i < after.records.len() implies #[trigger] after.record_wf(i) by {
        assert(ledger.record_wf(i));
    }
    assert forall|s: u64| #[trigger] after.schedules.contains_key(s) implies after.schedule_wf(
        s,
    ) by {
        lemma_tally_update(ledger.records, at, record, on_schedule(s), Guest::Adult);
        lemma_tally_update(ledger.records, at, record, on_schedule(s), Guest::Child);
    }
}

/// A status transition keeps the invariant.
pub proof fn lemma_update_status_keeps_wf(ledger: Ledger, reservation_id: i32, status: ReservationStatus)
    requires
        ledger.wf(),
    ensures
        ledger.update_status(reservation_id, status).wf(),
{
    if ledger.update_status_outcome(reservation_id, status) is Ok {
        lemma_relabel_keeps_wf(
            ledger,
            reservation_id - 1,
            ReservationView { status: Some(status), ..ledger.record(reservation_id) },
        );
    }
}

/// Setting the redeemed flag keeps the invariant.
pub proof fn lemma_set_used_keeps_wf(ledger: Ledger, reservation_id: i32, used: bool)
    requires
        ledger.wf(),
    ensures
        ledger.set_used(reservation_id, used).wf(),
{
    if ledger.knows(reservation_id) {
        assert(ledger.record_wf(reservation_id - 1));
        lemma_relabel_keeps_wf(
            ledger,
            reservation_id - 1,
            ReservationView { use_at: used, ..ledger.record(reservation_id) },
        );
    }
}

/// Every operation keeps the invariant.
pub proof fn lemma_step_keeps_wf(ledger: Ledger, command: Command)
    requires
        ledger.wf(),
    ensures
        ledger.step(command).wf(),
{
    match command {
        Command::RegisterSchedule { schedule_id, content_id, start_time, capacity } => {
            lemma_register_keeps_wf(ledger, schedule_id, content_id, start_time, capacity);
        },
        Command::Allocate { user_id, schedule_id, ad_cnt, cd_cnt, reserved_at } => {
            lemma_allocate_keeps_wf(ledger, user_id, schedule_id, ad_cnt, cd_cnt, reserved_at);
        },
        Command::Reallocate { reservation_id, ad_cnt, cd_cnt } => {
            lemma_reallocate_keeps_wf(ledger, reservation_id, ad_cnt, cd_cnt);
        },
        Command::UpdateStatus { reservation_id, status } => {
            lemma_update_status_keeps_wf(ledger, reservation_id, status);
        },
        Command::SetUsed { reservation_id, used } => {
            lemma_set_used_keeps_wf(ledger, reservation_id, used);
        },
    }
}

/// Every sequence of operations keeps the invariant.
pub proof fn lemma_run_keeps_wf(ledger: Ledger, commands: Seq<Command>)
    requires
        ledger.wf(),
    ensures
        ledger.run(commands).wf(),
    decreases commands.len(),
{
    if commands.len() > 0 {
        lemma_run_keeps_wf(ledger, commands.drop_last());
        lemma_step_keeps_wf(ledger.run(commands.drop_last()), commands.last());
    }
}

} // verus!
