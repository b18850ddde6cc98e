//! What holds of the booking core as a whole, over every ledger that the
//! operations can reach and every order in which requests can take effect.

use vstd::prelude::*;
use crate::admission::{input_counts_valid, Decision};
use crate::domain::{can_transition, ReservationStatus, ReservationView, Timestamp};
use crate::error::ReservationError;
use crate::ledger::{
    cancelled_on_schedule, lemma_reallocate_keeps_wf, lemma_records_valid, lemma_run_keeps_wf,
    lemma_tally_bounds, lemma_tally_split, lemma_tally_update, live_on_schedule, on_schedule,
    share, tally, Command, Guest, Ledger,
};

verus! {

/// The empty ledger keeps the invariant, and so does every ledger that a
/// sequence of operations makes of it.
pub proof fn lemma_reachable_is_wf(commands: Seq<Command>)
    ensures
        Ledger::empty().wf(),
        Ledger::empty().run(commands).wf(),
{
    lemma_run_keeps_wf(Ledger::empty(), commands);
}

/// What a schedule is never changes: every operation leaves a known
/// schedule known, with the capacity, the content and the start time that it
/// was registered with.
pub proof fn lemma_schedule_is_fixed(start: Ledger, commands: Seq<Command>, schedule_id: u64)
    requires
        start.schedules.contains_key(schedule_id),
    ensures
        start.run(commands).schedules.contains_key(schedule_id),
        start.run(commands).schedules[schedule_id].capacity
            == start.schedules[schedule_id].capacity,
        start.run(commands).schedules[schedule_id].content_id
            == start.schedules[schedule_id].content_id,
        start.run(commands).schedules[schedule_id].start_time
            == start.schedules[schedule_id].start_time,
    decreases commands.len(),
{
    if commands.len() > 0 {
        lemma_schedule_is_fixed(start, commands.drop_last(), schedule_id);
    }
}

/// The capacity invariant. Over any sequence of operations, in whatever
/// order they take effect, the seats held against a schedule never exceed
/// its capacity, and neither counter is ever negative.
pub proof fn lemma_capacity_never_exceeded(start: Ledger, commands: Seq<Command>, schedule_id: u64)
    requires
        start.wf(),
        start.run(commands).schedules.contains_key(schedule_id),
    ensures
        start.run(commands).schedules[schedule_id].total() <= start.run(
            commands,
        ).schedules[schedule_id].capacity,
        start.run(commands).schedules[schedule_id].ad_cnt >= 0,
        start.run(commands).schedules[schedule_id].cd_cnt >= 0,
{
    lemma_run_keeps_wf(start, commands);
}

/// Exactly the bookings that fit are committed. On a known schedule, with
/// counts that are not negative and an id left to give, the create path
/// succeeds if and only if the total after the booking is within the
/// capacity; it then raises the total by exactly the party, and otherwise
/// changes nothing.
pub proof fn lemma_allocate_commits_what_fits(
    ledger: Ledger,
    user_id: Seq<char>,
    schedule_id: u64,
    ad_cnt: i32,
    cd_cnt: i32,
    reserved_at: Option<Timestamp>,
)
    requires
        ledger.wf(),
        ledger.schedules.contains_key(schedule_id),
        ad_cnt >= 0,
        cd_cnt >= 0,
        ledger.records.len() < i32::MAX,
    ensures
        ledger.allocate_outcome(schedule_id, ad_cnt, cd_cnt) is Ok
            <==> ledger.schedules[schedule_id].total() + ad_cnt + cd_cnt
            <= ledger.schedules[schedule_id].capacity,
        ledger.allocate_outcome(schedule_id, ad_cnt, cd_cnt) is Ok ==> ledger.allocate(
            user_id,
            schedule_id,
            ad_cnt,
            cd_cnt,
            reserved_at,
        ).schedules[schedule_id].total() == ledger.schedules[schedule_id].total() + ad_cnt + cd_cnt,
        ledger.allocate_outcome(schedule_id, ad_cnt, cd_cnt) is Err ==> ledger.allocate(
            user_id,
            schedule_id,
            ad_cnt,
            cd_cnt,
            reserved_at,
        ) == ledger,
        ledger.allocate_outcome(schedule_id, ad_cnt, cd_cnt) is Err ==> ledger.allocate_outcome(
            schedule_id,
            ad_cnt,
            cd_cnt,
        ) == Err::<i32, ReservationError>(ReservationError::CapacityExceeded),
{
}

/// What one operation commits to a schedule by the create path: the party
/// of a booking on that schedule that succeeds on `ledger`, and nothing for
/// a booking that fails, for a booking on another schedule, and for every
/// other operation.
pub open spec fn committed_by(ledger: Ledger, command: Command, schedule_id: u64) -> int {
    match command {
        Command::Allocate { schedule_id: booked, ad_cnt, cd_cnt, .. } => {
            if booked == schedule_id && ledger.allocate_outcome(booked, ad_cnt, cd_cnt) is Ok {
                ad_cnt + cd_cnt
            } else {
                0
            }
        },
        _ => 0,
    }
}

/// The seats that a sequence of operations commits to a schedule by the
/// create path: the sum of what each operation commits on the ledger as the
/// operations before it have left it.
pub open spec fn committed_seats(start: Ledger, commands: Seq<Command>, schedule_id: u64) -> int
    decreases commands.len(),
{
    if commands.len() == 0 {
        0
    } else {
        committed_seats(start, commands.drop_last(), schedule_id) + committed_by(
            start.run(commands.drop_last()),
            commands.last(),
            schedule_id,
        )
    }
}

/// Every operation of the sequence is a booking by the create path.
pub open spec fn all_allocations(commands: Seq<Command>) -> bool {
    forall|i: int| 0 <= i < commands.len() ==> (#[trigger] commands[i]) is Allocate
}

/// Bookings add up. However many bookings are issued against a schedule,
/// and in whatever order they take effect, the seats held against it
/// afterwards are the seats held before plus the parties of exactly those
/// bookings that succeeded, and they are within the capacity.
pub proof fn lemma_allocations_add_up(start: Ledger, commands: Seq<Command>, schedule_id: u64)
    requires
        start.wf(),
        start.schedules.contains_key(schedule_id),
        all_allocations(commands),
    ensures
        start.run(commands).schedules.contains_key(schedule_id),
        start.run(commands).schedules[schedule_id].total() == start.schedules[schedule_id].total()
            + committed_seats(start, commands, schedule_id),
        start.run(commands).schedules[schedule_id].total()
            <= start.schedules[schedule_id].capacity,
    decreases commands.len(),
{
    lemma_schedule_is_fixed(start, commands, schedule_id);
    lemma_capacity_never_exceeded(start, commands, schedule_id);
    if commands.len() > 0 {
        let rest = commands.drop_last();
        let before = start.run(rest);
        assert(all_allocations(rest)) by {
            assert forall|i: int| 0 <= i < rest.len() implies (#[trigger] rest[i]) is Allocate by {
                assert(rest[i] == commands[i]);
            }
        }
        lemma_allocations_add_up(start, rest, schedule_id);
        lemma_run_keeps_wf(start, rest);
        assert(commands[commands.len() - 1] is Allocate);
        assert(before.schedule_wf(schedule_id));
    }
}

/// A total over cancelled reservations is 0 exactly where none of them
/// holds a seat of that category.
proof fn lemma_cancelled_total_zero(records: Seq<ReservationView>, schedule_id: u64, guest: Guest)
    requires
        forall|i: int| 0 <= i < records.len() ==> (#[trigger] records[i]).counts_valid(),
    ensures
        tally(records, cancelled_on_schedule(schedule_id), guest) == 0 <==> forall|i: int|
            0 <= i < records.len() ==> share(
                #[trigger] records[i],
                cancelled_on_schedule(schedule_id),
                guest,
            ) == 0,
    decreases records.len(),
{
    let pick = cancelled_on_schedule(schedule_id);
    if records.len() > 0 {
        let rest = records.drop_last();
        assert forall|i: int| 0 <= i < rest.len() implies (#[trigger] rest[i]).counts_valid() by {}
        lemma_cancelled_total_zero(rest, schedule_id, guest);
        lemma_tally_bounds(rest, pick, guest);
        if tally(records, pick, guest) == 0 {
            assert forall|i: int| 0 <= i < records.len() implies share(
                #[trigger] records[i],
                pick,
                guest,
            ) == 0 by {
                if i < rest.len() {
                    assert(rest[i] == records[i]);
                }
            }
        }
        if forall|i: int| 0 <= i < records.len() ==> share(#[trigger] records[i], pick, guest) == 0 {
            assert forall|i: int| 0 <= i < rest.len() implies share(
                #[trigger] rest[i],
                pick,
                guest,
            ) == 0 by {}
        }
    }
}

/// Aggregate consistency, as far as it holds. In every ledger that the
/// operations can reach, the seats held against a schedule are the seats of
/// its reservations that are not cancelled plus the seats of its cancelled
/// ones: cancelling changes a status and moves no aggregate. The aggregate
/// therefore equals the sum over the reservations that are not cancelled
/// exactly where no cancelled reservation of the schedule holds a seat.
pub proof fn lemma_aggregate_consistency(ledger: Ledger, schedule_id: u64)
    requires
        ledger.wf(),
        ledger.schedules.contains_key(schedule_id),
    ensures
        ledger.schedules[schedule_id].ad_cnt == ledger.live_booked(schedule_id, Guest::Adult)
            + ledger.cancelled_booked(schedule_id, Guest::Adult),
        ledger.schedules[schedule_id].cd_cnt == ledger.live_booked(schedule_id, Guest::Child)
            + ledger.cancelled_booked(schedule_id, Guest::Child),
        ledger.cancelled_booked(schedule_id, Guest::Adult) >= 0,
        ledger.cancelled_booked(schedule_id, Guest::Child) >= 0,
        ledger.schedules[schedule_id].total() == ledger.live_booked(schedule_id, Guest::Adult)
            + ledger.live_booked(schedule_id, Guest::Child) <==> forall|i: int|
            0 <= i < ledger.records.len() && (#[trigger] ledger.records[i]).content_schedule_id
                == schedule_id && !ledger.records[i].is_live() ==> ledger.records[i].party() == 0,
{
    let records = ledger.records;
    let whole = on_schedule(schedule_id);
    let live = live_on_schedule(schedule_id);
    let cancelled = cancelled_on_schedule(schedule_id);
    lemma_records_valid(ledger);
    lemma_tally_split(records, whole, live, cancelled, Guest::Adult);
    lemma_tally_split(records, whole, live, cancelled, Guest::Child);
    lemma_tally_bounds(records, cancelled, Guest::Adult);
    lemma_tally_bounds(records, cancelled, Guest::Child);
    lemma_cancelled_total_zero(records, schedule_id, Guest::Adult);
    lemma_cancelled_total_zero(records, schedule_id, Guest::Child);
    let quiet = forall|i: int|
        0 <= i < records.len() && (#[trigger] records[i]).content_schedule_id == schedule_id
            && !records[i].is_live() ==> records[i].party() == 0;
    if quiet {
        assert forall|i: int| 0 <= i < records.len() implies share(
            #[trigger] records[i],
            cancelled,
            Guest::Adult,
        ) == 0 && share(records[i], cancelled, Guest::Child) == 0 by {}
    }
    if ledger.cancelled_booked(schedule_id, Guest::Adult) == 0 && ledger.cancelled_booked(
        schedule_id,
        Guest::Child,
    ) == 0 {
        assert forall|i: int|
            0 <= i < records.len() && (#[trigger] records[i]).content_schedule_id == schedule_id
                && !records[i].is_live() implies records[i].party() == 0 by {}
    }
}

/// Aggregate consistency over a run. After any sequence of operations on a
/// ledger that keeps the invariant, the seats held against a schedule equal
/// the seats of its reservations that are not cancelled, provided that no
/// cancelled reservation of the schedule holds a seat.
pub proof fn lemma_run_aggregate_consistency(start: Ledger, commands: Seq<Command>, schedule_id: u64)
    requires
        start.wf(),
        start.run(commands).schedules.contains_key(schedule_id),
        forall|i: int|
            0 <= i < start.run(commands).records.len() && (#[trigger] start.run(
                commands,
            ).records[i]).content_schedule_id == schedule_id && !start.run(
                commands,
            ).records[i].is_live() ==> start.run(commands).records[i].party() == 0,
    ensures
        start.run(commands).schedules[schedule_id].total() == start.run(commands).live_booked(
            schedule_id,
            Guest::Adult,
        ) + start.run(commands).live_booked(schedule_id, Guest::Child),
{
    lemma_run_keeps_wf(start, commands);
    lemma_aggregate_consistency(start.run(commands), schedule_id);
}

/// Reading is idempotent. A fetch reads the ledger and changes nothing, so
/// two fetches of one id with no write between them, whose answers are each
/// what a fetch of `ledger` may answer, are the same answer: both the same
/// reservation, or both `NotFound`.
pub proof fn lemma_fetch_is_idempotent(
    ledger: Ledger,
    reservation_id: i32,
    first: Result<ReservationView, ReservationError>,
    second: Result<ReservationView, ReservationError>,
)
    requires
        first matches Ok(record) ==> ledger.fetch(reservation_id) == Some(record),
        first matches Err(error) ==> error == ReservationError::NotFound && ledger.fetch(
            reservation_id,
        ) is None,
        second matches Ok(record) ==> ledger.fetch(reservation_id) == Some(record),
        second matches Err(error) ==> error == ReservationError::NotFound && ledger.fetch(
            reservation_id,
        ) is None,
    ensures
        first == second,
{
}

/// In a ledger that keeps the invariant, what a user holds of a content is
/// not negative and fits the 64 bits in which it is reported.
pub proof fn lemma_held_bounds(ledger: Ledger, user: Seq<char>, schedule_id: u64, guest: Guest)
    requires
        ledger.wf(),
    ensures
        0 <= ledger.held(user, schedule_id, guest) <= i64::MAX,
{
    lemma_records_valid(ledger);
    lemma_tally_bounds(
        ledger.records,
        ledger.held_of_content(user, ledger.schedules[schedule_id].content_id),
        guest,
    );
}

/// A user who already holds more of the content than a maximum is rejected.
/// Where the user holds a reservation that is not cancelled for the content
/// of the schedule, the requested counts pass the input gate, and what the
/// user already holds of the content exceeds a maximum, the request is
/// rejected with `LimitExceeded`, whatever it asks for.
pub proof fn lemma_over_limit_is_rejected(
    ledger: Ledger,
    user: Seq<char>,
    schedule_id: u64,
    ad_cnt: i32,
    cd_cnt: i32,
    max_adult: i32,
    max_child: i32,
)
    requires
        ledger.wf(),
        ledger.has_content_booking(user, schedule_id),
        input_counts_valid(ad_cnt, cd_cnt, max_adult, max_child),
        ledger.held(user, schedule_id, Guest::Adult) > max_adult || ledger.held(
            user,
            schedule_id,
            Guest::Child,
        ) > max_child,
    ensures
        ledger.decide(user, schedule_id, ad_cnt, cd_cnt, max_adult, max_child) == Decision::Reject(
            ReservationError::LimitExceeded,
        ),
{
    lemma_held_bounds(ledger, user, schedule_id, Guest::Adult);
    lemma_held_bounds(ledger, user, schedule_id, Guest::Child);
}

/// Duplicate rejection. Where the user holds a reservation that is not
/// cancelled for the content of the schedule, a further request that would
/// push what the user holds of the content past a maximum is rejected with
/// `LimitExceeded`, provided that the requested counts pass the input gate
/// and that the user is past that maximum or the other one already: the
/// aggregate gate looks at what is held, not at what is asked for.
pub proof fn lemma_duplicate_rejection(
    ledger: Ledger,
    user: Seq<char>,
    schedule_id: u64,
    ad_cnt: i32,
    cd_cnt: i32,
    max_adult: i32,
    max_child: i32,
)
    requires
        ledger.wf(),
        ledger.has_content_booking(user, schedule_id),
        ledger.held(user, schedule_id, Guest::Adult) + ad_cnt > max_adult || ledger.held(
            user,
            schedule_id,
            Guest::Child,
        ) + cd_cnt > max_child,
        input_counts_valid(ad_cnt, cd_cnt, max_adult, max_child),
        ledger.held(user, schedule_id, Guest::Adult) > max_adult || ledger.held(
            user,
            schedule_id,
            Guest::Child,
        ) > max_child,
    ensures
        ledger.decide(user, schedule_id, ad_cnt, cd_cnt, max_adult, max_child) == Decision::Reject(
            ReservationError::LimitExceeded,
        ),
{
    lemma_over_limit_is_rejected(ledger, user, schedule_id, ad_cnt, cd_cnt, max_adult, max_child);
}

/// Where the requested counts pass the input gate and the user holds no
/// more of the content than either maximum, the request is admitted, also
/// where it would push what the user holds past a maximum.
pub proof fn lemma_within_held_limits_is_admitted(
    ledger: Ledger,
    user: Seq<char>,
    schedule_id: u64,
    ad_cnt: i32,
    cd_cnt: i32,
    max_adult: i32,
    max_child: i32,
)
    requires
        ledger.wf(),
        input_counts_valid(ad_cnt, cd_cnt, max_adult, max_child),
        ledger.held(user, schedule_id, Guest::Adult) <= max_adult,
        ledger.held(user, schedule_id, Guest::Child) <= max_child,
    ensures
        ledger.decide(user, schedule_id, ad_cnt, cd_cnt, max_adult, max_child) == Decision::Admit,
{
    lemma_held_bounds(ledger, user, schedule_id, Guest::Adult);
    lemma_held_bounds(ledger, user, schedule_id, Guest::Child);
}

/// Admission within the limits. Where the user already holds a reservation
/// that is not cancelled for the content of the schedule, and what the user
/// holds together with what is requested stays within both maxima, the
/// request is admitted.
pub proof fn lemma_within_limit_is_admitted(
    ledger: Ledger,
    user: Seq<char>,
    schedule_id: u64,
    ad_cnt: i32,
    cd_cnt: i32,
    max_adult: i32,
    max_child: i32,
)
    requires
        ledger.wf(),
        ledger.has_content_booking(user, schedule_id),
        ad_cnt >= 0,
        cd_cnt >= 0,
        ledger.held(user, schedule_id, Guest::Adult) + ad_cnt <= max_adult,
        ledger.held(user, schedule_id, Guest::Child) + cd_cnt <= max_child,
    ensures
        ledger.decide(user, schedule_id, ad_cnt, cd_cnt, max_adult, max_child) == Decision::Admit,
{
    lemma_held_bounds(ledger, user, schedule_id, Guest::Adult);
    lemma_held_bounds(ledger, user, schedule_id, Guest::Child);
}

/// A user who holds nothing of the content is admitted on valid counts,
/// whatever the maxima.
pub proof fn lemma_first_booking_is_admitted(
    ledger: Ledger,
    user: Seq<char>,
    schedule_id: u64,
    ad_cnt: i32,
    cd_cnt: i32,
    max_adult: i32,
    max_child: i32,
)
    requires
        !ledger.has_content_booking(user, schedule_id),
        input_counts_valid(ad_cnt, cd_cnt, max_adult, max_child),
    ensures
        ledger.decide(user, schedule_id, ad_cnt, cd_cnt, max_adult, max_child) == Decision::Admit,
{
}

/// Status terminality. No transition leaves `Cancelled`.
pub proof fn lemma_cancelled_is_terminal(target: ReservationStatus)
    ensures
        !can_transition(ReservationStatus::Cancelled, target),
{
}

/// Status terminality on the stores. Every transition attempted on a
/// cancelled reservation fails with `InvalidTransition` and changes nothing.
pub proof fn lemma_cancelled_stays_cancelled(
    ledger: Ledger,
    reservation_id: i32,
    target: ReservationStatus,
)
    requires
        ledger.knows(reservation_id),
        ledger.record(reservation_id).status == Some(ReservationStatus::Cancelled),
    ensures
        ledger.update_status_outcome(reservation_id, target) == Err::<(), ReservationError>(
            ReservationError::InvalidTransition,
        ),
        ledger.update_status(reservation_id, target) == ledger,
{
}

/// The lifecycle has exactly three transitions, and a status never
/// transitions to itself or back to `Pending`.
pub proof fn lemma_lifecycle(from: ReservationStatus, to: ReservationStatus)
    ensures
        can_transition(from, to) <==> (from == ReservationStatus::Pending && to
            == ReservationStatus::Confirmed) || (from == ReservationStatus::Pending && to
            == ReservationStatus::Cancelled) || (from == ReservationStatus::Confirmed && to
            == ReservationStatus::Cancelled),
        can_transition(from, to) ==> from != to && to != ReservationStatus::Pending,
{
}

/// A status transition moves no aggregate: the schedules after it are the
/// schedules before it, also where a reservation is cancelled.
pub proof fn lemma_status_moves_no_aggregate(
    ledger: Ledger,
    reservation_id: i32,
    status: ReservationStatus,
)
    ensures
        ledger.update_status(reservation_id, status).schedules == ledger.schedules,
        ledger.update_status(reservation_id, status).records.len() == ledger.records.len(),
{
}

/// Shrinking always succeeds. On a ledger that keeps the invariant, changing
/// a reservation to counts that are not negative and together no larger than
/// the party it holds succeeds, however full the schedule is, and lowers the
/// seats held against the schedule by exactly the difference.
pub proof fn lemma_shrinking_succeeds(ledger: Ledger, reservation_id: i32, ad_cnt: i32, cd_cnt: i32)
    requires
        ledger.wf(),
        ledger.knows(reservation_id),
        ad_cnt >= 0,
        cd_cnt >= 0,
        ad_cnt + cd_cnt <= ledger.record(reservation_id).party(),
    ensures
        ledger.reallocate_outcome(reservation_id, ad_cnt, cd_cnt) == Ok::<(), ReservationError>(()),
        ledger.reallocate(reservation_id, ad_cnt, cd_cnt).schedules[ledger.record(
            reservation_id,
        ).content_schedule_id].total() == ledger.schedules[ledger.record(
            reservation_id,
        ).content_schedule_id].total() - (ledger.record(reservation_id).party() - (ad_cnt
            + cd_cnt)),
        ledger.reallocate(reservation_id, ad_cnt, cd_cnt).record(reservation_id).ad_cnt == ad_cnt,
        ledger.reallocate(reservation_id, ad_cnt, cd_cnt).record(reservation_id).cd_cnt == cd_cnt,
{
    let record = ledger.record(reservation_id);
    assert(ledger.record_wf(reservation_id - 1));
    lemma_reallocate_keeps_wf(ledger, reservation_id, ad_cnt, cd_cnt);
    let after = ledger.reallocate(reservation_id, ad_cnt, cd_cnt);
    let schedule_id = record.content_schedule_id;
    assert(after.schedules.contains_key(schedule_id));
    lemma_tally_update(
        ledger.records,
        reservation_id - 1,
        after.records[reservation_id - 1],
        on_schedule(schedule_id),
        Guest::Adult,
    );
    lemma_tally_update(
        ledger.records,
        reservation_id - 1,
        after.records[reservation_id - 1],
        on_schedule(schedule_id),
        Guest::Child,
    );
}

/// Every use case is at most one operation. A booking request either changes
/// nothing or is the create path on what was asked for; an update of counts
/// either changes nothing or is the count-update path. What holds after
/// every sequence of operations therefore holds after every sequence of use
/// cases.
pub proof fn lemma_use_cases_are_steps(
    ledger: Ledger,
    user: Seq<char>,
    schedule_id: u64,
    reservation_id: i32,
    ad_cnt: i32,
    cd_cnt: i32,
    reserved_at: Option<Timestamp>,
    max_adult: i32,
    max_child: i32,
)
    ensures
        ledger.book(user, schedule_id, ad_cnt, cd_cnt, reserved_at, max_adult, max_child) == ledger
            || ledger.book(user, schedule_id, ad_cnt, cd_cnt, reserved_at, max_adult, max_child)
            == ledger.step(
            Command::Allocate { user_id: user, schedule_id, ad_cnt, cd_cnt, reserved_at },
        ),
        ledger.update_reservation(reservation_id, ad_cnt, cd_cnt, max_adult, max_child) == ledger
            || ledger.update_reservation(reservation_id, ad_cnt, cd_cnt, max_adult, max_child)
            == ledger.step(Command::Reallocate { reservation_id, ad_cnt, cd_cnt }),
{
}

/// All or nothing. An operation that fails leaves the ledger as it was.
pub proof fn lemma_failure_changes_nothing(ledger: Ledger, command: Command)
    ensures
        match command {
            Command::RegisterSchedule { schedule_id, capacity, .. } => ledger.register_outcome(
                schedule_id,
                capacity,
            ) is Err ==> ledger.step(command) == ledger,
            Command::Allocate { schedule_id, ad_cnt, cd_cnt, .. } => ledger.allocate_outcome(
                schedule_id,
                ad_cnt,
                cd_cnt,
            ) is Err ==> ledger.step(command) == ledger,
            Command::Reallocate { reservation_id, ad_cnt, cd_cnt } => ledger.reallocate_outcome(
                reservation_id,
                ad_cnt,
                cd_cnt,
            ) is Err ==> ledger.step(command) == ledger,
            Command::UpdateStatus { reservation_id, status } => ledger.update_status_outcome(
                reservation_id,
                status,
            ) is Err ==> ledger.step(command) == ledger,
            Command::SetUsed { reservation_id, .. } => !ledger.knows(reservation_id)
                ==> ledger.step(command) == ledger,
        },
{
}

} // verus!
