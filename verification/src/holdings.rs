//! The duplicate and limit queries on what one user holds: the user's
//! reservations, each joined with the schedule that it is for. Whoever keeps
//! the stores elsewhere reads these rows by user and asks the queries here.

use vstd::prelude::*;
use crate::admission::ReservationLimits;
use crate::domain::{counts_as_held, ReservationStatus, ReservationView};
use crate::error::ReservationError;
use crate::ledger::{lemma_records_valid, lemma_tally_bounds, tally, Guest, Ledger};
use crate::occupancy::ScheduleOccupancy;

verus! {

/// One reservation of a user, with what the queries read of its schedule.
#[derive(Clone, Copy, Debug, PartialEq, Eq, Structural)]
pub struct Holding {
    /// The schedule that is booked.
    pub schedule_id: u64,
    /// The content that the schedule is an occurrence of.
    pub content_id: u64,
    /// When the schedule starts, in seconds since 1970-01-01T00:00:00Z.
    pub start_time: i64,
    /// The status of the reservation.
    pub status: Option<ReservationStatus>,
    /// Adult seats held.
    pub ad_cnt: i32,
    /// Child seats held.
    pub cd_cnt: i32,
}

impl Holding {
    /// The reservation is not cancelled.
    pub open spec fn is_live(self) -> bool {
        self.status != Some(ReservationStatus::Cancelled)
    }

    /// The reservation is live and for a schedule of `content_id`.
    pub open spec fn of_content(self, content_id: u64) -> bool {
        self.is_live() && self.content_id == content_id
    }

    /// The reservation is live and for another schedule than `schedule_id`
    /// that starts at `start_time`.
    pub open spec fn overlaps(self, schedule_id: u64, start_time: i64) -> bool {
        self.is_live() && self.schedule_id != schedule_id && self.start_time == start_time
    }

    /// The seats of one category that the reservation holds.
    pub open spec fn seats(self, guest: Guest) -> int {
        match guest {
            Guest::Adult => self.ad_cnt as int,
            Guest::Child => self.cd_cnt as int,
        }
    }

    /// What the reservation adds to the total held of `content_id`.
    pub open spec fn share(self, content_id: u64, guest: Guest) -> int {
        if self.of_content(content_id) {
            self.seats(guest)
        } else {
            0
        }
    }
}

/// The seats of one category held, live, of `content_id`.
pub open spec fn held_total(holdings: Seq<Holding>, content_id: u64, guest: Guest) -> int
    decreases holdings.len(),
{
    if holdings.len() == 0 {
        0
    } else {
        held_total(holdings.drop_last(), content_id, guest) + holdings.last().share(
            content_id,
            guest,
        )
    }
}

/// Some reservation is live and for a schedule of `content_id`.
pub open spec fn any_of_content(holdings: Seq<Holding>, content_id: u64) -> bool {
    exists|i: int| 0 <= i < holdings.len() && (#[trigger] holdings[i]).of_content(content_id)
}

/// Some reservation is live and for another schedule than `schedule_id`
/// that starts at `start_time`.
pub open spec fn any_overlap(holdings: Seq<Holding>, schedule_id: u64, start_time: i64) -> bool {
    exists|i: int|
        0 <= i < holdings.len() && (#[trigger] holdings[i]).overlaps(schedule_id, start_time)
}

/// The duplicate-content query: the user holds a live reservation for a
/// schedule of the content that the target schedule belongs to. False where
/// no target schedule was found.
pub open spec fn content_booking(holdings: Seq<Holding>, target: Option<ScheduleOccupancy>) -> bool {
    match target {
        Some(schedule) => any_of_content(holdings, schedule.content_id),
        None => false,
    }
}

/// The overlapping-time query: the user holds a live reservation for a
/// different schedule that starts when the target schedule starts. False
/// where no target schedule was found.
pub open spec fn overlapping_time_booking(
    holdings: Seq<Holding>,
    target: Option<ScheduleOccupancy>,
) -> bool {
    match target {
        Some(schedule) => any_overlap(holdings, schedule.schedule_id, schedule.start_time),
        None => false,
    }
}

/// The aggregate query: what the user holds, live, of the content that the
/// target schedule belongs to; no totals where the user holds nothing of it;
/// a `PersistenceError` where a total does not fit 64 bits.
pub open spec fn user_counts(holdings: Seq<Holding>, target: Option<ScheduleOccupancy>) -> Result<
    ReservationLimits,
    ReservationError,
> {
    if !content_booking(holdings, target) {
        Ok(ReservationLimits { total_adults: None, total_children: None })
    } else {
        let adults = held_total(holdings, target->Some_0.content_id, Guest::Adult);
        let children = held_total(holdings, target->Some_0.content_id, Guest::Child);
        if i64::MIN <= adults <= i64::MAX && i64::MIN <= children <= i64::MAX {
            Ok(
                ReservationLimits {
                    total_adults: Some(adults as i64),
                    total_children: Some(children as i64),
                },
            )
        } else {
            Err(ReservationError::PersistenceError)
        }
    }
}

/// The duplicate-content query on the reservations of one user.
pub fn has_content_booking(holdings: &Vec<Holding>, target: Option<ScheduleOccupancy>) -> (held:
    bool)
    ensures
        held == content_booking(holdings@, target),
{
    let content_id = match target {
        Some(schedule) => schedule.content_id,
        None => {
            return false;
        },
    };
    let mut i: usize = 0;
    while i < holdings.len()
        invariant
            i <= holdings.len(),
            target matches Some(schedule) && schedule.content_id == content_id,
            forall|j: int| 0 <= j < i ==> !(#[trigger] holdings@[j]).of_content(content_id),
        decreases holdings.len() - i,
    {
        let holding = &holdings[i];
        if counts_as_held(holding.status) && holding.content_id == content_id {
            return true;
        }
        i = i + 1;
    }
    false
}

/// The overlapping-time query on the reservations of one user.
pub fn has_overlapping_time_booking(
    holdings: &Vec<Holding>,
    target: Option<ScheduleOccupancy>,
) -> (overlap: bool)
    ensures
        overlap == overlapping_time_booking(holdings@, target),
{
    let (schedule_id, start_time) = match target {
        Some(schedule) => (schedule.schedule_id, schedule.start_time),
        None => {
            return false;
        },
    };
    let mut i: usize = 0;
    while i < holdings.len()
        invariant
            i <= holdings.len(),
            target matches Some(schedule) && schedule.schedule_id == schedule_id
                && schedule.start_time == start_time,
            forall|j: int|
                0 <= j < i ==> !(#[trigger] holdings@[j]).overlaps(schedule_id, start_time),
        decreases holdings.len() - i,
    {
        let holding = &holdings[i];
        if counts_as_held(holding.status) && holding.schedule_id != schedule_id && holding.start_time
            == start_time {
            return true;
        }
        i = i + 1;
    }
    false
}

/// The aggregate query on the reservations of one user.
pub fn aggregate_user_counts(holdings: &Vec<Holding>, target: Option<ScheduleOccupancy>) -> (answer:
    Result<ReservationLimits, ReservationError>)
    ensures
        answer == user_counts(holdings@, target),
{
    let content_id = match target {
        Some(schedule) => schedule.content_id,
        None => {
            return Ok(ReservationLimits { total_adults: None, total_children: None });
        },
    };
    let mut adults: i128 = 0;
    let mut children: i128 = 0;
    let mut any = false;
    let mut i: usize = 0;
    while i < holdings.len()
        invariant
            i <= holdings.len(),
            target matches Some(schedule) && schedule.content_id == content_id,
            adults == held_total(holdings@.take(i as int), content_id, Guest::Adult),
            children == held_total(holdings@.take(i as int), content_id, Guest::Child),
            -(i * 0x8000_0000) <= adults <= i * 0x8000_0000,
            -(i * 0x8000_0000) <= children <= i * 0x8000_0000,
            any <==> exists|j: int|
                0 <= j < i && (#[trigger] holdings@[j]).of_content(content_id),
        decreases holdings.len() - i,
    {
        let holding = &holdings[i];
        assert(holdings@.take(i as int + 1).drop_last() =~= holdings@.take(i as int));
        if counts_as_held(holding.status) && holding.content_id == content_id {
            adults = adults + holding.ad_cnt as i128;
            children = children + holding.cd_cnt as i128;
            any = true;
        }
        i = i + 1;
    }
    assert(holdings@.take(i as int) =~= holdings@);
    if !any {
        return Ok(ReservationLimits { total_adults: None, total_children: None });
    }
    if adults < i64::MIN as i128 || adults > i64::MAX as i128 || children < i64::MIN as i128
        || children > i64::MAX as i128 {
        return Err(ReservationError::PersistenceError);
    }
    Ok(ReservationLimits { total_adults: Some(adults as i64), total_children: Some(children as i64) })
}

// ------------------------------------------------- the same on the ledger

/// A record of the ledger, joined with its schedule.
pub open spec fn holding_of(ledger: Ledger, record: ReservationView) -> Holding {
    Holding {
        schedule_id: record.content_schedule_id,
        content_id: ledger.schedules[record.content_schedule_id].content_id,
        start_time: ledger.schedules[record.content_schedule_id].start_time,
        status: record.status,
        ad_cnt: record.ad_cnt,
        cd_cnt: record.cd_cnt,
    }
}

/// Those of `records` that are reservations of `user`, each joined with its
/// schedule, in their order.
pub open spec fn holdings_among(
    ledger: Ledger,
    records: Seq<ReservationView>,
    user: Seq<char>,
) -> Seq<Holding>
    decreases records.len(),
{
    if records.len() == 0 {
        Seq::empty()
    } else if records.last().user_id == user {
        holdings_among(ledger, records.drop_last(), user).push(holding_of(ledger, records.last()))
    } else {
        holdings_among(ledger, records.drop_last(), user)
    }
}

/// What `user` holds in the ledger: the user's reservations, each joined
/// with its schedule, in the order of admission.
pub open spec fn holdings_of(ledger: Ledger, user: Seq<char>) -> Seq<Holding> {
    holdings_among(ledger, ledger.records, user)
}

/// What was found for a schedule id in the ledger.
pub open spec fn found_schedule(ledger: Ledger, schedule_id: u64) -> Option<ScheduleOccupancy> {
    if ledger.schedules.contains_key(schedule_id) {
        Some(ledger.schedules[schedule_id])
    } else {
        None
    }
}

/// On records whose schedules are all known, the queries on what a user
/// holds see what the queries on the records see.
proof fn lemma_holdings_among_agree(
    ledger: Ledger,
    records: Seq<ReservationView>,
    user: Seq<char>,
    content_id: u64,
    schedule_id: u64,
    start_time: i64,
)
    requires
        forall|i: int|
            0 <= i < records.len() ==> ledger.schedules.contains_key(
                (#[trigger] records[i]).content_schedule_id,
            ),
    ensures
        held_total(holdings_among(ledger, records, user), content_id, Guest::Adult) == tally(
            records,
            ledger.held_of_content(user, content_id),
            Guest::Adult,
        ),
        held_total(holdings_among(ledger, records, user), content_id, Guest::Child) == tally(
            records,
            ledger.held_of_content(user, content_id),
            Guest::Child,
        ),
        any_of_content(holdings_among(ledger, records, user), content_id) <==> exists|i: int|
            0 <= i < records.len() && ledger.holds_content(#[trigger] records[i], user, content_id),
        any_overlap(holdings_among(ledger, records, user), schedule_id, start_time) <==> exists|
            i: int,
        |
            0 <= i < records.len() && ledger.overlaps(
                #[trigger] records[i],
                user,
                schedule_id,
                start_time,
            ),
    decreases records.len(),
{
    if records.len() > 0 {
        let rest = records.drop_last();
        let held = holdings_among(ledger, records, user);
        let held_rest = holdings_among(ledger, rest, user);
        lemma_holdings_among_agree(ledger, rest, user, content_id, schedule_id, start_time);
        if records.last().user_id == user {
            assert(held.drop_last() =~= held_rest);
        }
        // A record that answers a query stands among the earlier records,
        // and then so does a holding, or it is the last one.
        if exists|i: int|
            0 <= i < records.len() && ledger.holds_content(#[trigger] records[i], user, content_id) {
            let i = choose|i: int|
                0 <= i < records.len() && ledger.holds_content(
                    #[trigger] records[i],
                    user,
                    content_id,
                );
            if i < rest.len() {
                assert(ledger.holds_content(rest[i], user, content_id));
            }
        }
        if exists|i: int|
            0 <= i < records.len() && ledger.overlaps(
                #[trigger] records[i],
                user,
                schedule_id,
                start_time,
            ) {
            let i = choose|i: int|
                0 <= i < records.len() && ledger.overlaps(
                    #[trigger] records[i],
                    user,
                    schedule_id,
                    start_time,
                );
            if i < rest.len() {
                assert(ledger.overlaps(rest[i], user, schedule_id, start_time));
            }
        }
    }
}

/// The queries on what a user holds answer as the queries on the stores do.
/// On a ledger that keeps the invariant, each of the three queries, asked of
/// the user's reservations joined with their schedules and of what was found
/// for the target schedule, gives the answer that the ledger gives.
pub proof fn lemma_holdings_agree(ledger: Ledger, user: Seq<char>, schedule_id: u64)
    requires
        ledger.wf(),
    ensures
        content_booking(holdings_of(ledger, user), found_schedule(ledger, schedule_id))
            == ledger.has_content_booking(user, schedule_id),
        overlapping_time_booking(holdings_of(ledger, user), found_schedule(ledger, schedule_id))
            == ledger.has_overlapping_time_booking(user, schedule_id),
        user_counts(holdings_of(ledger, user), found_schedule(ledger, schedule_id)) == Ok::<
            ReservationLimits,
            ReservationError,
        >(ledger.aggregate_user_counts(user, schedule_id)),
{
    assert forall|i: int| 0 <= i < ledger.records.len() implies ledger.schedules.contains_key(
        (#[trigger] ledger.records[i]).content_schedule_id,
    ) by {
        assert(ledger.record_wf(i));
    }
    if ledger.schedules.contains_key(schedule_id) {
        let target = ledger.schedules[schedule_id];
        lemma_holdings_among_agree(
            ledger,
            ledger.records,
            user,
            target.content_id,
            schedule_id,
            target.start_time,
        );
        lemma_records_valid(ledger);
        lemma_tally_bounds(
            ledger.records,
            ledger.held_of_content(user, target.content_id),
            Guest::Adult,
        );
        lemma_tally_bounds(
            ledger.records,
            ledger.held_of_content(user, target.content_id),
            Guest::Child,
        );
    }
}

} // verus!
