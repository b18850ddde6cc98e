//! The reservation record, its lifecycle status and the instants it is stamped with.

use vstd::prelude::*;
use vstd::string::*;
use crate::error::ReservationError;

verus! {

/// An instant, held as the plain numbers of a UNIX timestamp: whole seconds
/// since 1970-01-01T00:00:00Z and the nanoseconds past that second.
#[derive(Clone, Copy, Debug, PartialEq, Eq, Structural)]
pub struct Timestamp {
    pub secs: i64,
    pub nanos: u32,
}

impl Timestamp {
    /// The instant at the start of a whole second.
    pub open spec fn second(secs: i64) -> Timestamp {
        Timestamp { secs, nanos: 0 }
    }

    /// `self` is not later than `other`.
    pub open spec fn at_or_before(self, other: Timestamp) -> bool {
        self.secs < other.secs || (self.secs == other.secs && self.nanos <= other.nanos)
    }

    /// Whether `self` is not later than `other`.
    pub fn is_at_or_before(&self, other: &Timestamp) -> (earlier: bool)
        ensures
            earlier == self.at_or_before(*other),
    {
        self.secs < other.secs || (self.secs == other.secs && self.nanos <= other.nanos)
    }

    /// `self` lies in the closed range from `start` to `end`.
    pub open spec fn within(self, start: Timestamp, end: Timestamp) -> bool {
        start.at_or_before(self) && self.at_or_before(end)
    }

    /// Whether `self` lies in the closed range from `start` to `end`.
    pub fn is_within(&self, start: &Timestamp, end: &Timestamp) -> (inside: bool)
        ensures
            inside == self.within(*start, *end),
    {
        start.is_at_or_before(self) && self.is_at_or_before(end)
    }
}

/// Lifecycle status of a reservation. A reservation starts as `Pending`; it
/// is confirmed when it is redeemed and cancelled when it is given up.
#[derive(Clone, Copy, Debug, PartialEq, Eq, Structural)]
pub enum ReservationStatus {
    Pending,
    Confirmed,
    Cancelled,
}

/// The lifecycle: `Pending` may become `Confirmed` or `Cancelled`, `Confirmed`
/// may become `Cancelled`, and nothing else is a transition.
pub open spec fn can_transition(from: ReservationStatus, to: ReservationStatus) -> bool {
    match (from, to) {
        (ReservationStatus::Pending, ReservationStatus::Confirmed) => true,
        (ReservationStatus::Pending, ReservationStatus::Cancelled) => true,
        (ReservationStatus::Confirmed, ReservationStatus::Cancelled) => true,
        _ => false,
    }
}

/// The upper-case name a status is shown under.
pub open spec fn status_label(status: ReservationStatus) -> Seq<char> {
    match status {
        ReservationStatus::Pending => "PENDING"@,
        ReservationStatus::Confirmed => "CONFIRMED"@,
        ReservationStatus::Cancelled => "CANCELLED"@,
    }
}

/// The capitalised name a status is stored under.
pub open spec fn status_name(status: ReservationStatus) -> Seq<char> {
    match status {
        ReservationStatus::Pending => "Pending"@,
        ReservationStatus::Confirmed => "Confirmed"@,
        ReservationStatus::Cancelled => "Cancelled"@,
    }
}

/// The status an upper-case name stands for, if it is one of the three names.
pub open spec fn status_of_label(label: Seq<char>) -> Option<ReservationStatus> {
    if label == "PENDING"@ {
        Some(ReservationStatus::Pending)
    } else if label == "CONFIRMED"@ {
        Some(ReservationStatus::Confirmed)
    } else if label == "CANCELLED"@ {
        Some(ReservationStatus::Cancelled)
    } else {
        None
    }
}

/// The status a capitalised name stands for; any other text reads as `Pending`.
pub open spec fn status_of_name(name: Seq<char>) -> ReservationStatus {
    if name == "Confirmed"@ {
        ReservationStatus::Confirmed
    } else if name == "Cancelled"@ {
        ReservationStatus::Cancelled
    } else {
        ReservationStatus::Pending
    }
}

impl ReservationStatus {
    /// A reservation in this status still holds its seats in the eyes of the
    /// duplicate and limit queries.
    pub open spec fn is_live(self) -> bool {
        self != ReservationStatus::Cancelled
    }

    /// Whether a reservation in this status counts as held by its user.
    pub fn holds_seats(self) -> (live: bool)
        ensures
            live == self.is_live(),
    {
        match self {
            ReservationStatus::Cancelled => false,
            _ => true,
        }
    }

    /// Whether the lifecycle has a transition from `self` to `target`.
    pub fn allows(self, target: ReservationStatus) -> (allowed: bool)
        ensures
            allowed == can_transition(self, target),
    {
        match (self, target) {
            (ReservationStatus::Pending, ReservationStatus::Confirmed) => true,
            (ReservationStatus::Pending, ReservationStatus::Cancelled) => true,
            (ReservationStatus::Confirmed, ReservationStatus::Cancelled) => true,
            _ => false,
        }
    }

    /// Takes the transition to `target`, or fails with `InvalidTransition`
    /// where the lifecycle has none.
    pub fn transition(self, target: ReservationStatus) -> (next: Result<
        ReservationStatus,
        ReservationError,
    >)
        ensures
            can_transition(self, target) ==> next == Ok::<ReservationStatus, ReservationError>(
                target,
            ),
            !can_transition(self, target) ==> next == Err::<ReservationStatus, ReservationError>(
                ReservationError::InvalidTransition,
            ),
    {
        if self.allows(target) {
            Ok(target)
        } else {
            Err(ReservationError::InvalidTransition)
        }
    }

    /// The upper-case name of the status.
    pub fn to_string(&self) -> (label: String)
        ensures
            label@ == status_label(*self),
    {
        match self {
            ReservationStatus::Pending => String::from_str("PENDING"),
            ReservationStatus::Confirmed => String::from_str("CONFIRMED"),
            ReservationStatus::Cancelled => String::from_str("CANCELLED"),
        }
    }

    /// The capitalised name of the status.
    pub fn name(&self) -> (name: String)
        ensures
            name@ == status_name(*self),
    {
        match self {
            ReservationStatus::Pending => String::from_str("Pending"),
            ReservationStatus::Confirmed => String::from_str("Confirmed"),
            ReservationStatus::Cancelled => String::from_str("Cancelled"),
        }
    }

    /// Reads an upper-case name; any other text is an error.
    pub fn from_str(status: &str) -> (parsed: Result<ReservationStatus, ()>)
        ensures
            parsed matches Ok(s) ==> status_of_label(status@) == Some(s),
            parsed is Err ==> status_of_label(status@) is None,
    {
        let text = status.to_owned();
        if text == String::from_str("PENDING") {
            Ok(ReservationStatus::Pending)
        } else if text == String::from_str("CONFIRMED") {
            Ok(ReservationStatus::Confirmed)
        } else if text == String::from_str("CANCELLED") {
            Ok(ReservationStatus::Cancelled)
        } else {
            Err(())
        }
    }
}

/// A status is read back from either of its names: the upper-case names and
/// the capitalised names each tell the three statuses apart.
pub proof fn lemma_status_names_round_trip(status: ReservationStatus)
    ensures
        status_of_label(status_label(status)) == Some(status),
        status_of_name(status_name(status)) == status,
{
    reveal_strlit("PENDING");
    reveal_strlit("CONFIRMED");
    reveal_strlit("CANCELLED");
    reveal_strlit("Pending");
    reveal_strlit("Confirmed");
    reveal_strlit("Cancelled");
    assert("CONFIRMED"@[1] == 'O' && "CANCELLED"@[1] == 'A');
    assert("Confirmed"@[1] == 'o' && "Cancelled"@[1] == 'a');
}

impl From<String> for ReservationStatus {
    fn from(s: String) -> (status: Self) {
        if s == String::from_str("Confirmed") {
            ReservationStatus::Confirmed
        } else if s == String::from_str("Cancelled") {
            ReservationStatus::Cancelled
        } else {
            ReservationStatus::Pending
        }
    }
}

impl vstd::std_specs::convert::FromSpecImpl<String> for ReservationStatus {
    open spec fn obeys_from_spec() -> bool {
        true
    }

    open spec fn from_spec(s: String) -> Self {
        status_of_name(s@)
    }
}

impl std::str::FromStr for ReservationStatus {
    type Err = ();

    fn from_str(status: &str) -> (parsed: Result<Self, ()>)
        ensures
            parsed matches Ok(s) ==> status_of_label(status@) == Some(s),
            parsed is Err ==> status_of_label(status@) is None,
    {
        ReservationStatus::from_str(status)
    }
}

/// One booking: the seats a user holds on one schedule.
#[derive(Debug)]
pub struct Reservation {
    /// Assigned by the store when the reservation is admitted; 0 before that.
    pub id: i32,
    /// The requester, as named by the identity gateway.
    pub user_id: String,
    /// The schedule that is booked.
    pub content_schedule_id: u64,
    /// When the booking was made, if known.
    pub reserved_at: Option<Timestamp>,
    /// `None` only on a request that no store has admitted yet.
    pub status: Option<ReservationStatus>,
    /// Adult seats held.
    pub ad_cnt: i32,
    /// Child seats held.
    pub cd_cnt: i32,
    /// Set when the holder has redeemed the reservation; independent of `status`.
    pub use_at: bool,
}

/// The mathematical value of a [`Reservation`]: the same fields, with the
/// user's name as a sequence of characters.
pub struct ReservationView {
    pub id: i32,
    pub user_id: Seq<char>,
    pub content_schedule_id: u64,
    pub reserved_at: Option<Timestamp>,
    pub status: Option<ReservationStatus>,
    pub ad_cnt: i32,
    pub cd_cnt: i32,
    pub use_at: bool,
}

impl ReservationView {
    /// The reservation is not cancelled, so it counts towards what its user holds.
    pub open spec fn is_live(self) -> bool {
        self.status != Some(ReservationStatus::Cancelled)
    }

    /// Both counts are non-negative.
    pub open spec fn counts_valid(self) -> bool {
        self.ad_cnt >= 0 && self.cd_cnt >= 0
    }

    /// The seats the reservation holds, adults and children together.
    pub open spec fn party(self) -> int {
        self.ad_cnt + self.cd_cnt
    }

    /// The status of the reservation; one that has none yet counts as `Pending`.
    pub open spec fn current_status(self) -> ReservationStatus {
        match self.status {
            Some(status) => status,
            None => ReservationStatus::Pending,
        }
    }
}

impl View for Reservation {
    type V = ReservationView;

    open spec fn view(&self) -> ReservationView {
        ReservationView {
            id: self.id,
            user_id: self.user_id@,
            content_schedule_id: self.content_schedule_id,
            reserved_at: self.reserved_at,
            status: self.status,
            ad_cnt: self.ad_cnt,
            cd_cnt: self.cd_cnt,
            use_at: self.use_at,
        }
    }
}

/// The values of a sequence of reservations, one for one.
pub open spec fn record_views(records: Seq<Reservation>) -> Seq<ReservationView> {
    Seq::new(records.len(), |i: int| records[i]@)
}

/// Whether a reservation with this status counts as held: every status but
/// `Cancelled` does, and so does a reservation that has no status yet.
pub fn counts_as_held(status: Option<ReservationStatus>) -> (live: bool)
    ensures
        live == (status != Some(ReservationStatus::Cancelled)),
{
    match status {
        Some(status) => status.holds_seats(),
        None => true,
    }
}

/// What a status transition answers, given the status that was found for
/// the reservation, if the reservation was found: `NotFound` where none was,
/// `InvalidTransition` where the lifecycle has no such transition, and else
/// the new status. A reservation that has no status yet counts as `Pending`.
pub open spec fn transition_outcome(
    found: Option<Option<ReservationStatus>>,
    target: ReservationStatus,
) -> Result<ReservationStatus, ReservationError> {
    match found {
        None => Err(ReservationError::NotFound),
        Some(status) => {
            let current = match status {
                Some(current) => current,
                None => ReservationStatus::Pending,
            };
            if can_transition(current, target) {
                Ok(target)
            } else {
                Err(ReservationError::InvalidTransition)
            }
        },
    }
}

/// A status transition on what was read for it: the status of the
/// reservation, if the reservation exists. Answers with the status to write.
pub fn transition_on(found: Option<Option<ReservationStatus>>, target: ReservationStatus) -> (outcome:
    Result<ReservationStatus, ReservationError>)
    ensures
        outcome == transition_outcome(found, target),
{
    match found {
        None => Err(ReservationError::NotFound),
        Some(status) => {
            let current = match status {
                Some(current) => current,
                None => ReservationStatus::Pending,
            };
            current.transition(target)
        },
    }
}

impl Clone for Reservation {
    fn clone(&self) -> (copy: Self)
        ensures
            copy@ == self@,
    {
        Reservation {
            id: self.id,
            user_id: self.user_id.clone(),
            content_schedule_id: self.content_schedule_id,
            reserved_at: self.reserved_at,
            status: self.status,
            ad_cnt: self.ad_cnt,
            cd_cnt: self.cd_cnt,
            use_at: self.use_at,
        }
    }
}

impl Reservation {
    /// A request that no store has admitted yet: no id, no status, no
    /// timestamp, not redeemed.
    pub fn requested(user_id: String, content_schedule_id: u64, ad_cnt: i32, cd_cnt: i32) -> (request:
        Reservation)
        ensures
            request@ == (ReservationView {
                id: 0,
                user_id: user_id@,
                content_schedule_id,
                reserved_at: None,
                status: None,
                ad_cnt,
                cd_cnt,
                use_at: false,
            }),
    {
        Reservation {
            id: 0,
            user_id,
            content_schedule_id,
            reserved_at: None,
            status: None,
            ad_cnt,
            cd_cnt,
            use_at: false,
        }
    }

    /// Whether new counts are at least the counts held now, in both categories.
    pub fn is_valid_capacity(&self, new_ad_cnt: i32, new_cd_cnt: i32) -> (grown: bool)
        ensures
            grown == (new_ad_cnt >= self.ad_cnt && new_cd_cnt >= self.cd_cnt),
    {
        new_ad_cnt >= self.ad_cnt && new_cd_cnt >= self.cd_cnt
    }
}

} // verus!
