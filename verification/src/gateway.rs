//! What the two gateways answer, as the booking core reads it. The calls
//! themselves are made by whoever runs the core.

use vstd::prelude::*;
use vstd::string::*;
use crate::clock::text_view;
use crate::error::ReservationError;

verus! {

/// The most seats of each category that a user may hold of one content, as
/// the profile gateway gives them.
#[derive(Clone, Copy, Debug, PartialEq, Eq, Structural)]
pub struct UserLimits {
    pub max_adult: i32,
    pub max_child: i32,
}

/// A call to a gateway that did not come back with an answer.
#[derive(Clone, Copy, Debug, PartialEq, Eq, Structural)]
pub struct GatewayFailure {}

/// What is left of `text` when the white space at its start and at its end
/// is taken away, as std's `str::trim` leaves it.
pub uninterp spec fn trimmed(text: Seq<char>) -> Seq<char>;

/// Calls `str::trim`.
///
/// Trusted: the result is what std leaves of the text, and the same text
/// always leaves the same. Nothing is claimed of what counts as white space.
#[verifier::external_body]
fn trim(text: &str) -> (rest: &str)
    ensures
        rest@ == trimmed(text@),
{
    text.trim()
}

/// The user that a name stands for, given what trimming leaves of the name:
/// nobody where nothing is left, and else the name as it came.
pub open spec fn named_user(user_id: Seq<char>, rest: Seq<char>) -> Option<Seq<char>> {
    if rest.len() == 0 {
        None
    } else {
        Some(user_id)
    }
}

/// The user that the identity gateway names with `user_id`, given what
/// trimming leaves of it.
pub fn user_named_by(user_id: &str, rest: &str) -> (user: Option<String>)
    ensures
        text_view(user) == named_user(user_id@, rest@),
{
    if rest.is_empty() {
        None
    } else {
        Some(user_id.to_owned())
    }
}

/// The user that the identity gateway names with `user_id`: nobody where
/// the name is blank, and else the name as it came, untrimmed.
pub fn user_of_reply_name(user_id: &str) -> (user: Option<String>)
    ensures
        text_view(user) == named_user(user_id@, trimmed(user_id@)),
{
    user_named_by(user_id, trim(user_id))
}

/// Reads the answer of the identity gateway to a token: the user that the
/// token stands for, `Unauthorized` where the gateway names no user, and
/// `UpstreamError` where the call failed.
pub fn user_of_identity_reply(reply: Result<Option<String>, GatewayFailure>) -> (user: Result<
    String,
    ReservationError,
>)
    ensures
        reply matches Ok(Some(name)) ==> user == Ok::<String, ReservationError>(name),
        reply matches Ok(None) ==> user == Err::<String, ReservationError>(
            ReservationError::Unauthorized,
        ),
        reply is Err ==> user == Err::<String, ReservationError>(ReservationError::UpstreamError),
{
    match reply {
        Ok(Some(name)) => Ok(name),
        Ok(None) => Err(ReservationError::Unauthorized),
        Err(_) => Err(ReservationError::UpstreamError),
    }
}

/// Reads the answer of the profile gateway for a user: the user's maxima,
/// or `UpstreamError` where the call failed.
pub fn limits_of_profile_reply(reply: Result<UserLimits, GatewayFailure>) -> (limits: Result<
    UserLimits,
    ReservationError,
>)
    ensures
        reply matches Ok(found) ==> limits == Ok::<UserLimits, ReservationError>(found),
        reply is Err ==> limits == Err::<UserLimits, ReservationError>(
            ReservationError::UpstreamError,
        ),
{
    match reply {
        Ok(found) => Ok(found),
        Err(_) => Err(ReservationError::UpstreamError),
    }
}

} // verus!
