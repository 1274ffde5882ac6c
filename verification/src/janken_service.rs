//! Entering a match: the admission decision for a new match entry.

use crate::error::{ErrorKind, ServiceError};
use crate::janken::{JankenEvent, JankenHand, JankenStatus};
use crate::user::User;
use vstd::prelude::*;

verus! {

/// The fixed stake a user wagers on entering a match.
pub const ENTRY_STAKE: u64 = 5;

/// A request to enter a match with a chosen move.
pub struct JankenCreateInput {
    pub hand: JankenHand,
}

/// Decide a user's request to enter a match, given the user's pending entries
/// (loaded by the driver): a user below the stake cannot enter, and a user
/// with an unresolved entry cannot enter again until it resolves.  An
/// admitted request yields the pending entry to persist.
pub fn create(user: &User, pending: &Vec<JankenEvent>, input: JankenCreateInput) -> (r: Result<
    JankenEvent,
    ServiceError,
>)
    ensures
        user.point < ENTRY_STAKE ==> (r matches Err(e) && e.kind == ErrorKind::BadRequest),
        user.point >= ENTRY_STAKE && pending@.len() > 0 ==> (r matches Err(e) && e.kind
            == ErrorKind::BadRequest),
        user.point >= ENTRY_STAKE && pending@.len() == 0 ==> (r matches Ok(ev) && ev.user_id
            == user.id && ev.hand == input.hand && ev.point == ENTRY_STAKE && ev.status
            == JankenStatus::Ready && ev.opponent_user_id is None),
{
    if user.point < ENTRY_STAKE {
        return Err(ServiceError::bad_request("not enough points to enter a match"));
    }
    if pending.len() > 0 {
        return Err(ServiceError::bad_request("janken rate limit exceeded"));
    }
    Ok(JankenEvent::new(user.id.duplicate(), input.hand, ENTRY_STAKE))
}

} // verus!
