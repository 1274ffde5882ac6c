//! Administrative bulk distribution: one gift fanned out to every user.

use crate::authorization::{Authorization, Role};
use crate::error::ServiceError;
use crate::gift::{Gift, GiftStatus, GiftType};
use crate::identity::{GiftId, UserId};
use vstd::prelude::*;

verus! {

/// The payload of a bulk distribution: how many points, and why.
pub struct DistributeInput {
    pub point: u64,
    pub description: String,
}

/// Decide a bulk distribution request: only an authenticated admin may
/// distribute.  An admitted request yields the shared gift row to create
/// once; the per-recipient rows come from `distribution_rows`.
pub fn distribute_point(auth: Authorization, input: DistributeInput) -> (r: Result<
    Gift,
    ServiceError,
>)
    ensures
        auth.result matches Err(e) ==> (r matches Err(e2) && e2 == e),
        auth.result matches Ok(u) && !u.roles@.contains(Role::Admin) ==> (r matches Err(e2)
            && e2.kind == crate::error::ErrorKind::Unauthorized),
        auth.result matches Ok(u) && u.roles@.contains(Role::Admin) ==> (r matches Ok(g)
            && g.gift_type == GiftType::Point(input.point) && g.description == input.description
            && g.status == GiftStatus::Ready),
{
    let auth_user = match auth.require_auth() {
        Ok(u) => u,
        Err(e) => {
            return Err(e);
        },
    };
    match auth_user.require_admin() {
        Ok(()) => {},
        Err(e) => {
            return Err(e);
        },
    }
    Ok(Gift::new(GiftType::Point(input.point), input.description))
}

/// The per-recipient status rows of a distribution: one row per user, each
/// carrying the shared gift's id and its initial status.
pub fn distribution_rows(gift: &Gift, users: &Vec<UserId>) -> (rows: Vec<(
    GiftId,
    UserId,
    GiftStatus,
)>)
    ensures
        rows@.len() == users@.len(),
        forall|i: int|
            0 <= i < rows@.len() ==> #[trigger] rows@[i] == (gift.id, users@[i], gift.status),
{
    let mut rows: Vec<(GiftId, UserId, GiftStatus)> = Vec::new();
    let mut i: usize = 0;
    while i < users.len()
        invariant
            i <= users@.len(),
            rows@.len() == i,
            forall|j: int|
                0 <= j < i ==> #[trigger] rows@[j] == (gift.id, users@[j], gift.status),
        decreases users@.len() - i,
    {
        rows.push((gift.id.duplicate(), users[i].duplicate(), gift.status));
        i += 1;
    }
    rows
}

} // verus!
