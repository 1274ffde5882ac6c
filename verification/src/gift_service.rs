//! Redeeming a gift: the exactly-once payout decision.
//!
//! The driver loads the gift (with the caller's own per-recipient status) and
//! the caller's account, lets `redeem_gift` decide, and then persists the new
//! balance and the flipped status.  If the status write fails after the
//! balance write landed, the driver reverses the balance write and surfaces
//! the error through `saga::compensation_error`.

use crate::error::{ErrorKind, ServiceError};
use crate::gift::{Gift, GiftStatus, GiftType};
use crate::user::User;
use vstd::prelude::*;

verus! {

/// The point amount a gift pays out.
pub open spec fn payload_amount(g: Gift) -> int {
    match g.gift_type {
        GiftType::Point(p) => p as int,
    }
}

/// Whether a redemption of `g` is accepted: only a gift still `Ready` for
/// this recipient may be opened.
pub open spec fn redeem_accepted(g: Gift) -> bool {
    g.status == GiftStatus::Ready
}

/// `g` after its one redemption.
pub open spec fn redeemed_gift(g: Gift) -> Gift {
    Gift { status: GiftStatus::Opened, ..g }
}

/// `u` after receiving `g`'s payout.
pub open spec fn redeemed_user(u: User, g: Gift) -> User {
    User { point: (u.point + payload_amount(g)) as u64, ..u }
}

/// Redeem `gift` for `user`: flip the recipient's status `Ready` to `Opened`
/// and apply the payload to the balance, in one logical step.  A gift not
/// `Ready` — already opened, or unknown — is rejected with `BadRequest` and
/// nothing changes.
pub fn redeem_gift(user: &mut User, gift: &mut Gift) -> (r: Result<(), ServiceError>)
    requires
        old(user).point + payload_amount(*old(gift)) <= u64::MAX,
    ensures
        redeem_accepted(*old(gift)) ==> r is Ok && *final(gift) == redeemed_gift(*old(gift))
            && *final(user) == redeemed_user(*old(user), *old(gift)),
        !redeem_accepted(*old(gift)) ==> (r matches Err(e) && e.kind == ErrorKind::BadRequest)
            && *final(gift) == *old(gift) && *final(user) == *old(user),
{
    match gift.open() {
        Err(e) => Err(e),
        Ok(()) => {
            match gift.gift_type {
                GiftType::Point(p) => {
                    user.add_point(p);
                },
            }
            Ok(())
        },
    }
}

/// Exactly-once law: redeeming the same gift-recipient pair twice pays out
/// once.  The first redemption is accepted and raises the balance by exactly
/// the payload; the gift it leaves behind is no longer `Ready`, so the second
/// redemption is rejected and changes neither the gift nor the balance.
pub proof fn lemma_redeem_exactly_once(u0: User, g0: Gift)
    requires
        redeem_accepted(g0),
        u0.point + payload_amount(g0) <= u64::MAX,
    ensures
        redeemed_user(u0, g0).point == u0.point + payload_amount(g0),
        !redeem_accepted(redeemed_gift(g0)),
        redeemed_user(u0, g0).last_tried_daily_gacha == u0.last_tried_daily_gacha,
{
}

} // verus!
