//! Gifts: fan-out payout records that each recipient redeems exactly once.

use crate::error::{ErrorKind, ServiceError};
use crate::identity::{GiftId, JankenEventId};
use crate::text::str_eq;
use crate::unixtime::UnixTime;
use vstd::prelude::*;
use vstd::string::StringExecFns;

verus! {

/// The payload of a gift.  Currently only a point grant; a tagged variant so
/// that future payload kinds can be added.
#[derive(Clone, Copy, Debug, PartialEq, Eq, Structural)]
pub enum GiftType {
    Point(u64),
}

/// Redemption state of a gift for one recipient: `Ready` until redeemed,
/// `Opened` afterwards, exactly once.
#[derive(Clone, Copy, Debug, PartialEq, Eq, Structural)]
pub enum GiftStatus {
    Unknown,
    Ready,
    Opened,
}

impl GiftStatus {
    /// The wire label of this status.
    pub open spec fn label(self) -> Seq<char> {
        match self {
            GiftStatus::Unknown => "unknown"@,
            GiftStatus::Ready => "ready"@,
            GiftStatus::Opened => "opened"@,
        }
    }

    pub fn to_string(&self) -> (r: String)
        ensures
            r@ == self.label(),
    {
        match self {
            GiftStatus::Unknown => String::from_str("unknown"),
            GiftStatus::Ready => String::from_str("ready"),
            GiftStatus::Opened => String::from_str("opened"),
        }
    }

    /// Parse a wire label; anything unrecognised is `Unknown`.
    pub fn from_str(rep: &str) -> (r: GiftStatus)
        ensures
            rep@ == "ready"@ ==> r == GiftStatus::Ready,
            rep@ == "opened"@ ==> r == GiftStatus::Opened,
            rep@ != "ready"@ && rep@ != "opened"@ ==> r == GiftStatus::Unknown,
    {
        proof {
            reveal_strlit("ready");
            reveal_strlit("opened");
            assert("ready"@.len() == 5);
            assert("opened"@.len() == 6);
        }
        if str_eq(rep, "ready") {
            GiftStatus::Ready
        } else if str_eq(rep, "opened") {
            GiftStatus::Opened
        } else {
            GiftStatus::Unknown
        }
    }
}

/// A payout record.  The `status` here is the redemption state of the one
/// recipient this value was loaded for; the same gift row can fan out to many
/// recipients, each with an independent status.
#[derive(Clone, Debug, PartialEq, Eq)]
pub struct Gift {
    pub id: GiftId,
    pub gift_type: GiftType,
    pub description: String,
    pub created_at: UnixTime,
    pub status: GiftStatus,
    pub janken_win_event: Option<JankenEventId>,
    pub janken_lose_event: Option<JankenEventId>,
}

impl Gift {
    /// A fresh, ready gift.  The id is random and the creation time is the
    /// clock's, so neither is pinned here.
    pub fn new(gift_type: GiftType, description: String) -> (r: Gift)
        ensures
            r.gift_type == gift_type,
            r.description == description,
            r.status == GiftStatus::Ready,
            r.janken_win_event is None,
            r.janken_lose_event is None,
    {
        Gift {
            id: GiftId::new(),
            gift_type,
            description,
            created_at: UnixTime::now(),
            status: GiftStatus::Ready,
            janken_win_event: None,
            janken_lose_event: None,
        }
    }

    /// Redeem the gift: flips `Ready` to `Opened`, exactly once.  A gift in
    /// any other state is rejected and left unchanged.
    pub fn open(&mut self) -> (r: Result<(), ServiceError>)
        ensures
            old(self).status == GiftStatus::Ready ==> r is Ok && *final(self) == (Gift {
                status: GiftStatus::Opened,
                ..*old(self)
            }),
            old(self).status != GiftStatus::Ready ==> *final(self) == *old(self) && (r matches Err(
                e,
            ) && e.kind == ErrorKind::BadRequest),
    {
        if !(self.status == GiftStatus::Ready) {
            return Err(ServiceError::bad_request("the gift cannot be opened"));
        }
        self.status = GiftStatus::Opened;
        Ok(())
    }

    /// Link the match entries this gift rewards, so a half-persisted match
    /// resolution can be traced back from the gift.
    pub fn set_janken_events(&mut self, win_event: JankenEventId, lose_event: JankenEventId)
        ensures
            *final(self) == (Gift {
                janken_win_event: Some(win_event),
                janken_lose_event: Some(lose_event),
                ..*old(self)
            }),
    {
        self.janken_win_event = Some(win_event);
        self.janken_lose_event = Some(lose_event);
    }
}

} // verus!
