//! Users: the single source of truth for point balances.
//!
//! The balance and the daily-draw timestamp are the one piece of state that
//! needs strict mutual exclusion; the draw protocol uses the timestamp both
//! as a calendar-day marker and as an optimistic-lock token for the store's
//! conditional write.

use crate::identity::UserId;
use crate::unixtime::{same_day, UnixTime};
use vstd::prelude::*;

verus! {

/// A URL, kept as an opaque string.
#[derive(Clone, Debug, PartialEq, Eq)]
pub struct Url(pub String);

impl Url {
    /// A copy of this URL, with the same characters.
    pub fn duplicate(&self) -> (r: Url)
        ensures
            r == *self,
    {
        Url(self.0.clone())
    }
}

/// An account: identity, display attributes, the point balance, and the
/// timestamp of the last successful daily draw.
#[derive(Clone, Debug, PartialEq, Eq)]
pub struct User {
    pub id: UserId,
    pub screen_name: Option<String>,
    pub display_name: String,
    pub point: u64,
    pub created_at: UnixTime,
    pub subject: String,
    pub picture_url: Option<Url>,
    pub last_tried_daily_gacha: UnixTime,
}

impl User {
    /// A fresh account with no points and no draw on record.  The id is
    /// random and the creation time is the clock's, so neither is pinned.
    pub fn new(
        subject: String,
        screen_name: Option<String>,
        display_name: String,
        picture_url: Option<Url>,
    ) -> (r: User)
        ensures
            r.subject == subject,
            r.screen_name == screen_name,
            r.display_name == display_name,
            r.picture_url == picture_url,
            r.point == 0,
            r.last_tried_daily_gacha == (UnixTime(0)),
    {
        User {
            id: UserId::new(),
            screen_name,
            display_name,
            point: 0,
            created_at: UnixTime::now(),
            subject,
            picture_url,
            last_tried_daily_gacha: UnixTime(0),
        }
    }

    /// A copy of this user, field for field.
    pub fn duplicate(&self) -> (r: User)
        ensures
            r == *self,
    {
        User {
            id: self.id.duplicate(),
            screen_name: match &self.screen_name {
                None => None,
                Some(s) => Some(s.clone()),
            },
            display_name: self.display_name.clone(),
            point: self.point,
            created_at: self.created_at,
            subject: self.subject.clone(),
            picture_url: match &self.picture_url {
                None => None,
                Some(u) => Some(u.duplicate()),
            },
            last_tried_daily_gacha: self.last_tried_daily_gacha,
        }
    }

    /// Grant points.  The balance never overflows: callers stay within the
    /// counter's range.
    pub fn add_point(&mut self, p: u64)
        requires
            old(self).point + p <= u64::MAX,
        ensures
            *final(self) == (User { point: (old(self).point + p) as u64, ..*old(self) }),
    {
        self.point = self.point + p;
    }

    /// Spend points.  The balance is never observed negative: callers spend
    /// at most what is there.
    pub fn subtract_point(&mut self, p: u64)
        requires
            p <= old(self).point,
        ensures
            *final(self) == (User { point: (old(self).point - p) as u64, ..*old(self) }),
    {
        self.point = self.point - p;
    }

    /// Replace the display attributes.
    pub fn update(&mut self, screen_name: String, display_name: String, picture_url: Url)
        ensures
            *final(self) == (User {
                screen_name: Some(screen_name),
                display_name: display_name,
                picture_url: Some(picture_url),
                ..*old(self)
            }),
    {
        self.screen_name = Some(screen_name);
        self.display_name = display_name;
        self.picture_url = Some(picture_url);
    }

    /// Move the daily-draw marker to `now` and hand back the prior value,
    /// which the store's conditional write is conditioned on.
    pub fn update_daily_gacha_timestamp(&mut self, now: UnixTime) -> (prev: UnixTime)
        ensures
            prev == old(self).last_tried_daily_gacha,
            *final(self) == (User { last_tried_daily_gacha: now, ..*old(self) }),
    {
        let prev = self.last_tried_daily_gacha;
        self.last_tried_daily_gacha = now;
        prev
    }

    /// The daily draw is available when the last draw fell on a different
    /// calendar day, in the fixed target timezone, than `target`.
    pub open spec fn daily_gacha_available_at(self, target: UnixTime) -> bool {
        !same_day(self.last_tried_daily_gacha.0 as int, target.0 as int)
    }

    pub fn is_daily_gacha_available_at(&self, target_time: UnixTime) -> (r: bool)
        ensures
            r == self.daily_gacha_available_at(target_time),
    {
        !self.last_tried_daily_gacha.same_calendar_day_jst(&target_time)
    }
}

} // verus!
