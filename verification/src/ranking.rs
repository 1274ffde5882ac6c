//! Ranking records: a user's public info with the balance figures shown.

use crate::identity::UserId;
use crate::user::{Url, User};
use vstd::prelude::*;

verus! {

/// The public face of a user in a ranking.
pub struct UserInfo {
    pub user_id: UserId,
    pub screen_name: Option<String>,
    pub display_name: String,
    pub point: u64,
    pub picture_url: Option<Url>,
}

impl UserInfo {
    pub fn new(user: User) -> (r: UserInfo)
        ensures
            r.user_id == user.id,
            r.screen_name == user.screen_name,
            r.display_name == user.display_name,
            r.point == user.point,
            r.picture_url == user.picture_url,
    {
        UserInfo {
            user_id: user.id,
            screen_name: user.screen_name,
            display_name: user.display_name,
            point: user.point,
            picture_url: user.picture_url,
        }
    }
}

/// One row of the point-diff ranking: who, the current balance, and the gain
/// since the previous snapshot.
pub struct PointDiffRankingRecord {
    pub user: UserInfo,
    pub current: u64,
    pub diff: i64,
}

impl PointDiffRankingRecord {
    pub fn new(user: User, current: u64, diff: i64) -> (r: PointDiffRankingRecord)
        ensures
            r.user.user_id == user.id,
            r.user.point == user.point,
            r.current == current,
            r.diff == diff,
    {
        PointDiffRankingRecord { user: UserInfo::new(user), current, diff }
    }
}

} // verus!
