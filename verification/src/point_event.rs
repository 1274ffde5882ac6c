//! Periodic point snapshots, and the balance diff used for ranking.
//!
//! Each cycle overwrites one snapshot row per user: the previous balance
//! moves into `previous`, the fresh balance into `current`.  The diff
//! `current - previous` ranks users by recent gain; it is never authoritative
//! for the balance itself.

use crate::identity::UserId;
use crate::unixtime::UnixTime;
use vstd::prelude::*;

verus! {

/// One user's balance snapshot: the balance now, the balance of the previous
/// cycle (absent on the first), and when it was taken.
#[derive(Clone, Debug, PartialEq, Eq)]
pub struct PointEvent {
    pub user_id: UserId,
    pub current: u64,
    pub previous: Option<u64>,
    pub updated_at: UnixTime,
}

impl PointEvent {
    /// A user's very first snapshot: no previous balance.
    pub fn new(user_id: UserId, current: u64, now: UnixTime) -> (r: PointEvent)
        ensures
            r.user_id == user_id,
            r.current == current,
            r.previous is None,
            r.updated_at == now,
    {
        PointEvent { user_id, current, previous: None, updated_at: now }
    }

    /// Record a new balance: the balance recorded so far becomes the
    /// previous one.
    pub fn update(&mut self, current: u64, now: UnixTime)
        ensures
            *final(self) == (PointEvent {
                current,
                previous: Some(old(self).current),
                updated_at: now,
                ..*old(self)
            }),
    {
        self.previous = Some(self.current);
        self.current = current;
        self.updated_at = now;
    }

    /// The ranking diff: balance gained since the previous snapshot, zero
    /// when there is none to compare against.
    pub open spec fn spec_diff(self) -> int {
        match self.previous {
            None => 0,
            Some(p) => self.current - p,
        }
    }

    pub fn diff(&self) -> (d: i64)
        requires
            self.current <= i64::MAX,
            self.previous matches Some(p) ==> p <= i64::MAX,
        ensures
            d == self.spec_diff(),
    {
        match self.previous {
            None => 0,
            Some(p) => ((self.current as i128) - (p as i128)) as i64,
        }
    }
}

/// What one snapshot cycle writes for one user at `now`, given the stored
/// snapshot (absent is not an error: it is the user's first cycle) and the
/// account's current balance.
pub open spec fn next_snapshot_spec(
    prev: Option<PointEvent>,
    user_id: UserId,
    balance: u64,
    now: UnixTime,
) -> PointEvent {
    match prev {
        None => PointEvent { user_id, current: balance, previous: None, updated_at: now },
        Some(e) => PointEvent { current: balance, previous: Some(e.current), updated_at: now, ..e },
    }
}

/// Decide one user's snapshot write for this cycle.
pub fn next_snapshot(prev: Option<PointEvent>, user_id: UserId, balance: u64, now: UnixTime) -> (r:
    PointEvent)
    ensures
        r == next_snapshot_spec(prev, user_id, balance, now),
{
    match prev {
        None => PointEvent::new(user_id, balance, now),
        Some(mut e) => {
            e.update(balance, now);
            e
        },
    }
}

/// The cluster-wide debounce for the snapshot scheduler: run a cycle only if
/// the reference user's last snapshot is at least 23 hours old, or absent
/// (the very first run).  Best-effort — this is a freshness gate, not a lock.
pub fn should_run_cycle(latest: Option<&PointEvent>, now: UnixTime) -> (r: bool)
    ensures
        r == match latest {
            None => true,
            Some(e) => now.0 - e.updated_at.0 >= 23 * 3600,
        },
{
    match latest {
        None => true,
        Some(e) => (now.0 as i128) - (e.updated_at.0 as i128) >= 82800,
    }
}

/// Snapshot diff law: after two consecutive cycles recording balances `b1`
/// then `b2`, the recorded diff is exactly `b2 - b1`.  After the very first
/// cycle the previous balance is absent and the diff counts as zero.
pub proof fn lemma_snapshot_diff(user_id: UserId, b1: u64, b2: u64, t1: UnixTime, t2: UnixTime)
    ensures
        ({
            let s1 = next_snapshot_spec(None, user_id, b1, t1);
            let s2 = next_snapshot_spec(Some(s1), user_id, b2, t2);
            &&& s1.previous is None
            &&& s1.spec_diff() == 0
            &&& s2.previous == Some(b1)
            &&& s2.spec_diff() == b2 - b1
        }),
{
}

} // verus!
