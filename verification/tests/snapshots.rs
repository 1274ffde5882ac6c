//! Point snapshots, diffs, and the scheduler's debounce.

use myon_core::identity::UserId;
use myon_core::point_event::{next_snapshot, should_run_cycle, PointEvent};
use myon_core::ranking::PointDiffRankingRecord;
use myon_core::unixtime::UnixTime;
use myon_core::user::User;

#[test]
fn first_cycle_records_no_previous_balance() {
    let uid = UserId::new();
    let s1 = next_snapshot(None, uid.duplicate(), 40, UnixTime(1000));
    assert_eq!(s1.user_id, uid);
    assert_eq!(s1.current, 40);
    assert_eq!(s1.previous, None);
    assert_eq!(s1.updated_at, UnixTime(1000));
    assert_eq!(s1.diff(), 0);
}

#[test]
fn second_cycle_diff_is_current_minus_previous() {
    let uid = UserId::new();
    let s1 = next_snapshot(None, uid.duplicate(), 40, UnixTime(1000));
    let s2 = next_snapshot(Some(s1), uid.duplicate(), 55, UnixTime(90_000));
    assert_eq!(s2.previous, Some(40));
    assert_eq!(s2.current, 55);
    assert_eq!(s2.diff(), 15);

    let s3 = next_snapshot(Some(s2), uid, 30, UnixTime(180_000));
    assert_eq!(s3.previous, Some(55));
    assert_eq!(s3.diff(), -25);
}

#[test]
fn point_event_update_shifts_the_balances() {
    let mut ev = PointEvent::new(UserId::new(), 12, UnixTime(10));
    ev.update(20, UnixTime(20));
    assert_eq!(ev.previous, Some(12));
    assert_eq!(ev.current, 20);
    assert_eq!(ev.updated_at, UnixTime(20));
}

#[test]
fn debounce_runs_only_after_twenty_three_hours() {
    let base = PointEvent::new(UserId::new(), 1, UnixTime(100_000));
    // a user with no snapshot at all: run
    assert!(should_run_cycle(None, UnixTime(0)));
    // too fresh: skip
    assert!(!should_run_cycle(Some(&base), UnixTime(100_000 + 82_799)));
    // exactly 23 hours: run
    assert!(should_run_cycle(Some(&base), UnixTime(100_000 + 82_800)));
    // clock went backwards: skip
    assert!(!should_run_cycle(Some(&base), UnixTime(99_000)));
}

#[test]
fn ranking_record_carries_the_user_info() {
    let mut user = User::new("s".to_string(), Some("alice".to_string()), "Alice".to_string(), None);
    user.add_point(55);
    let record = PointDiffRankingRecord::new(user, 55, 15);
    assert_eq!(record.current, 55);
    assert_eq!(record.diff, 15);
    assert_eq!(record.user.point, 55);
    assert_eq!(record.user.screen_name, Some("alice".to_string()));
}
