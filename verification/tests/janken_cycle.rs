//! The match-resolution engine, cycle by cycle.

use myon_core::gift::GiftType;
use myon_core::identity::{JankenEventId, UserId};
use myon_core::janken::{JankenEvent, JankenHand, JankenStatus};
use myon_core::janken_process::{process, run_cycle, ProcessOutcome, TIMEOUT_SECS};
use myon_core::unixtime::UnixTime;

fn entry(id: JankenEventId, user: UserId, hand: JankenHand, at: UnixTime, stake: u64) -> JankenEvent {
    JankenEvent {
        id,
        user_id: user,
        hand,
        created_at: at,
        status: JankenStatus::Ready,
        point: stake,
        opponent_user_id: None,
        opponent_user_screen_name: None,
    }
}

#[test]
fn test_process() {
    let now = UnixTime(1_600_000_000);

    let event_rock = JankenEventId::new();
    let event_paper = JankenEventId::new();
    let event_scissors = JankenEventId::new();

    let user_winner = UserId::new();
    let user_timed_out = UserId::new();

    let outcome: ProcessOutcome = process(
        vec![
            // times out: created at t=1, far beyond the threshold
            entry(
                JankenEventId::new(),
                user_timed_out.clone(),
                JankenHand::Scissors,
                UnixTime(1),
                5,
            ),
            entry(event_rock.clone(), UserId::new(), JankenHand::Rock, now, 5),
            entry(event_paper.clone(), user_winner.clone(), JankenHand::Paper, now, 5),
            entry(event_scissors.clone(), UserId::new(), JankenHand::Scissors, now, 5),
            entry(JankenEventId::new(), UserId::new(), JankenHand::Scissors, now, 5),
            entry(JankenEventId::new(), UserId::new(), JankenHand::Scissors, now, 5),
        ],
        now,
    );

    // ties settle nothing, so one decisive pair plus the timed-out entry: 3 records
    let events = outcome.events;
    assert_eq!(events.len(), 3);

    // the paper entry wins
    assert_eq!(events[1].id, event_paper);
    assert_eq!(events[1].status, JankenStatus::Won);

    // the rock entry loses
    assert_eq!(events[2].id, event_rock);
    assert_eq!(events[2].status, JankenStatus::Lost);

    let gifts = outcome.gifts;
    assert_eq!(gifts.len(), 2);
    assert_eq!(gifts[0].0.gift_type, GiftType::Point(10));
    assert_eq!(gifts[1].0.gift_type, GiftType::Point(10));

    // recipients: the timed-out entry's owner, then the winner
    assert_eq!(gifts[0].1, user_timed_out);
    assert_eq!(gifts[1].1, user_winner);
    assert_eq!(gifts[1].0.status, myon_core::gift::GiftStatus::Ready);
}

#[test]
fn forfeited_entry_is_terminal_and_rewarded_double() {
    let now = UnixTime(100_000);
    let owner = UserId::new();
    let id = JankenEventId::new();
    let outcome = process(
        vec![entry(id.clone(), owner.clone(), JankenHand::Rock, UnixTime(100_000 - TIMEOUT_SECS), 7)],
        now,
    );
    assert_eq!(outcome.events.len(), 1);
    assert_eq!(outcome.events[0].id, id);
    assert_eq!(outcome.events[0].status, JankenStatus::Won);
    assert_eq!(outcome.events[0].opponent_user_id, None);
    assert_eq!(outcome.gifts.len(), 1);
    assert_eq!(outcome.gifts[0].0.gift_type, GiftType::Point(14));
    assert_eq!(outcome.gifts[0].1, owner);
}

#[test]
fn entry_just_inside_the_timeout_is_paired_not_forfeited() {
    let now = UnixTime(100_000);
    let outcome = process(
        vec![entry(
            JankenEventId::new(),
            UserId::new(),
            JankenHand::Rock,
            UnixTime(100_000 - TIMEOUT_SECS + 1),
            5,
        )],
        now,
    );
    // within time and unpaired: left pending, nothing written
    assert_eq!(outcome.events.len(), 0);
    assert_eq!(outcome.gifts.len(), 0);
}

#[test]
fn even_batch_without_ties_settles_every_entry() {
    let now = UnixTime(50_000);
    let outcome = process(
        vec![
            entry(JankenEventId::new(), UserId::new(), JankenHand::Rock, now, 3),
            entry(JankenEventId::new(), UserId::new(), JankenHand::Scissors, now, 4),
            entry(JankenEventId::new(), UserId::new(), JankenHand::Paper, now, 5),
            entry(JankenEventId::new(), UserId::new(), JankenHand::Scissors, now, 6),
        ],
        now,
    );
    assert_eq!(outcome.events.len(), 4);
    let winners = outcome.events.iter().filter(|e| e.status == JankenStatus::Won).count();
    let losers = outcome.events.iter().filter(|e| e.status == JankenStatus::Lost).count();
    assert_eq!(winners, 2);
    assert_eq!(losers, 2);
    // each reward is the sum of its pair's stakes
    assert_eq!(outcome.gifts.len(), 2);
    assert_eq!(outcome.gifts[0].0.gift_type, GiftType::Point(7));
    assert_eq!(outcome.gifts[1].0.gift_type, GiftType::Point(11));
}

#[test]
fn winner_and_loser_reference_each_other() {
    let now = UnixTime(50_000);
    let alice = UserId::new();
    let bob = UserId::new();
    let a_entry = JankenEventId::new();
    let b_entry = JankenEventId::new();
    let outcome = process(
        vec![
            entry(a_entry.clone(), alice.clone(), JankenHand::Scissors, now, 5),
            entry(b_entry.clone(), bob.clone(), JankenHand::Paper, now, 5),
        ],
        now,
    );
    assert_eq!(outcome.events.len(), 2);
    assert_eq!(outcome.events[0].id, a_entry);
    assert_eq!(outcome.events[0].opponent_user_id, Some(bob.clone()));
    assert_eq!(outcome.events[1].id, b_entry);
    assert_eq!(outcome.events[1].opponent_user_id, Some(alice.clone()));
    // the winner's reward is linked to both entries
    assert_eq!(outcome.gifts.len(), 1);
    assert_eq!(outcome.gifts[0].0.janken_win_event, Some(a_entry));
    assert_eq!(outcome.gifts[0].0.janken_lose_event, Some(b_entry));
    assert_eq!(outcome.gifts[0].1, alice);
}

#[test]
fn tied_pair_stays_pending_and_can_be_repaired_later() {
    let now = UnixTime(50_000);
    let a = entry(JankenEventId::new(), UserId::new(), JankenHand::Rock, now, 5);
    let b = entry(JankenEventId::new(), UserId::new(), JankenHand::Rock, now, 5);

    // first cycle: the tied pair settles nothing and stays Ready
    let outcome = process(vec![a.clone(), b.clone()], now);
    assert_eq!(outcome.events.len(), 0);
    assert_eq!(outcome.gifts.len(), 0);
    assert_eq!(a.status, JankenStatus::Ready);

    // a later cycle pairs one of them against a new opponent and settles it
    let c = entry(JankenEventId::new(), UserId::new(), JankenHand::Paper, now, 5);
    let outcome2 = process(vec![a.clone(), c], now);
    assert_eq!(outcome2.events.len(), 2);
    assert_eq!(outcome2.events[1].id, a.id);
    assert_eq!(outcome2.events[1].status, JankenStatus::Lost);
}

#[test]
fn odd_leftover_entry_is_left_pending() {
    let now = UnixTime(50_000);
    let outcome = process(
        vec![
            entry(JankenEventId::new(), UserId::new(), JankenHand::Rock, now, 5),
            entry(JankenEventId::new(), UserId::new(), JankenHand::Scissors, now, 5),
            entry(JankenEventId::new(), UserId::new(), JankenHand::Paper, now, 5),
        ],
        now,
    );
    // one decisive pair; the third entry waits for the next cycle
    assert_eq!(outcome.events.len(), 2);
    assert_eq!(outcome.gifts.len(), 1);
}

#[test]
fn run_cycle_resolves_a_decisive_pair_in_either_order() {
    let now = UnixTime(50_000);
    let rock_user = UserId::new();
    let outcome = run_cycle(
        vec![
            entry(JankenEventId::new(), rock_user.clone(), JankenHand::Rock, now, 5),
            entry(JankenEventId::new(), UserId::new(), JankenHand::Scissors, now, 5),
        ],
        now,
    );
    // whatever order the shuffle produced, rock beats scissors
    assert_eq!(outcome.events.len(), 2);
    assert_eq!(outcome.events[0].status, JankenStatus::Won);
    assert_eq!(outcome.events[0].user_id, rock_user);
    assert_eq!(outcome.events[1].status, JankenStatus::Lost);
    assert_eq!(outcome.gifts.len(), 1);
    assert_eq!(outcome.gifts[0].0.gift_type, GiftType::Point(10));
    assert_eq!(outcome.gifts[0].1, rock_user);
}
