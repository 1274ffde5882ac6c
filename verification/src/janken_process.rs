//! The batch matchmaking and resolution engine for pending match entries.
//!
//! One cycle takes a batch of pending entries and decides everything that can
//! be decided without touching the stores: entries older than the timeout
//! threshold forfeit (a bye, rewarded twice their stake), the rest are paired
//! two at a time in scan order and resolved by the dominance rule.  Tied
//! pairs and an odd leftover entry are left pending for the next cycle.  The
//! caller persists the resolved entries and created gifts pair by pair; a
//! persistence failure aborts that pair only.

use crate::gift::{Gift, GiftStatus, GiftType};
use crate::identity::{JankenEventId, UserId};
use crate::janken::{beats, JankenEvent, JankenHand, JankenResult, JankenStatus};
use crate::unixtime::UnixTime;
use rand::seq::SliceRandom;
use vstd::prelude::*;
use vstd::seq_lib::group_to_multiset_ensures;
use vstd::string::StringExecFns;

verus! {

/// How long an entry may wait for an opponent before it forfeits: 8 hours.
pub const TIMEOUT_SECS: i64 = 28800;

/// Whether `e` has waited past the timeout threshold at time `now`,
/// by wall-clock elapsed seconds.
pub open spec fn is_timed_out(e: JankenEvent, now: UnixTime) -> bool {
    now.0 - e.created_at.0 >= TIMEOUT_SECS
}

/// `e` resolved as a bye: terminal, won by default.
pub open spec fn mark_timeout(e: JankenEvent) -> JankenEvent {
    JankenEvent { status: JankenStatus::Won, ..e }
}

/// What a reward created by the engine must look like: its point amount, its
/// recipient, and the match entries it is linked to.
pub struct GiftPlan {
    pub amount: int,
    pub recipient: UserId,
    pub win_event: Option<JankenEventId>,
    pub lose_event: Option<JankenEventId>,
}

/// Whether the created gift `g`, addressed to `recipient`, fulfils `plan`.
pub open spec fn gift_matches_plan(g: Gift, recipient: UserId, plan: GiftPlan) -> bool {
    &&& g.gift_type matches GiftType::Point(p) && p == plan.amount
    &&& recipient == plan.recipient
    &&& g.status == GiftStatus::Ready
    &&& g.janken_win_event == plan.win_event
    &&& g.janken_lose_event == plan.lose_event
}

/// The entries of `events` that have timed out at `now`, in scan order.
pub open spec fn timed_out_entries(events: Seq<JankenEvent>, now: UnixTime) -> Seq<JankenEvent>
    decreases events.len(),
{
    if events.len() == 0 {
        Seq::empty()
    } else {
        let rest = timed_out_entries(events.drop_last(), now);
        if is_timed_out(events.last(), now) {
            rest.push(events.last())
        } else {
            rest
        }
    }
}

/// The entries of `events` still within the timeout at `now`, in scan order:
/// the ones eligible for pairing.
pub open spec fn waiting_entries(events: Seq<JankenEvent>, now: UnixTime) -> Seq<JankenEvent>
    decreases events.len(),
{
    if events.len() == 0 {
        Seq::empty()
    } else {
        let rest = waiting_entries(events.drop_last(), now);
        if is_timed_out(events.last(), now) {
            rest
        } else {
            rest.push(events.last())
        }
    }
}

/// The terminal records written for the timed-out entries: each one a bye.
pub open spec fn forfeited_resolutions(events: Seq<JankenEvent>, now: UnixTime) -> Seq<
    JankenEvent,
>
    decreases events.len(),
{
    if events.len() == 0 {
        Seq::empty()
    } else {
        let rest = forfeited_resolutions(events.drop_last(), now);
        if is_timed_out(events.last(), now) {
            rest.push(mark_timeout(events.last()))
        } else {
            rest
        }
    }
}

/// The rewards owed for the timed-out entries: twice the stake, to the
/// entry's own owner, linked to no pair.
pub open spec fn forfeit_gift_plans(events: Seq<JankenEvent>, now: UnixTime) -> Seq<GiftPlan>
    decreases events.len(),
{
    if events.len() == 0 {
        Seq::empty()
    } else {
        let rest = forfeit_gift_plans(events.drop_last(), now);
        if is_timed_out(events.last(), now) {
            rest.push(
                GiftPlan {
                    amount: events.last().point * 2,
                    recipient: events.last().user_id,
                    win_event: None,
                    lose_event: None,
                },
            )
        } else {
            rest
        }
    }
}

/// The two terminal records of a decisive pair: winner first, each carrying
/// the opponent's user id.  Display names are filled in at persistence time,
/// where the user store is at hand.
pub open spec fn decided_pair(w: JankenEvent, l: JankenEvent) -> Seq<JankenEvent> {
    seq![
        JankenEvent {
            status: JankenStatus::Won,
            opponent_user_id: Some(l.user_id),
            opponent_user_screen_name: None,
            ..w
        },
        JankenEvent {
            status: JankenStatus::Lost,
            opponent_user_id: Some(w.user_id),
            opponent_user_screen_name: None,
            ..l
        },
    ]
}

/// The terminal records written when `entries` are paired two at a time in
/// order: a decisive pair contributes winner then loser, a tied pair
/// contributes nothing, an odd leftover contributes nothing.  An entry is
/// never resolved against itself: two copies of one entry hold one move,
/// which is a tie.
pub open spec fn pair_resolutions(entries: Seq<JankenEvent>) -> Seq<JankenEvent>
    decreases entries.len(),
{
    if entries.len() < 2 {
        Seq::empty()
    } else {
        let e1 = entries[0];
        let e2 = entries[1];
        let rest = pair_resolutions(entries.skip(2));
        if beats(e1.hand, e2.hand) {
            decided_pair(e1, e2) + rest
        } else if beats(e2.hand, e1.hand) {
            decided_pair(e2, e1) + rest
        } else {
            rest
        }
    }
}

/// The reward owed to the winner of a decisive pair: the sum of both stakes,
/// linked to the two entries.  The loser's stake was already forfeited at
/// entry time, so the loser is owed nothing.
pub open spec fn winner_gift_plan(w: JankenEvent, l: JankenEvent) -> GiftPlan {
    GiftPlan {
        amount: w.point + l.point,
        recipient: w.user_id,
        win_event: Some(w.id),
        lose_event: Some(l.id),
    }
}

/// The rewards owed for the decisive pairs of `entries`, in order.
pub open spec fn pair_gift_plans(entries: Seq<JankenEvent>) -> Seq<GiftPlan>
    decreases entries.len(),
{
    if entries.len() < 2 {
        Seq::empty()
    } else {
        let e1 = entries[0];
        let e2 = entries[1];
        let rest = pair_gift_plans(entries.skip(2));
        if beats(e1.hand, e2.hand) {
            seq![winner_gift_plan(e1, e2)] + rest
        } else if beats(e2.hand, e1.hand) {
            seq![winner_gift_plan(e2, e1)] + rest
        } else {
            rest
        }
    }
}

/// Everything one cycle decided: the terminal entry records to persist, and
/// the gifts to create, each with its recipient.  Entries and gifts appear in
/// decision order: forfeitures first, then decisive pairs.
pub struct ProcessOutcome {
    pub events: Vec<JankenEvent>,
    pub gifts: Vec<(Gift, UserId)>,
}

/// A stake small enough that doubling it, or adding another such stake,
/// cannot overflow.
pub open spec fn stake_in_range(e: JankenEvent) -> bool {
    e.point <= u64::MAX / 2
}

/// What one cycle decides for the batch `batch` at time `now`: the terminal
/// records are the forfeited entries followed by the pair resolutions of the
/// still-waiting entries, and each created gift fulfils the corresponding
/// reward plan.
pub open spec fn decides_batch(batch: Seq<JankenEvent>, now: UnixTime, outcome: ProcessOutcome) -> bool {
    &&& outcome.events@ == forfeited_resolutions(batch, now) + pair_resolutions(
        waiting_entries(batch, now),
    )
    &&& outcome.gifts@.len() == forfeit_gift_plans(batch, now).len() + pair_gift_plans(
        waiting_entries(batch, now),
    ).len()
    &&& forall|k: int|
        0 <= k < outcome.gifts@.len() ==> gift_matches_plan(
            (#[trigger] outcome.gifts@[k]).0,
            outcome.gifts@[k].1,
            (forfeit_gift_plans(batch, now) + pair_gift_plans(waiting_entries(batch, now)))[k],
        )
}

/// Decide one batch of pending entries at time `now`: timed-out entries
/// forfeit with a double-stake reward, the rest are paired in order and each
/// decisive pair yields a winner record, a loser record and a sum-of-stakes
/// reward to the winner.  Tied pairs and an odd leftover are left out, which
/// leaves them pending for a later cycle.
pub fn process(events: Vec<JankenEvent>, now: UnixTime) -> (outcome: ProcessOutcome)
    requires
        forall|i: int| 0 <= i < events@.len() ==> stake_in_range(#[trigger] events@[i]),
    ensures
        decides_batch(events@, now, outcome),
{
    let ghost orig = events@;
    let mut events = events;
    let mut waiting: Vec<JankenEvent> = Vec::new();
    let mut out_events: Vec<JankenEvent> = Vec::new();
    let mut out_gifts: Vec<(Gift, UserId)> = Vec::new();
    let ghost mut seen: Seq<JankenEvent> = Seq::empty();

    while events.len() > 0
        invariant
            orig == seen + events@,
            forall|i: int| 0 <= i < orig.len() ==> stake_in_range(#[trigger] orig[i]),
            waiting@ == waiting_entries(seen, now),
            forall|i: int| 0 <= i < waiting@.len() ==> stake_in_range(#[trigger] waiting@[i]),
            out_events@ == forfeited_resolutions(seen, now),
            out_gifts@.len() == forfeit_gift_plans(seen, now).len(),
            forall|k: int|
                0 <= k < out_gifts@.len() ==> gift_matches_plan(
                    (#[trigger] out_gifts@[k]).0,
                    out_gifts@[k].1,
                    forfeit_gift_plans(seen, now)[k],
                ),
        decreases events.len(),
    {
        let e = events.remove(0);
        proof {
            assert(e == orig[seen.len() as int]);
            assert(stake_in_range(e));
            let seen2 = seen.push(e);
            assert(seen2.drop_last() =~= seen);
            assert(seen2.last() == e);
            assert(orig =~= seen2 + events@);
            seen = seen2;
        }
        let timed_out = (now.0 as i128) - (e.created_at.0 as i128) >= TIMEOUT_SECS as i128;
        if timed_out {
            let recipient = e.user_id.duplicate();
            let amount = e.point * 2;
            let mut resolved = e;
            resolved.set_timeout();
            let gift = Gift::new(
                GiftType::Point(amount),
                String::from_str("reward for a default win in janken"),
            );
            out_events.push(resolved);
            out_gifts.push((gift, recipient));
        } else {
            waiting.push(e);
        }
    }
    proof {
        assert(seen =~= orig);
    }

    let ghost full_waiting = waiting@;
    let ghost mut done_events: Seq<JankenEvent> = Seq::empty();
    let ghost mut done_plans: Seq<GiftPlan> = Seq::empty();
    proof {
        assert(done_events + pair_resolutions(full_waiting) =~= pair_resolutions(full_waiting));
        assert(done_plans + pair_gift_plans(full_waiting) =~= pair_gift_plans(full_waiting));
        assert(out_events@ =~= forfeited_resolutions(orig, now) + done_events);
    }

    while waiting.len() >= 2
        invariant
            forall|i: int| 0 <= i < waiting@.len() ==> stake_in_range(#[trigger] waiting@[i]),
            done_events + pair_resolutions(waiting@) == pair_resolutions(full_waiting),
            done_plans + pair_gift_plans(waiting@) == pair_gift_plans(full_waiting),
            out_events@ == forfeited_resolutions(orig, now) + done_events,
            out_gifts@.len() == forfeit_gift_plans(orig, now).len() + done_plans.len(),
            forall|k: int|
                0 <= k < out_gifts@.len() ==> gift_matches_plan(
                    (#[trigger] out_gifts@[k]).0,
                    out_gifts@[k].1,
                    (forfeit_gift_plans(orig, now) + done_plans)[k],
                ),
        decreases waiting.len(),
    {
        let ghost pre = waiting@;
        let e1 = waiting.remove(0);
        let e2 = waiting.remove(0);
        proof {
            assert(pre.skip(2) =~= waiting@);
        }
        let result = e1.hand.fight(&e2.hand);
        match result {
            JankenResult::Tie => {
                proof {
                    assert(pair_resolutions(pre) == pair_resolutions(pre.skip(2)));
                    assert(pair_gift_plans(pre) == pair_gift_plans(pre.skip(2)));
                }
            },
            JankenResult::Win => {
                let winner_user = e1.user_id.duplicate();
                let loser_user = e2.user_id.duplicate();
                let winner_id = e1.id.duplicate();
                let loser_id = e2.id.duplicate();
                let amount = e1.point + e2.point;
                let mut winner = e1;
                let mut loser = e2;
                winner.status = JankenStatus::Won;
                loser.status = JankenStatus::Lost;
                winner.set_opponent(loser_user, None);
                loser.set_opponent(winner_user, None);
                let mut gift = Gift::new(
                    GiftType::Point(amount),
                    String::from_str("reward for winning janken"),
                );
                gift.set_janken_events(winner_id, loser_id);
                let recipient = winner.user_id.duplicate();
                out_events.push(winner);
                out_events.push(loser);
                out_gifts.push((gift, recipient));
                proof {
                    done_events = done_events + decided_pair(pre[0], pre[1]);
                    done_plans = done_plans.push(winner_gift_plan(pre[0], pre[1]));
                    assert(out_events@ =~= forfeited_resolutions(orig, now) + done_events);
                    assert(done_events + pair_resolutions(waiting@) =~= pair_resolutions(
                        full_waiting,
                    ));
                    assert(done_plans + pair_gift_plans(waiting@) =~= pair_gift_plans(
                        full_waiting,
                    ));
                }
            },
            JankenResult::Lose => {
                let winner_user = e2.user_id.duplicate();
                let loser_user = e1.user_id.duplicate();
                let winner_id = e2.id.duplicate();
                let loser_id = e1.id.duplicate();
                let amount = e1.point + e2.point;
                let mut winner = e2;
                let mut loser = e1;
                winner.status = JankenStatus::Won;
                loser.status = JankenStatus::Lost;
                winner.set_opponent(loser_user, None);
                loser.set_opponent(winner_user, None);
                let mut gift = Gift::new(
                    GiftType::Point(amount),
                    String::from_str("reward for winning janken"),
                );
                gift.set_janken_events(winner_id, loser_id);
                let recipient = winner.user_id.duplicate();
                out_events.push(winner);
                out_events.push(loser);
                out_gifts.push((gift, recipient));
                proof {
                    done_events = done_events + decided_pair(pre[1], pre[0]);
                    done_plans = done_plans.push(winner_gift_plan(pre[1], pre[0]));
                    assert(out_events@ =~= forfeited_resolutions(orig, now) + done_events);
                    assert(done_events + pair_resolutions(waiting@) =~= pair_resolutions(
                        full_waiting,
                    ));
                    assert(done_plans + pair_gift_plans(waiting@) =~= pair_gift_plans(
                        full_waiting,
                    ));
                }
            },
        }
    }
    proof {
        assert(pair_resolutions(waiting@) == Seq::<JankenEvent>::empty());
        assert(pair_gift_plans(waiting@) == Seq::<GiftPlan>::empty());
        assert(done_events =~= pair_resolutions(full_waiting));
        assert(done_plans =~= pair_gift_plans(full_waiting));
    }

    ProcessOutcome { events: out_events, gifts: out_gifts }
}

/// Relies on rand's `SliceRandom::shuffle` with `thread_rng`: a uniformly
/// random in-place permutation.  The entries are unchanged as a multiset;
/// their order is arbitrary.
#[verifier::external_body]
fn shuffle_entries(entries: &mut Vec<JankenEvent>)
    ensures
        final(entries)@.to_multiset() == old(entries)@.to_multiset(),
{
    entries.shuffle(&mut rand::thread_rng());
}

/// An element-wise bound holds of any reordering of a batch.
proof fn lemma_stake_bound_transfers(a: Seq<JankenEvent>, b: Seq<JankenEvent>)
    requires
        a.to_multiset() == b.to_multiset(),
        forall|i: int| 0 <= i < a.len() ==> stake_in_range(#[trigger] a[i]),
    ensures
        forall|i: int| 0 <= i < b.len() ==> stake_in_range(#[trigger] b[i]),
{
    broadcast use group_to_multiset_ensures;

    assert forall|i: int| 0 <= i < b.len() implies stake_in_range(#[trigger] b[i]) by {
        assert(b.contains(b[i]));
        assert(a.to_multiset().count(b[i]) > 0);
        assert(a.contains(b[i]));
        let j = choose|j: int| 0 <= j < a.len() && a[j] == b[i];
        assert(stake_in_range(a[j]));
    }
}

/// One engine cycle over a scanned batch: shuffle once, then decide.  The
/// shuffle prevents the same tied pair from meeting again indefinitely under
/// a deterministic scan order.  The outcome is `process`'s decision for some
/// reordering of the batch.
pub fn run_cycle(events: Vec<JankenEvent>, now: UnixTime) -> (outcome: ProcessOutcome)
    requires
        forall|i: int| 0 <= i < events@.len() ==> stake_in_range(#[trigger] events@[i]),
    ensures
        exists|batch: Seq<JankenEvent>|
            batch.to_multiset() == events@.to_multiset() && #[trigger] decides_batch(
                batch,
                now,
                outcome,
            ),
{
    let ghost scanned = events@;
    let mut events = events;
    shuffle_entries(&mut events);
    proof {
        lemma_stake_bound_transfers(scanned, events@);
    }
    let ghost batch = events@;
    let outcome = process(events, now);
    proof {
        assert(batch.to_multiset() == scanned.to_multiset() && decides_batch(batch, now, outcome));
    }
    outcome
}

/// Forfeiture law: the terminal records and rewards of the timed-out entries
/// line up one to one with those entries; each record is the entry resolved
/// as a bye, and each reward is exactly twice the entry's own stake,
/// addressed to the entry's own owner and linked to no pair.
pub proof fn lemma_forfeiture_rewards(events: Seq<JankenEvent>, now: UnixTime)
    ensures
        forfeited_resolutions(events, now).len() == timed_out_entries(events, now).len(),
        forfeit_gift_plans(events, now).len() == timed_out_entries(events, now).len(),
        forall|k: int|
            0 <= k < timed_out_entries(events, now).len() ==> is_timed_out(
                #[trigger] timed_out_entries(events, now)[k],
                now,
            ),
        forall|k: int|
            0 <= k < timed_out_entries(events, now).len() ==> forfeited_resolutions(events, now)[k]
                == mark_timeout(#[trigger] timed_out_entries(events, now)[k]),
        forall|k: int|
            0 <= k < timed_out_entries(events, now).len() ==> #[trigger] forfeit_gift_plans(
                events,
                now,
            )[k] == (GiftPlan {
                amount: timed_out_entries(events, now)[k].point * 2,
                recipient: timed_out_entries(events, now)[k].user_id,
                win_event: None,
                lose_event: None,
            }),
    decreases events.len(),
{
    if events.len() > 0 {
        lemma_forfeiture_rewards(events.drop_last(), now);
    }
}

/// A batch with no timed-out entry forfeits nothing: every entry is offered
/// for pairing, in scan order.
pub proof fn lemma_no_timeouts_all_waiting(events: Seq<JankenEvent>, now: UnixTime)
    requires
        forall|i: int| 0 <= i < events.len() ==> !is_timed_out(#[trigger] events[i], now),
    ensures
        waiting_entries(events, now) =~= events,
        forfeited_resolutions(events, now) =~= Seq::<JankenEvent>::empty(),
        forfeit_gift_plans(events, now) =~= Seq::<GiftPlan>::empty(),
    decreases events.len(),
{
    if events.len() > 0 {
        lemma_no_timeouts_all_waiting(events.drop_last(), now);
    }
}

/// Partition law: a timed-out entry is resolved by forfeiture and never
/// offered for pairing; an entry still in time is offered for pairing and
/// never forfeited.
pub proof fn lemma_timeout_partition(events: Seq<JankenEvent>, now: UnixTime)
    ensures
        forall|j: int|
            0 <= j < waiting_entries(events, now).len() ==> !is_timed_out(
                #[trigger] waiting_entries(events, now)[j],
                now,
            ),
        forall|i: int|
            0 <= i < events.len() && is_timed_out(#[trigger] events[i], now)
                ==> timed_out_entries(events, now).contains(events[i]),
        forall|i: int|
            0 <= i < events.len() && !is_timed_out(#[trigger] events[i], now) ==> waiting_entries(
                events,
                now,
            ).contains(events[i]),
    decreases events.len(),
{
    if events.len() > 0 {
        let pre = events.drop_last();
        lemma_timeout_partition(pre, now);
        let t_all = timed_out_entries(events, now);
        let t_pre = timed_out_entries(pre, now);
        let w_all = waiting_entries(events, now);
        let w_pre = waiting_entries(pre, now);
        assert forall|i: int|
            0 <= i < events.len() && is_timed_out(#[trigger] events[i], now) implies t_all.contains(
            events[i],
        ) by {
            if i < events.len() - 1 {
                assert(pre[i] == events[i]);
                assert(t_pre.contains(events[i]));
                let j = choose|j: int| 0 <= j < t_pre.len() && t_pre[j] == events[i];
                assert(t_all[j] == events[i]);
            } else {
                assert(t_all[t_all.len() - 1] == events[i]);
            }
        }
        assert forall|i: int|
            0 <= i < events.len() && !is_timed_out(#[trigger] events[i], now) implies w_all.contains(
            events[i],
        ) by {
            if i < events.len() - 1 {
                assert(pre[i] == events[i]);
                assert(w_pre.contains(events[i]));
                let j = choose|j: int| 0 <= j < w_pre.len() && w_pre[j] == events[i];
                assert(w_all[j] == events[i]);
            } else {
                assert(w_all[w_all.len() - 1] == events[i]);
            }
        }
    }
}

/// The number of entries in `s` whose status is `st`.
pub open spec fn count_status(s: Seq<JankenEvent>, st: JankenStatus) -> int
    decreases s.len(),
{
    if s.len() == 0 {
        0
    } else {
        count_status(s.drop_last(), st) + if s.last().status == st {
            1int
        } else {
            0int
        }
    }
}

proof fn lemma_count_status_concat(a: Seq<JankenEvent>, b: Seq<JankenEvent>, st: JankenStatus)
    ensures
        count_status(a + b, st) == count_status(a, st) + count_status(b, st),
    decreases b.len(),
{
    if b.len() == 0 {
        assert(a + b =~= a);
    } else {
        lemma_count_status_concat(a, b.drop_last(), st);
        assert((a + b).drop_last() =~= a + b.drop_last());
        assert((a + b).last() == b.last());
    }
}

proof fn lemma_count_status_two(s: Seq<JankenEvent>, st: JankenStatus)
    requires
        s.len() == 2,
    ensures
        count_status(s, st) == (if s[0].status == st {
            1int
        } else {
            0int
        }) + (if s[1].status == st {
            1int
        } else {
            0int
        }),
{
    reveal_with_fuel(count_status, 3);
    assert(s.drop_last().last() == s[0]);
    assert(s.last() == s[1]);
}

/// If neither hand beats the other, the hands are the same move.
proof fn lemma_no_winner_means_tie(a: JankenHand, b: JankenHand)
    ensures
        !beats(a, b) && !beats(b, a) ==> a == b,
{
}

/// Resolution law for an even batch with no ties: pairing in order settles
/// every entry, producing exactly one winner and one loser per pair --
/// half the batch each -- and one reward per pair whose point amount is the
/// sum of the two stakes in that pair.
pub proof fn lemma_even_decisive_batch(entries: Seq<JankenEvent>)
    requires
        entries.len() % 2 == 0,
        forall|k: int|
            0 <= k < entries.len() / 2 ==> (#[trigger] entries[2 * k]).hand != entries[2 * k
                + 1].hand,
    ensures
        pair_resolutions(entries).len() == entries.len(),
        count_status(pair_resolutions(entries), JankenStatus::Won) == entries.len() / 2,
        count_status(pair_resolutions(entries), JankenStatus::Lost) == entries.len() / 2,
        pair_gift_plans(entries).len() == entries.len() / 2,
        forall|k: int|
            0 <= k < entries.len() / 2 ==> (#[trigger] pair_gift_plans(entries)[k]).amount
                == entries[2 * k].point + entries[2 * k + 1].point,
    decreases entries.len(),
{
    if entries.len() == 0 {
    } else {
        let e1 = entries[0];
        let e2 = entries[1];
        assert(e1.hand != e2.hand) by {
            let k0: int = 0;
            assert(entries[2 * k0].hand != entries[2 * k0 + 1].hand);
        }
        lemma_no_winner_means_tie(e1.hand, e2.hand);
        let rest = entries.skip(2);
        assert forall|k: int| 0 <= k < rest.len() / 2 implies (#[trigger] rest[2 * k]).hand
            != rest[2 * k + 1].hand by {
            assert(rest[2 * k] == entries[2 * (k + 1)]);
            assert(rest[2 * k + 1] == entries[2 * (k + 1) + 1]);
        }
        lemma_even_decisive_batch(rest);
        let (w, l) = if beats(e1.hand, e2.hand) {
            (e1, e2)
        } else {
            (e2, e1)
        };
        let head = decided_pair(w, l);
        assert(pair_resolutions(entries) == head + pair_resolutions(rest));
        assert(pair_gift_plans(entries) == seq![winner_gift_plan(w, l)] + pair_gift_plans(rest));
        lemma_count_status_concat(head, pair_resolutions(rest), JankenStatus::Won);
        lemma_count_status_concat(head, pair_resolutions(rest), JankenStatus::Lost);
        lemma_count_status_two(head, JankenStatus::Won);
        lemma_count_status_two(head, JankenStatus::Lost);
        assert(count_status(head, JankenStatus::Won) == 1);
        assert(count_status(head, JankenStatus::Lost) == 1);
        assert forall|k: int| 0 <= k < entries.len() / 2 implies (#[trigger] pair_gift_plans(
            entries,
        )[k]).amount == entries[2 * k].point + entries[2 * k + 1].point by {
            if k > 0 {
                assert(pair_gift_plans(entries)[k] == pair_gift_plans(rest)[k - 1]);
                assert(rest[2 * (k - 1)] == entries[2 * k]);
                assert(rest[2 * (k - 1) + 1] == entries[2 * k + 1]);
            }
        }
    }
}

/// Forfeiture law, end to end: when a cycle decides a batch in which entry
/// `i` has timed out, the cycle's records contain that entry resolved as a
/// terminal bye, and the gift created alongside it is exactly twice the
/// entry's own stake, addressed to the entry's own owner and linked to no
/// pair — the entry was not paired with anyone.
pub proof fn lemma_process_forfeits_timed_out_entry(
    batch: Seq<JankenEvent>,
    now: UnixTime,
    outcome: ProcessOutcome,
    i: int,
)
    requires
        decides_batch(batch, now, outcome),
        0 <= i < batch.len(),
        is_timed_out(batch[i], now),
    ensures
        exists|k: int|
            {
                &&& 0 <= k < timed_out_entries(batch, now).len()
                &&& #[trigger] outcome.events@[k] == mark_timeout(batch[i])
                &&& outcome.gifts@[k].0.gift_type == GiftType::Point((batch[i].point * 2) as u64)
                &&& outcome.gifts@[k].1 == batch[i].user_id
                &&& outcome.gifts@[k].0.janken_win_event is None
                &&& outcome.gifts@[k].0.janken_lose_event is None
            },
{
    lemma_timeout_partition(batch, now);
    lemma_forfeiture_rewards(batch, now);
    let timed = timed_out_entries(batch, now);
    assert(timed.contains(batch[i]));
    let k = choose|k: int| 0 <= k < timed.len() && timed[k] == batch[i];
    assert(outcome.events@[k] == forfeited_resolutions(batch, now)[k]);
    assert(gift_matches_plan(
        outcome.gifts@[k].0,
        outcome.gifts@[k].1,
        (forfeit_gift_plans(batch, now) + pair_gift_plans(waiting_entries(batch, now)))[k],
    ));
    assert(outcome.events@[k] == mark_timeout(batch[i]));
}

/// Resolution law, end to end: when a cycle decides an even batch in which
/// nothing has timed out and no scanned pair ties, every entry is settled —
/// half the batch wins and half loses — and the cycle creates one reward per
/// pair, each worth the sum of the two stakes in its pair, each addressed to
/// that pair's winner.
pub proof fn lemma_process_settles_even_decisive_batch(
    batch: Seq<JankenEvent>,
    now: UnixTime,
    outcome: ProcessOutcome,
)
    requires
        decides_batch(batch, now, outcome),
        batch.len() % 2 == 0,
        forall|i: int| 0 <= i < batch.len() ==> !is_timed_out(#[trigger] batch[i], now),
        forall|k: int|
            0 <= k < batch.len() / 2 ==> (#[trigger] batch[2 * k]).hand != batch[2 * k + 1].hand,
    ensures
        outcome.events@.len() == batch.len(),
        count_status(outcome.events@, JankenStatus::Won) == batch.len() / 2,
        count_status(outcome.events@, JankenStatus::Lost) == batch.len() / 2,
        outcome.gifts@.len() == batch.len() / 2,
        forall|k: int|
            0 <= k < outcome.gifts@.len() ==> (#[trigger] outcome.gifts@[k]).0.gift_type
                == GiftType::Point((batch[2 * k].point + batch[2 * k + 1].point) as u64),
{
    lemma_no_timeouts_all_waiting(batch, now);
    lemma_even_decisive_batch(batch);
    assert(outcome.events@ =~= pair_resolutions(batch));
    assert forall|k: int| 0 <= k < outcome.gifts@.len() implies (
    #[trigger] outcome.gifts@[k]).0.gift_type == GiftType::Point(
        (batch[2 * k].point + batch[2 * k + 1].point) as u64,
    ) by {
        assert((forfeit_gift_plans(batch, now) + pair_gift_plans(waiting_entries(batch, now)))[k]
            == pair_gift_plans(batch)[k]);
        assert(gift_matches_plan(
            outcome.gifts@[k].0,
            outcome.gifts@[k].1,
            pair_gift_plans(batch)[k],
        ));
    }
}

/// Whether some entry in `s` carries the id `id`.
pub open spec fn contains_entry_id(s: Seq<JankenEvent>, id: crate::identity::JankenEventId) -> bool {
    exists|i: int| 0 <= i < s.len() && s[i].id == id
}

/// Pairing only ever writes records carrying ids of the batch itself.
proof fn lemma_resolution_ids_come_from_batch(
    entries: Seq<JankenEvent>,
    id: crate::identity::JankenEventId,
)
    requires
        !contains_entry_id(entries, id),
    ensures
        !contains_entry_id(pair_resolutions(entries), id),
    decreases entries.len(),
{
    if entries.len() >= 2 {
        let rest = entries.skip(2);
        assert forall|i: int| 0 <= i < rest.len() implies rest[i].id != id by {
            assert(rest[i] == entries[i + 2]);
        }
        lemma_resolution_ids_come_from_batch(rest, id);
        let res = pair_resolutions(entries);
        assert forall|i: int| 0 <= i < res.len() implies res[i].id != id by {
            if beats(entries[0].hand, entries[1].hand) || beats(entries[1].hand, entries[0].hand) {
                if i >= 2 {
                    assert(res[i] == pair_resolutions(rest)[i - 2]);
                }
            }
        }
    }
}

/// Tie law: a tied pair is left unresolved.  Its two entries appear in no
/// terminal record of the cycle, so they stay pending and meet a fresh
/// pairing in a later cycle.  The id hypotheses say the two entries occur
/// only at their own positions in the batch.
pub proof fn lemma_tied_pair_stays_pending(entries: Seq<JankenEvent>, k: int)
    requires
        0 <= k,
        2 * k + 1 < entries.len(),
        entries[2 * k].hand == entries[2 * k + 1].hand,
        forall|i: int|
            0 <= i < entries.len() && i != 2 * k ==> (#[trigger] entries[i]).id != entries[2
                * k].id,
        forall|i: int|
            0 <= i < entries.len() && i != 2 * k + 1 ==> (#[trigger] entries[i]).id != entries[2 * k
                + 1].id,
    ensures
        !contains_entry_id(pair_resolutions(entries), entries[2 * k].id),
        !contains_entry_id(pair_resolutions(entries), entries[2 * k + 1].id),
    decreases k,
{
    let rest = entries.skip(2);
    if k == 0 {
        assert(pair_resolutions(entries) == pair_resolutions(rest));
        assert forall|i: int| 0 <= i < rest.len() implies rest[i].id != entries[0].id && rest[i].id
            != entries[1].id by {
            assert(rest[i] == entries[i + 2]);
        }
        lemma_resolution_ids_come_from_batch(rest, entries[0].id);
        lemma_resolution_ids_come_from_batch(rest, entries[1].id);
    } else {
        assert(rest[2 * (k - 1)] == entries[2 * k]);
        assert(rest[2 * (k - 1) + 1] == entries[2 * k + 1]);
        assert forall|i: int| 0 <= i < rest.len() && i != 2 * (k - 1) implies (
        #[trigger] rest[i]).id != rest[2 * (k - 1)].id by {
            assert(rest[i] == entries[i + 2]);
        }
        assert forall|i: int| 0 <= i < rest.len() && i != 2 * (k - 1) + 1 implies (
        #[trigger] rest[i]).id != rest[2 * (k - 1) + 1].id by {
            assert(rest[i] == entries[i + 2]);
        }
        lemma_tied_pair_stays_pending(rest, k - 1);
        let res = pair_resolutions(entries);
        let id_a = entries[2 * k].id;
        let id_b = entries[2 * k + 1].id;
        assert forall|i: int| 0 <= i < res.len() implies res[i].id != id_a && res[i].id != id_b by {
            if beats(entries[0].hand, entries[1].hand) || beats(entries[1].hand, entries[0].hand) {
                if i >= 2 {
                    assert(res[i] == pair_resolutions(rest)[i - 2]);
                } else {
                    assert(entries[0].id != id_a && entries[0].id != id_b);
                    assert(entries[1].id != id_a && entries[1].id != id_b);
                }
            }
        }
    }
}

} // verus!
