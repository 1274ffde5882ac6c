//! The daily-draw ("gacha") claim protocol.
//!
//! A user may claim one random point award per calendar day.  The day check
//! alone has a read-then-write race, so correctness rests on the store's
//! conditional write: the balance update and the new draw timestamp land only
//! if the stored timestamp still equals the one read at the start of the
//! claim.  The driver makes the store calls; everything decided locally is
//! here, with its proof.

use crate::error::{ErrorKind, ServiceError};
use crate::identity::{GachaEventId, UserId};
use crate::rand_gen::RandomGen;
use crate::text::str_eq;
use crate::unixtime::{day_number, same_day, UnixTime};
use crate::user::User;
use vstd::prelude::*;
use vstd::string::StringExecFns;

verus! {

/// The kind of a draw event.  Only the daily draw exists today.
#[derive(Clone, Copy, Debug, PartialEq, Eq, Structural)]
pub enum GachaType {
    Unknown,
    Daily,
}

impl GachaType {
    /// The wire label of this kind.
    pub open spec fn label(self) -> Seq<char> {
        match self {
            GachaType::Unknown => "unknown"@,
            GachaType::Daily => "daily"@,
        }
    }

    pub fn to_string(&self) -> (r: String)
        ensures
            r@ == self.label(),
    {
        match self {
            GachaType::Unknown => String::from_str("unknown"),
            GachaType::Daily => String::from_str("daily"),
        }
    }

    /// Parse a wire label; anything unrecognised is `Unknown`.
    pub fn new(rep: &str) -> (r: GachaType)
        ensures
            rep@ == "daily"@ ==> r == GachaType::Daily,
            rep@ != "daily"@ ==> r == GachaType::Unknown,
    {
        if str_eq(rep, "daily") {
            GachaType::Daily
        } else {
            GachaType::Unknown
        }
    }
}

impl Default for GachaType {
    fn default() -> (r: GachaType)
        ensures
            r == GachaType::Unknown,
    {
        GachaType::Unknown
    }
}

/// One successful claim, recorded immutably: who drew, which kind, when.
#[derive(Clone, Debug, PartialEq, Eq)]
pub struct GachaEvent {
    pub id: GachaEventId,
    pub user_id: UserId,
    pub gacha_type: GachaType,
    pub created_at: UnixTime,
}

impl GachaEvent {
    /// The record of a daily claim by `user_id` at `now`.  The id is random,
    /// so it is not pinned.
    pub fn new_daily(user_id: UserId, now: UnixTime) -> (r: GachaEvent)
        ensures
            r.user_id == user_id,
            r.gacha_type == GachaType::Daily,
            r.created_at == now,
    {
        GachaEvent { id: GachaEventId::new(), user_id, gacha_type: GachaType::Daily, created_at: now }
    }
}

/// What a caller asking about the daily draw sees: the latest draw event if
/// any, and whether a claim would be accepted right now.
pub struct DailyGachaRecord {
    pub latest: Option<GachaEvent>,
    pub is_available: bool,
    pub next_gacha_time: UnixTime,
}

/// Assemble the daily-draw record for `user` at `now` from the latest stored
/// draw event (absent is not an error: it means the user never drew).
pub fn daily_gacha_record(latest: Option<GachaEvent>, user: &User, now: UnixTime) -> (r:
    DailyGachaRecord)
    ensures
        r.latest == latest,
        r.is_available == user.daily_gacha_available_at(now),
        r.next_gacha_time == now,
{
    let is_available = user.is_daily_gacha_available_at(now);
    DailyGachaRecord { latest, is_available, next_gacha_time: now }
}

/// The smallest daily award.
pub const DAILY_AWARD_MIN: u64 = 5;

/// One past the largest daily award: the range is inclusive-exclusive.
pub const DAILY_AWARD_END: u64 = 16;

/// Draw the day's award: a random amount in `[DAILY_AWARD_MIN, DAILY_AWARD_END)`.
pub fn draw_daily_award() -> (n: u64)
    ensures
        DAILY_AWARD_MIN <= n < DAILY_AWARD_END,
{
    RandomGen::range(DAILY_AWARD_MIN, DAILY_AWARD_END)
}

/// The local decision of a daily claim at `now` with award `awarded`: reject
/// with `BadRequest` when the user already drew on this calendar day;
/// otherwise hand back the user as it must be written — balance raised by the
/// award, draw marker moved to `now` — together with the prior marker that
/// the store's conditional write must be conditioned on.  No side effect
/// happens here; a lost race surfaces as the conditional write's rejection.
pub fn prepare_daily_claim(user: &User, now: UnixTime, awarded: u64) -> (r: Result<
    (User, UnixTime),
    ServiceError,
>)
    requires
        user.point + awarded <= u64::MAX,
    ensures
        !user.daily_gacha_available_at(now) ==> (r matches Err(e) && e.kind
            == ErrorKind::BadRequest),
        user.daily_gacha_available_at(now) ==> (r matches Ok(p) && p.0 == (User {
            point: (user.point + awarded) as u64,
            last_tried_daily_gacha: now,
            ..*user
        }) && p.1 == user.last_tried_daily_gacha),
{
    if !user.is_daily_gacha_available_at(now) {
        return Err(ServiceError::bad_request("daily gacha rate limit exceeded"));
    }
    let mut updated = user.duplicate();
    updated.add_point(awarded);
    let prev = updated.update_daily_gacha_timestamp(now);
    Ok((updated, prev))
}

/// One claim attempt as the store sees it: the user state the claimant had
/// read before deciding, the moment its conditional write runs, and the award
/// it drew.
pub struct ClaimAttempt {
    pub read: User,
    pub now: UnixTime,
    pub award: u64,
}

/// The store's view of one claim attempt against the stored state: the
/// advisory day check runs on the state the claimant read; the award and the
/// new draw marker land only through the conditional write, which is accepted
/// only while the stored marker still equals the one the claimant read.
///
/// An accepted write credits the stored balance: every accepted claim moves
/// the marker, so a claimant whose condition holds has read the stored state
/// unchanged, and the balance it computed is the stored balance plus its
/// award.
pub open spec fn claim_write(stored: User, a: ClaimAttempt) -> (User, bool) {
    if !a.read.daily_gacha_available_at(a.now) {
        (stored, false)
    } else if stored.last_tried_daily_gacha != a.read.last_tried_daily_gacha {
        (stored, false)
    } else {
        (
            User {
                point: (stored.point + a.award) as u64,
                last_tried_daily_gacha: a.now,
                ..stored
            },
            true,
        )
    }
}

/// The stored state and the count of accepted writes after a sequence of
/// claim attempts runs, in order.
pub open spec fn apply_claims(stored: User, attempts: Seq<ClaimAttempt>) -> (User, int)
    decreases attempts.len(),
{
    if attempts.len() == 0 {
        (stored, 0)
    } else {
        let prefix = apply_claims(stored, attempts.drop_last());
        let step = claim_write(prefix.0, attempts.last());
        (step.0, prefix.1 + if step.1 {
            1int
        } else {
            0int
        })
    }
}

/// Once the stored draw marker sits on the claim's own calendar day, the
/// claim is rejected whatever state it read: a claimant that read the current
/// marker fails the day check, and one that read anything else fails the
/// conditional write.
pub proof fn lemma_claim_rejected_once_day_claimed(stored: User, a: ClaimAttempt)
    requires
        same_day(stored.last_tried_daily_gacha.0 as int, a.now.0 as int),
    ensures
        claim_write(stored, a) == (stored, false),
{
}

/// Claim-exclusion law: run any sequence of claim attempts whose times all
/// fall on one calendar day, each having read whatever user state it may,
/// against a store in any starting state.  At most one conditional write is
/// accepted; if none is, the stored user is untouched, and if one is, the
/// stored balance has grown by exactly that one award and the stored marker
/// sits on the claims' day — which is why no further claim of that day can
/// land.
pub proof fn lemma_at_most_one_claim_per_day(stored: User, attempts: Seq<ClaimAttempt>, day: int)
    requires
        forall|i: int|
            0 <= i < attempts.len() ==> day_number(
                (#[trigger] attempts[i]).now.0 as int,
            ) == day,
        forall|i: int|
            0 <= i < attempts.len() ==> stored.point + (#[trigger] attempts[i]).award <= u64::MAX,
    ensures
        ({
            let outcome = apply_claims(stored, attempts);
            &&& 0 <= outcome.1 <= 1
            &&& outcome.1 == 0 ==> outcome.0 == stored
            &&& outcome.1 == 1 ==> (exists|i: int|
                0 <= i < attempts.len() && outcome.0.point == stored.point + (
                #[trigger] attempts[i]).award) && day_number(
                outcome.0.last_tried_daily_gacha.0 as int,
            ) == day
        }),
    decreases attempts.len(),
{
    if attempts.len() > 0 {
        let prefix = attempts.drop_last();
        let last = attempts.last();
        lemma_at_most_one_claim_per_day(stored, prefix, day);
        let mid = apply_claims(stored, prefix);
        if mid.1 == 1 {
            lemma_claim_rejected_once_day_claimed(mid.0, last);
        } else {
            let step = claim_write(mid.0, last);
            if step.1 {
                assert(step.0.point == stored.point + attempts[attempts.len() - 1].award);
            }
        }
    }
}

} // verus!
