//! Rock-paper-scissors match entries and the dominance rule.

use crate::error::{ErrorKind, ServiceError};
use crate::identity::{JankenEventId, UserId};
use crate::text::str_eq;
use crate::unixtime::UnixTime;
use vstd::prelude::*;
use vstd::string::StringExecFns;

verus! {

/// Outcome of one hand fighting another, from the first hand's side.
#[derive(Clone, Copy, Debug, PartialEq, Eq, Structural)]
pub enum JankenResult {
    Win,
    Lose,
    Tie,
}

/// One of the three moves, cyclically dominant.
#[derive(Clone, Copy, Debug, PartialEq, Eq, Structural)]
pub enum JankenHand {
    Rock,
    Paper,
    Scissors,
}

/// The fixed dominance rule: rock beats scissors, scissors beats paper,
/// paper beats rock.
pub open spec fn beats(a: JankenHand, b: JankenHand) -> bool {
    match (a, b) {
        (JankenHand::Rock, JankenHand::Scissors) => true,
        (JankenHand::Scissors, JankenHand::Paper) => true,
        (JankenHand::Paper, JankenHand::Rock) => true,
        _ => false,
    }
}

impl JankenHand {
    /// The wire label of this hand.
    pub open spec fn label(self) -> Seq<char> {
        match self {
            JankenHand::Rock => "rock"@,
            JankenHand::Paper => "paper"@,
            JankenHand::Scissors => "scissors"@,
        }
    }

    pub fn to_string(&self) -> (r: String)
        ensures
            r@ == self.label(),
    {
        match self {
            JankenHand::Rock => String::from_str("rock"),
            JankenHand::Paper => String::from_str("paper"),
            JankenHand::Scissors => String::from_str("scissors"),
        }
    }

    pub fn from_str(rep: &str) -> (r: Result<JankenHand, ServiceError>)
        ensures
            rep@ == "rock"@ ==> r == Ok::<JankenHand, ServiceError>(JankenHand::Rock),
            rep@ == "paper"@ ==> r == Ok::<JankenHand, ServiceError>(JankenHand::Paper),
            rep@ == "scissors"@ ==> r == Ok::<JankenHand, ServiceError>(JankenHand::Scissors),
            r is Ok <==> (rep@ == "rock"@ || rep@ == "paper"@ || rep@ == "scissors"@),
            r matches Err(e) ==> e.kind == ErrorKind::BadRequest,
    {
        proof {
            reveal_strlit("rock");
            reveal_strlit("paper");
            reveal_strlit("scissors");
            assert("rock"@.len() == 4);
            assert("paper"@.len() == 5);
            assert("scissors"@.len() == 8);
        }
        if str_eq(rep, "rock") {
            Ok(JankenHand::Rock)
        } else if str_eq(rep, "paper") {
            Ok(JankenHand::Paper)
        } else if str_eq(rep, "scissors") {
            Ok(JankenHand::Scissors)
        } else {
            Err(ServiceError::bad_request("unsupported hand"))
        }
    }

    /// Resolve this hand against another by the dominance rule.
    pub fn fight(&self, other: &JankenHand) -> (r: JankenResult)
        ensures
            r is Win <==> beats(*self, *other),
            r is Lose <==> beats(*other, *self),
            r is Tie <==> *self == *other,
    {
        match (self, other) {
            (JankenHand::Rock, JankenHand::Rock) => JankenResult::Tie,
            (JankenHand::Rock, JankenHand::Paper) => JankenResult::Lose,
            (JankenHand::Rock, JankenHand::Scissors) => JankenResult::Win,
            (JankenHand::Paper, JankenHand::Rock) => JankenResult::Win,
            (JankenHand::Paper, JankenHand::Paper) => JankenResult::Tie,
            (JankenHand::Paper, JankenHand::Scissors) => JankenResult::Lose,
            (JankenHand::Scissors, JankenHand::Rock) => JankenResult::Lose,
            (JankenHand::Scissors, JankenHand::Paper) => JankenResult::Win,
            (JankenHand::Scissors, JankenHand::Scissors) => JankenResult::Tie,
        }
    }
}

/// Lifecycle state of a match entry.  An entry is created `Ready` (pending)
/// and moves exactly once to a terminal state; a timed-out entry resolves as
/// `Won` (a bye).
#[derive(Clone, Copy, Debug, PartialEq, Eq, Structural)]
pub enum JankenStatus {
    Ready,
    Won,
    Lost,
}

impl JankenStatus {
    /// The wire label of this status.
    pub open spec fn label(self) -> Seq<char> {
        match self {
            JankenStatus::Ready => "ready"@,
            JankenStatus::Won => "won"@,
            JankenStatus::Lost => "lost"@,
        }
    }

    pub fn to_string(&self) -> (r: String)
        ensures
            r@ == self.label(),
    {
        match self {
            JankenStatus::Ready => String::from_str("ready"),
            JankenStatus::Won => String::from_str("won"),
            JankenStatus::Lost => String::from_str("lost"),
        }
    }

    pub fn from_str(rep: &str) -> (r: Result<JankenStatus, ServiceError>)
        ensures
            rep@ == "ready"@ ==> r == Ok::<JankenStatus, ServiceError>(JankenStatus::Ready),
            rep@ == "won"@ ==> r == Ok::<JankenStatus, ServiceError>(JankenStatus::Won),
            rep@ == "lost"@ ==> r == Ok::<JankenStatus, ServiceError>(JankenStatus::Lost),
            r is Ok <==> (rep@ == "ready"@ || rep@ == "won"@ || rep@ == "lost"@),
            r matches Err(e) ==> e.kind == ErrorKind::BadRequest,
    {
        proof {
            reveal_strlit("ready");
            reveal_strlit("won");
            reveal_strlit("lost");
            assert("ready"@.len() == 5);
            assert("won"@.len() == 3);
            assert("lost"@.len() == 4);
        }
        if str_eq(rep, "ready") {
            Ok(JankenStatus::Ready)
        } else if str_eq(rep, "won") {
            Ok(JankenStatus::Won)
        } else if str_eq(rep, "lost") {
            Ok(JankenStatus::Lost)
        } else {
            Err(ServiceError::bad_request("unsupported status"))
        }
    }
}

/// One match entry: a user's wagered move, waiting to be paired or already
/// resolved.
#[derive(Clone, Debug, PartialEq, Eq)]
pub struct JankenEvent {
    pub id: JankenEventId,
    pub user_id: UserId,
    pub hand: JankenHand,
    pub created_at: UnixTime,
    pub status: JankenStatus,
    pub point: u64,
    pub opponent_user_id: Option<UserId>,
    pub opponent_user_screen_name: Option<String>,
}

impl JankenEvent {
    /// A fresh pending entry wagering `point` on `hand`.  The id is random
    /// and the creation time is the clock's, so neither is pinned here.
    pub fn new(user_id: UserId, hand: JankenHand, point: u64) -> (r: JankenEvent)
        ensures
            r.user_id == user_id,
            r.hand == hand,
            r.point == point,
            r.status == JankenStatus::Ready,
            r.opponent_user_id is None,
            r.opponent_user_screen_name is None,
    {
        JankenEvent {
            id: JankenEventId::new(),
            user_id,
            hand,
            created_at: UnixTime::now(),
            status: JankenStatus::Ready,
            point,
            opponent_user_id: None,
            opponent_user_screen_name: None,
        }
    }

    /// Record the opponent this entry was resolved against.
    pub fn set_opponent(&mut self, id: UserId, screen_name: Option<String>)
        ensures
            *final(self) == (JankenEvent {
                opponent_user_id: Some(id),
                opponent_user_screen_name: screen_name,
                ..*old(self)
            }),
    {
        self.opponent_user_id = Some(id);
        self.opponent_user_screen_name = screen_name;
    }

    /// Resolve this entry past the timeout threshold: a bye, terminal `Won`.
    pub fn set_timeout(&mut self)
        ensures
            *final(self) == (JankenEvent { status: JankenStatus::Won, ..*old(self) }),
    {
        self.status = JankenStatus::Won;
    }
}

} // verus!
