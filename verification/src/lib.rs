//! Transactional core of a points-based social game.
//!
//! Users accumulate points through a rate-limited daily draw, wager them in
//! pairwise rock-paper-scissors matches, and redeem asynchronous gift payouts
//! exactly once.  The modules here hold the domain model and every decision
//! rule of the game; the storage and network edges drive them from outside.

pub mod authorization;
pub mod base64;
pub mod error;
pub mod gacha;
pub mod gift;
pub mod gift_distribution_service;
pub mod gift_service;
pub mod identity;
pub mod janken;
pub mod janken_process;
pub mod janken_service;
pub mod params;
pub mod point_event;
pub mod rand_gen;
pub mod ranking;
pub mod saga;
pub mod text;
pub mod unixtime;
pub mod user;
pub mod user_me_service;
