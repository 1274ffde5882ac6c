//! The domain model's small pieces, and the trusted wrappers.

use myon_core::authorization::{AuthUser, Role};
use myon_core::base64::Base64;
use myon_core::error::{not_found_as_absent, ErrorKind, ServiceError};
use myon_core::identity::UserId;
use myon_core::janken::{JankenHand, JankenResult, JankenStatus};
use myon_core::params::Params;
use myon_core::rand_gen::RandomGen;
use myon_core::saga::{compensation_error, settle, SagaOutcome};
use myon_core::unixtime::UnixTime;
use myon_core::user::{Url, User};
use myon_core::user_me_service::{update_me, UpdateMeInput};

#[test]
fn test_clamp() {
    let n = RandomGen::clamp(0, (5, 10));
    assert_eq!(n, 5);

    let n = RandomGen::clamp(7, (5, 10));
    assert_eq!(n, 7);

    let n = RandomGen::clamp(5, (5, 10));
    assert_eq!(n, 5);

    let n = RandomGen::clamp(10, (5, 10));
    assert_eq!(n, 5);

    let n = RandomGen::clamp(20, (5, 10));
    assert_eq!(n, 5);
}

#[test]
fn range_stays_inside_its_bounds() {
    for _ in 0..200 {
        let n = RandomGen::range(5, 16);
        assert!((5..16).contains(&n));
    }
}

#[test]
fn it_should_find_params() {
    let params = Params::new(vec![
        ("a".to_string(), "b".to_string()),
        ("x".to_string(), "y".to_string()),
    ]);

    assert_eq!(params.find("a"), Some("b".to_string()));
    assert_eq!(params.find("x"), Some("y".to_string()));
    assert_eq!(params.find("ttt"), None);
}

#[test]
fn fight_follows_the_dominance_cycle() {
    assert!(matches!(JankenHand::Rock.fight(&JankenHand::Scissors), JankenResult::Win));
    assert!(matches!(JankenHand::Scissors.fight(&JankenHand::Paper), JankenResult::Win));
    assert!(matches!(JankenHand::Paper.fight(&JankenHand::Rock), JankenResult::Win));
    assert!(matches!(JankenHand::Rock.fight(&JankenHand::Paper), JankenResult::Lose));
    assert!(matches!(JankenHand::Paper.fight(&JankenHand::Paper), JankenResult::Tie));
}

#[test]
fn hand_labels_round_trip() {
    assert_eq!(JankenHand::Rock.to_string(), "rock");
    assert_eq!(JankenHand::Paper.to_string(), "paper");
    assert_eq!(JankenHand::Scissors.to_string(), "scissors");
    assert_eq!(JankenHand::from_str("rock").unwrap(), JankenHand::Rock);
    assert_eq!(JankenHand::from_str("paper").unwrap(), JankenHand::Paper);
    assert_eq!(JankenHand::from_str("scissors").unwrap(), JankenHand::Scissors);
    let err = JankenHand::from_str("lizard").expect_err("unsupported hand");
    assert_eq!(err.kind, ErrorKind::BadRequest);
}

#[test]
fn status_labels_round_trip() {
    assert_eq!(JankenStatus::Ready.to_string(), "ready");
    assert_eq!(JankenStatus::Won.to_string(), "won");
    assert_eq!(JankenStatus::Lost.to_string(), "lost");
    assert_eq!(JankenStatus::from_str("won").unwrap(), JankenStatus::Won);
    let err = JankenStatus::from_str("drawn").expect_err("unsupported status");
    assert_eq!(err.kind, ErrorKind::BadRequest);
}

#[test]
fn role_labels_round_trip() {
    assert_eq!(Role::from_str("admin"), Role::Admin);
    assert_eq!(Role::from_str("user"), Role::Unknown);
    assert_eq!(Role::Admin.to_string(), "admin");
    assert_eq!(Role::Unknown.to_string(), "unknown");
}

#[test]
fn require_admin_checks_the_roles() {
    let admin = AuthUser { subject: "s".to_string(), roles: vec![Role::Unknown, Role::Admin] };
    assert!(admin.require_admin().is_ok());
    let plain = AuthUser { subject: "s".to_string(), roles: vec![Role::Unknown] };
    let err = plain.require_admin().expect_err("denied");
    assert_eq!(err.kind, ErrorKind::Unauthorized);
}

#[test]
fn day_boundaries_fall_at_local_midnight() {
    // seconds 0 and 1 share a calendar day; 89400 is the next day
    assert!(UnixTime(0).same_calendar_day_jst(&UnixTime(1)));
    assert!(!UnixTime(0).same_calendar_day_jst(&UnixTime(89400)));
    // the target timezone is nine hours ahead: its midnight is at 54000 UTC
    assert!(UnixTime(0).same_calendar_day_jst(&UnixTime(53_999)));
    assert!(!UnixTime(0).same_calendar_day_jst(&UnixTime(54_000)));
    // timestamps before the epoch still land on well-defined days
    assert!(UnixTime(-1).same_calendar_day_jst(&UnixTime(-32_400)));
    assert!(!UnixTime(-32_401).same_calendar_day_jst(&UnixTime(-32_400)));
    assert_eq!(UnixTime(0).day_number_jst(), 0);
    assert_eq!(UnixTime(54_000).day_number_jst(), 1);
    assert_eq!(UnixTime(-32_401).day_number_jst(), -1);
}

#[test]
fn clock_and_id_wrappers_produce_plausible_values() {
    // the clock reads as a moment after 2020
    assert!(UnixTime::now().0 > 1_577_836_800);
    // identifiers are 36-character UUID strings, and fresh every time
    let a = UserId::new();
    let b = UserId::new();
    assert_eq!(a.0.len(), 36);
    assert_ne!(a, b);
}

#[test]
fn base64_round_trips_and_matches_known_values() {
    let encoded = Base64::encode(b"hello world".to_vec());
    assert_eq!(encoded.0, "aGVsbG8gd29ybGQ=");
    let decoded = encoded.decode().expect("valid base64");
    assert_eq!(decoded, b"hello world".to_vec());

    let empty = Base64::encode(Vec::new());
    assert_eq!(empty.0, "");

    let err = Base64("not base64!!".to_string()).decode().expect_err("invalid");
    assert_eq!(err.kind, ErrorKind::BadRequest);
}

#[test]
fn balance_arithmetic_is_exact() {
    let mut u = User::new("s".to_string(), None, "n".to_string(), None);
    u.add_point(10);
    assert_eq!(u.point, 10);
    u.subtract_point(4);
    assert_eq!(u.point, 6);
}

#[test]
fn update_me_enforces_the_screen_name_policy() {
    let mut user = User::new("s".to_string(), None, "n".to_string(), None);

    let err = update_me(
        &mut user,
        UpdateMeInput {
            picture_url: "http://example.com/a.png".to_string(),
            screen_name: "a!".to_string(),
            display_name: "A".to_string(),
        },
    )
    .expect_err("policy violation");
    assert_eq!(err.kind, ErrorKind::BadRequest);
    assert_eq!(user.screen_name, None);

    update_me(
        &mut user,
        UpdateMeInput {
            picture_url: "http://example.com/a.png".to_string(),
            screen_name: "alice_01".to_string(),
            display_name: "Alice".to_string(),
        },
    )
    .expect("policy met");
    assert_eq!(user.screen_name, Some("alice_01".to_string()));
    assert_eq!(user.display_name, "Alice");
    assert_eq!(user.picture_url, Some(Url("http://example.com/a.png".to_string())));
}

#[test]
fn error_constructors_carry_their_kind() {
    assert_eq!(ServiceError::bad_request("m").kind, ErrorKind::BadRequest);
    assert_eq!(ServiceError::unauthorized("m").kind, ErrorKind::Unauthorized);
    assert_eq!(ServiceError::not_found("m").kind, ErrorKind::NotFound);
    assert_eq!(ServiceError::internal_server_error("m").kind, ErrorKind::Internal);
}

#[test]
fn not_found_translates_to_absent_where_absence_is_expected() {
    assert_eq!(not_found_as_absent(Ok::<u64, ServiceError>(3)), Ok(Some(3)));
    assert_eq!(
        not_found_as_absent(Err::<u64, ServiceError>(ServiceError::not_found("missing"))),
        Ok(None)
    );
    let passed_through =
        not_found_as_absent(Err::<u64, ServiceError>(ServiceError::internal_server_error("down")))
            .expect_err("propagates");
    assert_eq!(passed_through.kind, ErrorKind::Internal);
}

#[test]
fn compensation_failures_surface_as_internal() {
    let original = ServiceError::not_found("record not found");

    assert_eq!(settle(true, true), SagaOutcome::Committed);
    assert_eq!(settle(false, true), SagaOutcome::Compensated);
    assert_eq!(settle(false, false), SagaOutcome::Inconsistent);

    let surfaced = compensation_error(original, true);
    assert_eq!(surfaced.kind, ErrorKind::NotFound);
    let fatal = compensation_error(original, false);
    assert_eq!(fatal.kind, ErrorKind::Internal);
}
