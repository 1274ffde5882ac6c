//! Gift redemption, entry admission, and bulk distribution.

use myon_core::authorization::{AuthUser, Authorization, Role};
use myon_core::error::ErrorKind;
use myon_core::gift::{Gift, GiftStatus, GiftType};
use myon_core::gift_distribution_service::{distribute_point, distribution_rows, DistributeInput};
use myon_core::gift_service::redeem_gift;
use myon_core::identity::UserId;
use myon_core::janken::{JankenHand, JankenStatus};
use myon_core::janken_service::{create, JankenCreateInput, ENTRY_STAKE};
use myon_core::user::User;

fn plain_user(point: u64) -> User {
    let mut u = User::new("subject".to_string(), None, "no name".to_string(), None);
    u.add_point(point);
    u
}

#[test]
fn open_gift_and_got_point() {
    let mut user = plain_user(10);
    let mut gift = Gift::new(GiftType::Point(5), "".to_string());

    redeem_gift(&mut user, &mut gift).expect("redemption accepted");

    assert_eq!(gift.status, GiftStatus::Opened);
    assert_eq!(user.point, 15);
}

#[test]
fn second_redemption_fails_and_pays_nothing() {
    let mut user = plain_user(10);
    let mut gift = Gift::new(GiftType::Point(5), "bonus".to_string());

    redeem_gift(&mut user, &mut gift).expect("first redemption accepted");
    let err = redeem_gift(&mut user, &mut gift).expect_err("second redemption rejected");

    assert_eq!(err.kind, ErrorKind::BadRequest);
    assert_eq!(user.point, 15);
    assert_eq!(gift.status, GiftStatus::Opened);
}

#[test]
fn distribute_point_requires_admin() {
    let auth = Authorization::new(Ok(AuthUser { subject: "".to_string(), roles: vec![] }));
    let err = distribute_point(
        auth,
        DistributeInput { point: 0, description: "".to_string() },
    )
    .expect_err("error");
    assert_eq!(err.kind, ErrorKind::Unauthorized);
}

#[test]
fn distribution_creates_one_row_per_user() {
    let auth = Authorization::new(Ok(AuthUser {
        subject: "1".to_string(),
        roles: vec![Role::Admin],
    }));
    let gift = distribute_point(
        auth,
        DistributeInput { point: 100, description: "hoge piyo".to_string() },
    )
    .expect("admin may distribute");
    assert_eq!(gift.gift_type, GiftType::Point(100));
    assert_eq!(gift.description, "hoge piyo");

    let users = vec![UserId::new(), UserId::new(), UserId::new(), UserId::new()];
    let rows = distribution_rows(&gift, &users);
    assert_eq!(rows.len(), 4);
    for (i, row) in rows.iter().enumerate() {
        assert_eq!(row.0, gift.id);
        assert_eq!(row.1, users[i]);
        assert_eq!(row.2, GiftStatus::Ready);
    }
}

#[test]
fn unauthenticated_distribution_surfaces_the_auth_error() {
    let auth = Authorization::new(Err(myon_core::error::ServiceError::unauthorized(
        "no Authorization header",
    )));
    let err = distribute_point(
        auth,
        DistributeInput { point: 1, description: "".to_string() },
    )
    .expect_err("error");
    assert_eq!(err.kind, ErrorKind::Unauthorized);
}

#[test]
fn create_should_fail_if_previous_is_still_ready() {
    let user = plain_user(10);
    let pending = vec![myon_core::janken::JankenEvent::new(
        user.id.duplicate(),
        JankenHand::Rock,
        ENTRY_STAKE,
    )];
    let err = create(&user, &pending, JankenCreateInput { hand: JankenHand::Rock })
        .expect_err("expect error");
    assert_eq!(err.kind, ErrorKind::BadRequest);
}

#[test]
fn create_should_fail_without_enough_points() {
    let user = plain_user(4);
    let err = create(&user, &vec![], JankenCreateInput { hand: JankenHand::Paper })
        .expect_err("expect error");
    assert_eq!(err.kind, ErrorKind::BadRequest);
}

#[test]
fn create_admits_a_funded_user_with_no_pending_entry() {
    let user = plain_user(5);
    let entry = create(&user, &vec![], JankenCreateInput { hand: JankenHand::Paper })
        .expect("admitted");
    assert_eq!(entry.user_id, user.id);
    assert_eq!(entry.hand, JankenHand::Paper);
    assert_eq!(entry.point, ENTRY_STAKE);
    assert_eq!(entry.status, JankenStatus::Ready);
    assert_eq!(entry.opponent_user_id, None);
}

#[test]
fn gift_status_labels_round_trip() {
    assert_eq!(GiftStatus::Ready.to_string(), "ready");
    assert_eq!(GiftStatus::Opened.to_string(), "opened");
    assert_eq!(GiftStatus::Unknown.to_string(), "unknown");
    assert_eq!(GiftStatus::from_str("ready"), GiftStatus::Ready);
    assert_eq!(GiftStatus::from_str("opened"), GiftStatus::Opened);
    assert_eq!(GiftStatus::from_str("sealed"), GiftStatus::Unknown);
}
