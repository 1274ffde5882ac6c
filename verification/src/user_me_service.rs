//! Updating the caller's own profile: the validation decision.

use crate::error::{ErrorKind, ServiceError};
use crate::text::{is_valid_screen_name, screen_name_meets_policy};
use crate::user::{Url, User};
use vstd::prelude::*;

verus! {

/// The fields a caller may change on their own profile.
pub struct UpdateMeInput {
    pub picture_url: String,
    pub screen_name: String,
    pub display_name: String,
}

/// Apply a profile update: the screen name must meet the policy (at least
/// three characters, ASCII letters, digits or underscores), else the update
/// is rejected with `BadRequest` and the user is unchanged.
pub fn update_me(user: &mut User, input: UpdateMeInput) -> (r: Result<(), ServiceError>)
    ensures
        !is_valid_screen_name(input.screen_name@) ==> (r matches Err(e) && e.kind
            == ErrorKind::BadRequest) && *final(user) == *old(user),
        is_valid_screen_name(input.screen_name@) ==> r is Ok && *final(user) == (User {
            screen_name: Some(input.screen_name),
            display_name: input.display_name,
            picture_url: Some(Url(input.picture_url)),
            ..*old(user)
        }),
{
    if !screen_name_meets_policy(input.screen_name.as_str()) {
        return Err(ServiceError::bad_request("screen_name does not match the policy"));
    }
    user.update(input.screen_name, input.display_name, Url(input.picture_url));
    Ok(())
}

} // verus!
