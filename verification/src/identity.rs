//! Opaque string identifiers for the core's entities.
//!
//! Fresh identifiers are random UUIDs; nothing in the core's logic depends on
//! their shape beyond being strings, so the generator is the only trusted
//! call here and all four id types share it.

use vstd::prelude::*;

verus! {

/// Relies on `uuid::Uuid::new_v4` and its `Display` impl: a random version-4
/// UUID rendered in the 36-character hyphenated form.  The value is random,
/// so nothing beyond its length is promised.
#[verifier::external_body]
fn fresh_uuid_string() -> (r: String)
    ensures
        r@.len() == 36,
{
    uuid::Uuid::new_v4().to_string()
}

#[derive(Clone, Debug, PartialEq, Eq)]
pub struct UserId(pub String);

impl UserId {
    pub fn new() -> Self {
        UserId(fresh_uuid_string())
    }

    /// A copy of this id, with the same characters.
    pub fn duplicate(&self) -> (r: UserId)
        ensures
            r == *self,
    {
        UserId(self.0.clone())
    }
}

#[derive(Clone, Debug, PartialEq, Eq)]
pub struct GachaEventId(pub String);

impl GachaEventId {
    pub fn new() -> Self {
        GachaEventId(fresh_uuid_string())
    }
}

#[derive(Clone, Debug, PartialEq, Eq)]
pub struct GiftId(pub String);

impl GiftId {
    pub fn new() -> Self {
        GiftId(fresh_uuid_string())
    }

    /// A copy of this id, with the same characters.
    pub fn duplicate(&self) -> (r: GiftId)
        ensures
            r == *self,
    {
        GiftId(self.0.clone())
    }
}

#[derive(Clone, Debug, PartialEq, Eq)]
pub struct JankenEventId(pub String);

impl JankenEventId {
    pub fn new() -> Self {
        JankenEventId(fresh_uuid_string())
    }

    /// A copy of this id, with the same characters.
    pub fn duplicate(&self) -> (r: JankenEventId)
        ensures
            r == *self,
    {
        JankenEventId(self.0.clone())
    }
}

/// Identifier of an uploaded image object.
#[derive(Clone, Debug, PartialEq, Eq)]
pub struct ImageId(pub String);

impl ImageId {
    pub fn new() -> Self {
        ImageId(fresh_uuid_string())
    }
}

} // verus!
