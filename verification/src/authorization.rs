//! The authenticated caller, as handed over by the (external) token verifier.

use crate::error::{ErrorKind, ServiceError};
use crate::text::str_eq;
use vstd::prelude::*;
use vstd::string::StringExecFns;

verus! {

/// A role granted to a caller.
#[derive(Clone, Copy, Debug, PartialEq, Eq, Structural)]
pub enum Role {
    Unknown,
    Admin,
}

impl Role {
    /// Parse a role label; anything unrecognised is `Unknown`.
    pub fn from_str(rep: &str) -> (r: Role)
        ensures
            rep@ == "admin"@ ==> r == Role::Admin,
            rep@ != "admin"@ ==> r == Role::Unknown,
    {
        if str_eq(rep, "admin") {
            Role::Admin
        } else {
            Role::Unknown
        }
    }

    /// The wire label of this role.
    pub open spec fn label(self) -> Seq<char> {
        match self {
            Role::Unknown => "unknown"@,
            Role::Admin => "admin"@,
        }
    }

    pub fn to_string(&self) -> (r: String)
        ensures
            r@ == self.label(),
    {
        match self {
            Role::Unknown => String::from_str("unknown"),
            Role::Admin => String::from_str("admin"),
        }
    }
}

/// The verified identity of a caller: the token subject and granted roles.
#[derive(Clone, Debug)]
pub struct AuthUser {
    pub subject: String,
    pub roles: Vec<Role>,
}

impl AuthUser {
    /// Admit only callers holding the admin role.
    pub fn require_admin(&self) -> (r: Result<(), ServiceError>)
        ensures
            r is Ok <==> self.roles@.contains(Role::Admin),
            r matches Err(e) ==> e.kind == ErrorKind::Unauthorized,
    {
        let mut i: usize = 0;
        while i < self.roles.len()
            invariant
                i <= self.roles@.len(),
                forall|j: int| 0 <= j < i ==> self.roles@[j] != Role::Admin,
            decreases self.roles@.len() - i,
        {
            if self.roles[i] == Role::Admin {
                return Ok(());
            }
            i += 1;
        }
        Err(ServiceError::unauthorized("access denied"))
    }
}

/// The result of authenticating a request, carried into each operation that
/// needs an actor: either the caller's identity or the failure to establish
/// it.
pub struct Authorization {
    pub result: Result<AuthUser, ServiceError>,
}

impl Authorization {
    pub fn new(result: Result<AuthUser, ServiceError>) -> (r: Authorization)
        ensures
            r.result == result,
    {
        Authorization { result }
    }

    /// Demand an authenticated caller, surfacing the verifier's error
    /// otherwise.
    pub fn require_auth(self) -> (r: Result<AuthUser, ServiceError>)
        ensures
            r == self.result,
    {
        self.result
    }
}

} // verus!
