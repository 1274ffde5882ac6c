//! Error taxonomy shared by every operation of the core.

use vstd::prelude::*;

verus! {

/// The four failure classes of the core: policy violations, failed
/// authentication, missing entities, and storage or consistency faults.
#[derive(Clone, Copy, Debug, PartialEq, Eq, Structural)]
pub enum ErrorKind {
    BadRequest,
    Unauthorized,
    NotFound,
    Internal,
}

/// An operation failure: a class plus a short human-readable message.
#[derive(Clone, Copy, Debug, PartialEq, Eq)]
pub struct ServiceError {
    pub kind: ErrorKind,
    pub message: &'static str,
}

impl ServiceError {
    pub fn bad_request(message: &'static str) -> (r: ServiceError)
        ensures
            r.kind == ErrorKind::BadRequest,
            r.message@ == message@,
    {
        ServiceError { kind: ErrorKind::BadRequest, message }
    }

    pub fn unauthorized(message: &'static str) -> (r: ServiceError)
        ensures
            r.kind == ErrorKind::Unauthorized,
            r.message@ == message@,
    {
        ServiceError { kind: ErrorKind::Unauthorized, message }
    }

    pub fn not_found(message: &'static str) -> (r: ServiceError)
        ensures
            r.kind == ErrorKind::NotFound,
            r.message@ == message@,
    {
        ServiceError { kind: ErrorKind::NotFound, message }
    }

    pub fn internal_server_error(message: &'static str) -> (r: ServiceError)
        ensures
            r.kind == ErrorKind::Internal,
            r.message@ == message@,
    {
        ServiceError { kind: ErrorKind::Internal, message }
    }
}

/// The propagation rule for read-before-write flows where absence is an
/// expected branch (no draw on record yet, no prior snapshot, no such user
/// yet): a store-level `NotFound` becomes a domain-level "absent"; every
/// other error propagates as it is.
pub fn not_found_as_absent<T>(r: Result<T, ServiceError>) -> (out: Result<
    Option<T>,
    ServiceError,
>)
    ensures
        match r {
            Ok(v) => out == Ok::<Option<T>, ServiceError>(Some(v)),
            Err(e) => if e.kind == ErrorKind::NotFound {
                out == Ok::<Option<T>, ServiceError>(None::<T>)
            } else {
                out == Err::<Option<T>, ServiceError>(e)
            },
        },
{
    match r {
        Ok(v) => Ok(Some(v)),
        Err(e) => {
            if e.kind == ErrorKind::NotFound {
                Ok(None)
            } else {
                Err(e)
            }
        },
    }
}

} // verus!
