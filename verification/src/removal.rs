//! Deleting a stored record by its identifier.

use vstd::prelude::*;
use crate::ids::{parsed_id, ObjectId};
use crate::status::Status;

verus! {

/// Reads the identifier of the record to delete from the request path. A
/// text that is no identifier is a bad request, and nothing is deleted.
pub fn deletion_target(id: &str) -> (r: Result<ObjectId, Status>)
    ensures
        match parsed_id(id@) {
            Some(bytes) => r is Ok && r->Ok_0@ == bytes,
            None => r == Err::<ObjectId, Status>(Status::BadRequest),
        },
{
    match ObjectId::parse_str(id) {
        Ok(target) => Ok(target),
        Err(_) => Err(Status::BadRequest),
    }
}

/// What a deletion is answered with, given the number of records that the
/// store deleted, or `None` where it failed.
pub open spec fn deletion_answer(deleted: Option<u64>) -> Result<Status, Status> {
    match deleted {
        Some(n) => if n == 1 {
            Ok(Status::NoContent)
        } else {
            Err(Status::NotFound)
        },
        None => Err(Status::InternalServerError),
    }
}

/// Answers a deletion: done where exactly one record went, not found where
/// none did, an internal error where the store failed.
pub fn deletion_outcome(deleted: Option<u64>) -> (r: Result<Status, Status>)
    ensures
        r == deletion_answer(deleted),
{
    match deleted {
        Some(n) => {
            if n == 1 {
                Ok(Status::NoContent)
            } else {
                Err(Status::NotFound)
            }
        },
        None => Err(Status::InternalServerError),
    }
}

} // verus!
