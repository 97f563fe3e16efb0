//! Answering a request for a stored file.

use vstd::prelude::*;
use vstd::string::StringExecFns;
use crate::codec::Policy;
use crate::status::Status;
use crate::stream::{header_views, response_headers, stream, stream_headers, Header, StreamCursor, StreamPlan};
use crate::text::ends_with;
use crate::uploads::is_model_file;

verus! {

/// What storage answered when a file was opened.
#[derive(Clone, Copy, Debug, PartialEq, Eq, Structural)]
pub enum Opened {
    /// The file could not be opened.
    Missing,
    /// The file was opened, but its size could not be read.
    Unreadable,
    /// The file was opened and holds this many bytes.
    Size(u64),
}

/// Whether a file of this name and size is refused: a model file must hold
/// whole point records.
pub open spec fn is_refused(filename: Seq<char>, size: nat) -> bool {
    is_model_file(filename) && size % 24 != 0
}

/// What a request for a stored model file is answered with.
pub open spec fn file_answer(filename: Seq<char>, opened: Opened, r: Result<StreamPlan, Status>) -> bool {
    match opened {
        Opened::Missing => r == Err::<StreamPlan, Status>(Status::NotFound),
        Opened::Unreadable => r == Err::<StreamPlan, Status>(Status::InternalServerError),
        Opened::Size(size) => if is_refused(filename, size as nat) {
            r == Err::<StreamPlan, Status>(Status::BadRequest)
        } else {
            &&& r is Ok
            &&& r->Ok_0.content_length == size
            &&& header_views(r->Ok_0.headers@) == stream_headers(size as nat)
            &&& r->Ok_0.cursor.wf()
            &&& r->Ok_0.cursor.limit() == size
            &&& r->Ok_0.cursor.seen() == Seq::<u8>::empty()
        },
    }
}

/// Answers a request for a file of the models folder. A file that cannot be
/// opened is not found; one whose size cannot be read is an internal error.
/// A model file that holds a partial point record is refused as a bad
/// request, and never served cut short. Any other file is streamed whole,
/// with its size as the announced length.
pub fn get_file(filename: &str, opened: Opened) -> (r: Result<StreamPlan, Status>)
    ensures
        file_answer(filename@, opened, r),
{
    match opened {
        Opened::Missing => Err(Status::NotFound),
        Opened::Unreadable => Err(Status::InternalServerError),
        Opened::Size(size) => {
            if ends_with(filename, ".splat") {
                match stream(size, Policy::Strict) {
                    Ok(plan) => {
                        proof {
                            let n = size as nat;
                            assert(((n / 24) * 24 == n) <==> (n % 24 == 0)) by (nonlinear_arith);
                        }
                        Ok(plan)
                    },
                    Err(_) => {
                        proof {
                            let n = size as nat;
                            assert(((n / 24) * 24 == n) <==> (n % 24 == 0)) by (nonlinear_arith);
                        }
                        Err(Status::BadRequest)
                    },
                }
            } else {
                Ok(
                    StreamPlan {
                        content_length: size,
                        headers: response_headers(size),
                        cursor: StreamCursor::new(size),
                    },
                )
            }
        },
    }
}

/// The headers that a photo is served with.
pub open spec fn photo_headers() -> Seq<(Seq<char>, Seq<char>)> {
    seq![("Content-Type"@, "application/octet-stream"@)]
}

/// Answers a request for a file of the photos folder, given whether it could
/// be opened: the file is sent whole, or it is not found.
pub fn get_photo_file(opened: bool) -> (r: Result<Vec<Header>, Status>)
    ensures
        opened ==> r is Ok && header_views(r->Ok_0@) == photo_headers(),
        !opened ==> r == Err::<Vec<Header>, Status>(Status::NotFound),
{
    if opened {
        let mut headers: Vec<Header> = Vec::new();
        headers.push(
            Header {
                name: String::from_str("Content-Type"),
                value: String::from_str("application/octet-stream"),
            },
        );
        assert(header_views(headers@) =~= photo_headers());
        Ok(headers)
    } else {
        Err(Status::NotFound)
    }
}

} // verus!
