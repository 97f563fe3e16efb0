//! Serving a stored asset: the response headers, and the cursor that cuts the
//! chunks read from storage down to the bytes that may be sent.

use vstd::prelude::*;
use vstd::string::StringExecFns;
use crate::codec::{aligned_len, validate_stored_asset, validated, AlignmentError, Policy};
use crate::text::{decimal, decimal_digits};

verus! {

/// One response header.
pub struct Header {
    pub name: String,
    pub value: String,
}

impl View for Header {
    type V = (Seq<char>, Seq<char>);

    open spec fn view(&self) -> (Seq<char>, Seq<char>) {
        (self.name@, self.value@)
    }
}

/// The headers of a streamed asset whose body is `content_length` bytes long.
/// Byte ranges are not honoured, so no header advertises them.
pub open spec fn stream_headers(content_length: nat) -> Seq<(Seq<char>, Seq<char>)> {
    seq![
        ("Content-Type"@, "application/octet-stream"@),
        ("Content-Length"@, decimal_digits(content_length)),
        ("Access-Control-Allow-Origin"@, "*"@),
        ("Cache-Control"@, "no-cache, no-transform"@),
        ("Pragma"@, "no-cache"@),
        ("Content-Transfer-Encoding"@, "binary"@),
        ("Cross-Origin-Resource-Policy"@, "cross-origin"@),
    ]
}

/// The views of a list of headers, in order.
pub open spec fn header_views(headers: Seq<Header>) -> Seq<(Seq<char>, Seq<char>)> {
    Seq::new(headers.len(), |i: int| headers[i]@)
}

fn header(name: &str, value: String) -> (h: Header)
    ensures
        h@ == (name@, value@),
{
    Header { name: String::from_str(name), value }
}

/// Builds the headers of a streamed asset.
pub fn response_headers(content_length: u64) -> (headers: Vec<Header>)
    ensures
        header_views(headers@) == stream_headers(content_length as nat),
{
    let mut headers: Vec<Header> = Vec::new();
    headers.push(header("Content-Type", String::from_str("application/octet-stream")));
    headers.push(header("Content-Length", decimal(content_length)));
    headers.push(header("Access-Control-Allow-Origin", String::from_str("*")));
    headers.push(header("Cache-Control", String::from_str("no-cache, no-transform")));
    headers.push(header("Pragma", String::from_str("no-cache")));
    headers.push(header("Content-Transfer-Encoding", String::from_str("binary")));
    headers.push(header("Cross-Origin-Resource-Policy", String::from_str("cross-origin")));
    assert(header_views(headers@) =~= stream_headers(content_length as nat));
    headers
}

/// The first `limit` bytes of `bytes`, or all of them where there are fewer.
pub open spec fn cut(bytes: Seq<u8>, limit: nat) -> Seq<u8> {
    if limit < bytes.len() {
        bytes.subrange(0, limit as int)
    } else {
        bytes
    }
}

/// Tracks how much of an asset has been sent while its chunks arrive from
/// storage one by one, and stops the body at the byte limit.
pub struct StreamCursor {
    limit: u64,
    sent: u64,
    seen: Ghost<Seq<u8>>,
}

impl StreamCursor {
    /// The most bytes that the body may hold.
    pub closed spec fn limit(&self) -> nat {
        self.limit as nat
    }

    /// All bytes handed to the cursor so far, in order.
    pub closed spec fn seen(&self) -> Seq<u8> {
        self.seen@
    }

    /// All bytes released by the cursor so far, in order.
    pub open spec fn emitted(&self) -> Seq<u8> {
        cut(self.seen(), self.limit())
    }

    /// The cursor's count agrees with what it has released.
    pub closed spec fn wf(&self) -> bool {
        self.sent as nat == cut(self.seen@, self.limit as nat).len()
    }

    /// A cursor at the start of a body of at most `limit` bytes.
    pub fn new(limit: u64) -> (c: StreamCursor)
        ensures
            c.wf(),
            c.limit() == limit,
            c.seen() == Seq::<u8>::empty(),
    {
        StreamCursor { limit, sent: 0, seen: Ghost(Seq::empty()) }
    }

    /// Bytes that may still be sent.
    pub fn remaining(&self) -> (n: u64)
        requires
            self.wf(),
        ensures
            n == self.limit() - self.emitted().len(),
    {
        self.limit - self.sent
    }

    /// Whether the body is complete, so that reading can stop.
    pub fn is_done(&self) -> (b: bool)
        requires
            self.wf(),
        ensures
            b == (self.emitted().len() == self.limit()),
    {
        self.sent == self.limit
    }

    /// Takes the next chunk read from storage and returns the part of it that
    /// belongs to the body: all of it while the limit is not reached, the
    /// part up to the limit when the chunk crosses it, nothing after that.
    pub fn admit_chunk(&mut self, chunk: Vec<u8>) -> (out: Vec<u8>)
        requires
            old(self).wf(),
        ensures
            final(self).wf(),
            final(self).limit() == old(self).limit(),
            final(self).seen() == old(self).seen() + chunk@,
            final(self).emitted() == old(self).emitted() + out@,
            out@ == cut(chunk@, (old(self).limit() - old(self).emitted().len()) as nat),
    {
        let room: u64 = self.limit - self.sent;
        let mut out = chunk;
        let ghost before = self.seen@;
        let ghost whole = out@;
        if out.len() as u64 > room {
            out.truncate(room as usize);
        }
        self.sent = self.sent + out.len() as u64;
        self.seen = Ghost(before + whole);
        proof {
            let lim = self.limit as nat;
            assert(cut(before + whole, lim) =~= cut(before, lim) + out@);
        }
        out
    }
}

/// What is needed to answer a request for a stored asset: the body length,
/// the headers, and the cursor that bounds the body.
pub struct StreamPlan {
    pub content_length: u64,
    pub headers: Vec<Header>,
    pub cursor: StreamCursor,
}

/// Plans the streaming of a stored file of `file_size` bytes. A file that
/// validation refuses gives its error and no plan. Otherwise the body is the
/// aligned prefix of the file, and the announced length is the length of that
/// prefix, not of the file.
pub fn stream(file_size: u64, policy: Policy) -> (r: Result<StreamPlan, AlignmentError>)
    ensures
        match validated(file_size as nat, policy) {
            Err(e) => r == Err::<StreamPlan, AlignmentError>(e),
            Ok(info) => {
                &&& r is Ok
                &&& r->Ok_0.content_length == aligned_len(file_size as nat)
                &&& header_views(r->Ok_0.headers@) == stream_headers(aligned_len(file_size as nat))
                &&& r->Ok_0.cursor.wf()
                &&& r->Ok_0.cursor.limit() == aligned_len(file_size as nat)
                &&& r->Ok_0.cursor.seen() == Seq::<u8>::empty()
            },
        },
{
    match validate_stored_asset(file_size, policy) {
        Err(e) => Err(e),
        Ok(info) => {
            let length: u64 = info.aligned_size();
            Ok(
                StreamPlan {
                    content_length: length,
                    headers: response_headers(length),
                    cursor: StreamCursor::new(length),
                },
            )
        },
    }
}

} // verus!
