//! Point-record alignment: a buffer of packed point records is cut down to a
//! whole number of records.

use vstd::prelude::*;

verus! {

/// Size in bytes of one point record: six packed 32-bit floats (x, y, z, r, g, b).
pub const RECORD_SIZE: usize = 24;

/// Number of whole point records in a buffer of `len` bytes.
pub open spec fn point_count(len: nat) -> nat {
    len / 24
}

/// Length in bytes of the longest prefix that holds only whole records.
pub open spec fn aligned_len(len: nat) -> nat {
    point_count(len) * 24
}

/// Bytes that trail the last whole record.
pub open spec fn dropped_len(len: nat) -> nat {
    (len - aligned_len(len)) as nat
}

/// The aligned prefix of a buffer.
pub open spec fn aligned_prefix(buffer: Seq<u8>) -> Seq<u8> {
    buffer.subrange(0, aligned_len(buffer.len()) as int)
}

/// What `align` hands back: the aligned bytes, the number of whole records in
/// them, and the number of trailing bytes that were cut off.
pub struct Aligned {
    pub aligned: Vec<u8>,
    pub point_count: u64,
    pub dropped_bytes: u32,
}

impl Aligned {
    /// Length in bytes of the aligned buffer.
    pub fn aligned_length(&self) -> (n: usize)
        ensures
            n == self.aligned@.len(),
    {
        self.aligned.len()
    }

    /// Whether bytes were cut off, which callers report as a diagnostic.
    pub fn truncated(&self) -> (b: bool)
        ensures
            b == (self.dropped_bytes > 0),
    {
        self.dropped_bytes > 0
    }
}

impl View for Aligned {
    type V = (Seq<u8>, nat, nat);

    open spec fn view(&self) -> (Seq<u8>, nat, nat) {
        (self.aligned@, self.point_count as nat, self.dropped_bytes as nat)
    }
}

/// The alignment of a buffer: its aligned prefix, the number of whole
/// records, and the number of bytes dropped.
pub open spec fn alignment(buffer: Seq<u8>) -> (Seq<u8>, nat, nat) {
    (aligned_prefix(buffer), point_count(buffer.len()), dropped_len(buffer.len()))
}

/// Cuts a buffer down to its whole records. Never fails: the trailing bytes
/// of a partial record are discarded and counted.
pub fn align(buffer: Vec<u8>) -> (r: Aligned)
    ensures
        r@ == alignment(buffer@),
        r.aligned@.len() % 24 == 0,
        r.aligned@.len() == r.point_count * 24,
        r.aligned@.len() + r.dropped_bytes == buffer@.len(),
        r.dropped_bytes < 24,
{
    let mut data = buffer;
    let total: usize = data.len();
    let points: usize = total / RECORD_SIZE;
    let keep: usize = points * RECORD_SIZE;
    let dropped: usize = total - keep;
    data.truncate(keep);
    Aligned { aligned: data, point_count: points as u64, dropped_bytes: dropped as u32 }
}

/// The aligned part of any buffer holds a whole number of records, and is
/// as long as the record count says.
pub proof fn lemma_aligned_len_is_multiple(buffer: Seq<u8>)
    ensures
        alignment(buffer).0.len() % 24 == 0,
        alignment(buffer).0.len() == alignment(buffer).1 * 24,
        alignment(buffer).0.len() + alignment(buffer).2 == buffer.len(),
        alignment(buffer).2 < 24,
{
    let n = buffer.len();
    assert((n / 24) * 24 <= n) by (nonlinear_arith);
    assert(((n / 24) * 24) % 24 == 0) by (nonlinear_arith);
    assert(n - (n / 24) * 24 < 24) by (nonlinear_arith);
}

/// A buffer shorter than one record aligns to the empty buffer: no record
/// is counted, and every byte of it is dropped.
pub proof fn lemma_short_buffer(buffer: Seq<u8>)
    requires
        buffer.len() < 24,
    ensures
        alignment(buffer) == (Seq::<u8>::empty(), 0nat, buffer.len()),
{
    assert(aligned_prefix(buffer) =~= Seq::<u8>::empty());
}

/// A buffer that already holds whole records is left as it is: all of it
/// is kept, and nothing is dropped.
pub proof fn lemma_aligned_buffer_unchanged(buffer: Seq<u8>)
    requires
        buffer.len() % 24 == 0,
    ensures
        alignment(buffer) == (buffer, buffer.len() / 24, 0nat),
{
    let n = buffer.len();
    assert((n / 24) * 24 == n) by (nonlinear_arith)
        requires
            n % 24 == 0,
    ;
    assert(aligned_prefix(buffer) =~= buffer);
}

/// Aligning what was aligned changes nothing more: the bytes and the record
/// count stay, and the second pass drops no byte.
pub proof fn lemma_align_idempotent(buffer: Seq<u8>)
    ensures
        alignment(alignment(buffer).0) == (alignment(buffer).0, alignment(buffer).1, 0nat),
{
    lemma_aligned_len_is_multiple(buffer);
    lemma_aligned_buffer_unchanged(aligned_prefix(buffer));
    let n = buffer.len();
    assert(((n / 24) * 24) / 24 == n / 24) by (nonlinear_arith);
}

/// Where the first pass drops nothing, aligning again gives the very same
/// result: bytes, record count and dropped bytes.
pub proof fn lemma_realign_same(buffer: Seq<u8>)
    requires
        alignment(buffer).2 == 0,
    ensures
        alignment(alignment(buffer).0) == alignment(buffer),
{
    lemma_align_idempotent(buffer);
}

/// How a stored file whose length is not a whole number of records is
/// treated when it is read back.
#[derive(Clone, Copy, Debug, PartialEq, Eq, Structural)]
pub enum Policy {
    /// Refuse the file.
    Strict,
    /// Serve the aligned prefix only.
    Lenient,
}

/// Why a stored asset cannot be served.
#[derive(Clone, Copy, Debug, PartialEq, Eq, Structural)]
pub enum AlignmentError {
    /// The file holds a partial record: `expected_size` is the length of its
    /// aligned prefix.
    Misaligned { file_size: u64, expected_size: u64 },
}

/// Size and record count of a stored asset that may be served.
#[derive(Clone, Copy, Debug, PartialEq, Eq, Structural)]
pub struct AssetInfo {
    pub file_size: u64,
    pub point_count: u64,
}

impl AssetInfo {
    /// Bytes that are served: the whole records of the file.
    pub open spec fn spec_aligned_size(self) -> nat {
        (self.point_count * 24) as nat
    }

    /// Whether the record count is the one that the file size gives.
    pub open spec fn wf(self) -> bool {
        self.point_count == point_count(self.file_size as nat)
    }

    /// Bytes that are served: the whole records of the file.
    pub fn aligned_size(&self) -> (n: u64)
        requires
            self.wf(),
        ensures
            n == self.spec_aligned_size(),
            n == aligned_len(self.file_size as nat),
            n <= self.file_size,
            n % 24 == 0,
    {
        proof {
            let f = self.file_size as nat;
            assert((f / 24) * 24 <= f) by (nonlinear_arith);
            assert(((f / 24) * 24) % 24 == 0) by (nonlinear_arith);
        }
        self.point_count * 24
    }
}

/// What validating a stored file of `file_size` bytes gives under `policy`.
pub open spec fn validated(file_size: nat, policy: Policy) -> Result<AssetInfo, AlignmentError> {
    if file_size != aligned_len(file_size) && policy == Policy::Strict {
        Err(
            AlignmentError::Misaligned {
                file_size: file_size as u64,
                expected_size: aligned_len(file_size) as u64,
            },
        )
    } else {
        Ok(AssetInfo { file_size: file_size as u64, point_count: point_count(file_size) as u64 })
    }
}

/// Checks a stored file by its length alone before it is served. Under the
/// strict policy a file with a partial record is refused; under the lenient
/// one it is accepted and its aligned prefix is what gets served.
pub fn validate_stored_asset(file_size: u64, policy: Policy) -> (r: Result<
    AssetInfo,
    AlignmentError,
>)
    ensures
        r == validated(file_size as nat, policy),
        r is Err <==> (policy == Policy::Strict && file_size % 24 != 0),
        r is Ok ==> r->Ok_0.wf() && r->Ok_0.file_size == file_size,
{
    let points: u64 = file_size / 24;
    let expected: u64 = points * 24;
    proof {
        let f = file_size as nat;
        assert((f / 24) * 24 <= f) by (nonlinear_arith);
        assert(((f / 24) * 24 == f) <==> (f % 24 == 0)) by (nonlinear_arith);
    }
    let strict: bool = match policy {
        Policy::Strict => true,
        Policy::Lenient => false,
    };
    if file_size != expected && strict {
        Err(AlignmentError::Misaligned { file_size, expected_size: expected })
    } else {
        Ok(AssetInfo { file_size, point_count: points })
    }
}

} // verus!
