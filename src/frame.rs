//! The transfer frame: the unit of the chunked file-streaming protocol.

use vstd::prelude::*;

verus! {

/// Largest payload carried by one chunk frame, in bytes.
pub const CHUNK_SIZE: usize = 4096;

/// Code of the error frame sent when a source file cannot be read.
pub const READ_FAILURE_CODE: i32 = 1;

/// One unit of a file transfer stream, in either direction.
pub enum TransferFrame {
    /// Identifies the transfer: which task and which file.
    Metadata { task_id: String, path: String },
    /// A run of file bytes, at most `CHUNK_SIZE` long.
    Chunk(Vec<u8>),
    /// The sending side gave up mid-stream.
    Error(i32),
}

/// Why a file transfer did not complete.
#[derive(PartialEq, Eq, Structural, Clone, Copy, Debug)]
pub enum TransferError {
    /// The remote side sent an error frame with this code.
    RemoteAborted(i32),
    /// The local source file could not be read to the end.
    SourceUnreadable,
    /// The stream was asked for its outcome before it had ended.
    Unfinished,
}

/// The file bytes a frame carries: a chunk's payload, nothing otherwise.
pub open spec fn frame_payload(f: TransferFrame) -> Seq<u8> {
    match f {
        TransferFrame::Chunk(data) => data@,
        _ => Seq::empty(),
    }
}

/// The concatenation, in order, of the chunk payloads of a frame sequence.
pub open spec fn chunk_bytes(frames: Seq<TransferFrame>) -> Seq<u8>
    decreases frames.len(),
{
    if frames.len() == 0 {
        Seq::empty()
    } else {
        chunk_bytes(frames.drop_last()) + frame_payload(frames.last())
    }
}

/// How many chunk frames a frame sequence holds.
pub open spec fn chunk_count(frames: Seq<TransferFrame>) -> nat
    decreases frames.len(),
{
    if frames.len() == 0 {
        0
    } else {
        chunk_count(frames.drop_last()) + if frames.last() is Chunk { 1nat } else { 0nat }
    }
}

/// The number of chunks needed for `size` bytes: the size divided by the
/// chunk size, rounded up.
pub open spec fn chunks_needed(size: nat) -> nat {
    ((size + CHUNK_SIZE - 1) / (CHUNK_SIZE as int)) as nat
}

/// Where the chunk that starts at `start` ends, for `len` bytes in all.
pub open spec fn chunk_end(start: int, len: int) -> int {
    if start + CHUNK_SIZE < len { start + CHUNK_SIZE } else { len }
}

/// Stepping from one chunk boundary to the next adds one chunk.
pub proof fn lemma_chunks_needed_step(k: int, start: int, len: int)
    requires
        0 <= k,
        start == k * CHUNK_SIZE,
        start < len,
    ensures
        chunks_needed(chunk_end(start, len) as nat) == k + 1,
        chunk_end(start, len) < len ==> chunk_end(start, len) == (k + 1) * CHUNK_SIZE,
        start < chunk_end(start, len) <= len,
{
    let end = chunk_end(start, len);
    assert((k + 1) * 4096 == k * 4096 + 4096) by (nonlinear_arith);
    assert(((end + 4095) / 4096) == k + 1) by (nonlinear_arith)
        requires
            end == k * 4096 + (end - start),
            0 < end - start <= 4096,
            k >= 0,
    ;
}

/// Copies `data[start..end]` into a fresh vector.
pub(crate) fn copy_range(data: &[u8], start: usize, end: usize) -> (r: Vec<u8>)
    requires
        start <= end <= data@.len(),
    ensures
        r@ == data@.subrange(start as int, end as int),
{
    let mut r: Vec<u8> = Vec::new();
    let mut j: usize = start;
    while j < end
        invariant
            start <= j <= end <= data@.len(),
            r@ == data@.subrange(start as int, j as int),
        decreases end - j,
    {
        r.push(data[j]);
        j = j + 1;
    }
    r
}

/// Splits `data` into consecutive runs of `CHUNK_SIZE` bytes, the last one
/// possibly shorter. Empty input gives no runs.
pub fn split_chunks(data: &[u8]) -> (r: Vec<Vec<u8>>)
    ensures
        r@.len() == chunks_needed(data@.len()),
        forall|i: int| 0 <= i < r@.len() ==> 0 < (#[trigger] r@[i])@.len() <= CHUNK_SIZE,
        forall|i: int|
            0 <= i < r@.len() ==> (#[trigger] r@[i])@ == data@.subrange(
                i * CHUNK_SIZE,
                chunk_end(i * CHUNK_SIZE, data@.len() as int),
            ),
{
    let mut r: Vec<Vec<u8>> = Vec::new();
    let mut start: usize = 0;
    while start < data.len()
        invariant
            start <= data@.len(),
            start < data@.len() ==> start == r@.len() * CHUNK_SIZE,
            r@.len() == chunks_needed(start as nat),
            forall|i: int| 0 <= i < r@.len() ==> 0 < (#[trigger] r@[i])@.len() <= CHUNK_SIZE,
            forall|i: int|
                0 <= i < r@.len() ==> (#[trigger] r@[i])@ == data@.subrange(
                    i * CHUNK_SIZE,
                    chunk_end(i * CHUNK_SIZE, data@.len() as int),
                ),
        decreases data@.len() - start,
    {
        let end: usize = if data.len() - start > CHUNK_SIZE {
            start + CHUNK_SIZE
        } else {
            data.len()
        };
        proof {
            lemma_chunks_needed_step(r@.len() as int, start as int, data@.len() as int);
        }
        let chunk = copy_range(data, start, end);
        r.push(chunk);
        start = end;
    }
    r
}

/// The error code of the earliest error frame of a sequence, if any.
pub open spec fn first_error(frames: Seq<TransferFrame>) -> Option<i32>
    decreases frames.len(),
{
    if frames.len() == 0 {
        None
    } else if first_error(frames.drop_last()) is Some {
        first_error(frames.drop_last())
    } else {
        match frames.last() {
            TransferFrame::Error(c) => Some(c),
            _ => None,
        }
    }
}

/// The chunk bytes that come before the earliest error frame: all of them
/// when there is none.
pub open spec fn bytes_before_error(frames: Seq<TransferFrame>) -> Seq<u8>
    decreases frames.len(),
{
    if frames.len() == 0 {
        Seq::empty()
    } else if first_error(frames.drop_last()) is Some {
        bytes_before_error(frames.drop_last())
    } else {
        bytes_before_error(frames.drop_last()) + frame_payload(frames.last())
    }
}

/// A sequence with no error frame in it has no first error.
pub proof fn lemma_no_error_frame(frames: Seq<TransferFrame>)
    requires
        forall|i: int| 0 <= i < frames.len() ==> !(#[trigger] frames[i] is Error),
    ensures
        first_error(frames) is None,
    decreases frames.len(),
{
    if frames.len() > 0 {
        let rest = frames.drop_last();
        assert forall|i: int| 0 <= i < rest.len() implies !(#[trigger] rest[i] is Error) by {
            assert(rest[i] == frames[i]);
        }
        lemma_no_error_frame(rest);
        assert(!(frames[frames.len() - 1] is Error));
    }
}

/// Without an error frame, the bytes before the error are all chunk bytes.
pub proof fn lemma_no_error_all_bytes(frames: Seq<TransferFrame>)
    requires
        first_error(frames) is None,
    ensures
        bytes_before_error(frames) == chunk_bytes(frames),
    decreases frames.len(),
{
    if frames.len() > 0 {
        lemma_no_error_all_bytes(frames.drop_last());
    }
}

/// Chunk bytes distribute over concatenation.
pub proof fn lemma_chunk_bytes_concat(a: Seq<TransferFrame>, b: Seq<TransferFrame>)
    ensures
        chunk_bytes(a + b) == chunk_bytes(a) + chunk_bytes(b),
        chunk_count(a + b) == chunk_count(a) + chunk_count(b),
    decreases b.len(),
{
    if b.len() == 0 {
        assert(a + b =~= a);
        assert(chunk_bytes(a) + chunk_bytes(b) =~= chunk_bytes(a));
    } else {
        lemma_chunk_bytes_concat(a, b.drop_last());
        assert((a + b).drop_last() =~= a + b.drop_last());
        assert(chunk_bytes(a) + chunk_bytes(b.drop_last()) + frame_payload(b.last())
            =~= chunk_bytes(a) + (chunk_bytes(b.drop_last()) + frame_payload(b.last())));
    }
}

/// Appending a frame appends its payload to the chunk bytes.
pub proof fn lemma_chunk_bytes_push(frames: Seq<TransferFrame>, f: TransferFrame)
    ensures
        chunk_bytes(frames.push(f)) == chunk_bytes(frames) + frame_payload(f),
        chunk_count(frames.push(f)) == chunk_count(frames) + if f is Chunk { 1nat } else { 0nat },
{
    assert(frames.push(f).drop_last() =~= frames);
}

} // verus!
