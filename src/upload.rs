//! The sending side of a file transfer: frames the bytes of a local file and
//! hashes them as they go out.

use vstd::prelude::*;
use crate::checksum::{absorb, blake3_digest, digest_of, hashed_input, new_hasher};
use crate::frame::{
    chunk_bytes, chunk_count, chunk_end, chunks_needed, frame_payload, copy_range, lemma_chunk_bytes_concat,
    lemma_chunk_bytes_push, lemma_no_error_frame, first_error,
    bytes_before_error, lemma_no_error_all_bytes,
    lemma_chunks_needed_step, TransferError, TransferFrame, CHUNK_SIZE, READ_FAILURE_CODE,
};

verus! {

/// What one read of the source file produced.
pub enum ReadOutcome {
    /// Bytes read; an empty run means the end of the file.
    Data(Vec<u8>),
    /// The end of the file.
    End,
    /// The read failed.
    Failed,
}

/// Where an upload stands.
#[derive(PartialEq, Eq, Structural, Clone, Copy, Debug)]
pub enum UploadPhase {
    Streaming,
    Finished,
    Aborted,
}

/// An upload in progress: the metadata frame has gone out, and every chunk
/// handed out since has been folded into the running checksum.
pub struct UploadStream {
    hasher: blake3::Hasher,
    phase: UploadPhase,
}

/// True when the frames are the chunk frames of `data` in order: frame `i`
/// carries bytes `i * CHUNK_SIZE` up to the next chunk boundary or the end.
pub open spec fn chunks_of(frames: Seq<TransferFrame>, data: Seq<u8>) -> bool {
    forall|i: int|
        0 <= i < frames.len() ==> match #[trigger] frames[i] {
            TransferFrame::Chunk(c) => c@ == data.subrange(
                i * CHUNK_SIZE,
                chunk_end(i * CHUNK_SIZE, data.len() as int),
            ),
            _ => false,
        }
}

/// True when the frames are all chunk frames, each non-empty and at most
/// `CHUNK_SIZE` bytes long.
pub open spec fn all_bounded_chunks(frames: Seq<TransferFrame>) -> bool {
    forall|i: int|
        0 <= i < frames.len() ==> match #[trigger] frames[i] {
            TransferFrame::Chunk(d) => 0 < d@.len() <= CHUNK_SIZE,
            _ => false,
        }
}

impl UploadStream {
    /// The bytes sent in chunk frames so far.
    pub closed spec fn sent(&self) -> Seq<u8> {
        hashed_input(self.hasher)
    }

    pub closed spec fn phase(&self) -> UploadPhase {
        self.phase
    }

    /// Starts an upload of `path` for task `task_id`: returns the stream and
    /// the metadata frame that opens it.
    pub fn open(task_id: String, path: String) -> (r: (UploadStream, TransferFrame))
        ensures
            r.0.sent() == Seq::<u8>::empty(),
            r.0.phase() == UploadPhase::Streaming,
            r.1 == (TransferFrame::Metadata { task_id, path }),
    {
        let stream = UploadStream { hasher: new_hasher(), phase: UploadPhase::Streaming };
        (stream, TransferFrame::Metadata { task_id, path })
    }

    /// Takes the outcome of one read of the source file and returns the
    /// frames to send for it. Bytes go out as chunk frames of at most
    /// `CHUNK_SIZE` bytes and are hashed as they go; the end of the file
    /// finishes the upload; a failed read sends one error frame and aborts it,
    /// and an aborted upload is a failure for its caller (see `finish`).
    /// Once the upload is over nothing more is sent.
    pub fn on_read(&mut self, outcome: ReadOutcome) -> (frames: Vec<TransferFrame>)
        ensures
            old(self).phase() != UploadPhase::Streaming ==> frames@.len() == 0 && *final(self)
                == *old(self),
            old(self).phase() == UploadPhase::Streaming ==> match outcome {
                ReadOutcome::Data(d) => if d@.len() == 0 {
                    frames@.len() == 0 && final(self).sent() == old(self).sent()
                        && final(self).phase() == UploadPhase::Finished
                } else {
                    &&& all_bounded_chunks(frames@)
                    &&& chunks_of(frames@, d@)
                    &&& chunk_bytes(frames@) == d@
                    &&& chunk_count(frames@) == chunks_needed(d@.len())
                    &&& frames@.len() == chunks_needed(d@.len())
                    &&& final(self).sent() == old(self).sent() + d@
                    &&& final(self).phase() == UploadPhase::Streaming
                },
                ReadOutcome::End => frames@.len() == 0 && final(self).sent() == old(self).sent()
                    && final(self).phase() == UploadPhase::Finished,
                ReadOutcome::Failed => frames@ == seq![TransferFrame::Error(READ_FAILURE_CODE)]
                    && final(self).sent() == old(self).sent() && final(self).phase()
                    == UploadPhase::Aborted,
            },
    {
        let mut frames: Vec<TransferFrame> = Vec::new();
        if self.phase != UploadPhase::Streaming {
            return frames;
        }
        match outcome {
            ReadOutcome::Data(d) => {
                if d.len() == 0 {
                    self.phase = UploadPhase::Finished;
                    return frames;
                }
                let ghost before = hashed_input(self.hasher);
                let mut start: usize = 0;
                while start < d.len()
                    invariant
                        start <= d@.len(),
                        start < d@.len() ==> start == frames@.len() * CHUNK_SIZE,
                        frames@.len() == chunks_needed(start as nat),
                        all_bounded_chunks(frames@),
                        chunks_of(frames@, d@),
                        chunk_bytes(frames@) == d@.subrange(0, start as int),
                        chunk_count(frames@) == frames@.len(),
                        hashed_input(self.hasher) == before + d@.subrange(0, start as int),
                        self.phase == UploadPhase::Streaming,
                    decreases d@.len() - start,
                {
                    let end: usize = if d.len() - start > CHUNK_SIZE {
                        start + CHUNK_SIZE
                    } else {
                        d.len()
                    };
                    proof {
                        lemma_chunks_needed_step(frames@.len() as int, start as int, d@.len() as int);
                    }
                    let chunk = copy_range(d.as_slice(), start, end);
                    absorb(&mut self.hasher, chunk.as_slice());
                    let f = TransferFrame::Chunk(chunk);
                    proof {
                        lemma_chunk_bytes_push(frames@, f);
                        assert(d@.subrange(0, start as int) + d@.subrange(start as int, end as int)
                            =~= d@.subrange(0, end as int));
                        assert(before + d@.subrange(0, start as int) + d@.subrange(
                            start as int,
                            end as int,
                        ) =~= before + d@.subrange(0, end as int));
                    }
                    frames.push(f);
                    start = end;
                }
                proof {
                    assert(d@.subrange(0, d@.len() as int) =~= d@);
                }
            },
            ReadOutcome::End => {
                self.phase = UploadPhase::Finished;
            },
            ReadOutcome::Failed => {
                self.phase = UploadPhase::Aborted;
                frames.push(TransferFrame::Error(READ_FAILURE_CODE));
                proof {
                    assert(frames@ =~= seq![TransferFrame::Error(READ_FAILURE_CODE)]);
                }
            },
        }
        frames
    }

    /// The digest of every byte sent, for an upload that has finished.
    fn digest(&self) -> (r: [u8; 32])
        requires
            self.phase() == UploadPhase::Finished,
        ensures
            r@ == blake3_digest(self.sent()),
    {
        digest_of(&self.hasher)
    }

    /// The checksum of a finished upload: the digest of every byte sent.
    /// An aborted upload is an error, and so is one still streaming.
    pub fn finish(&self) -> (r: Result<[u8; 32], TransferError>)
        ensures
            self.phase() == UploadPhase::Finished ==> (r matches Ok(c) && c@ == blake3_digest(
                self.sent(),
            )),
            self.phase() == UploadPhase::Aborted ==> r == Err::<[u8; 32], TransferError>(
                TransferError::SourceUnreadable,
            ),
            self.phase() == UploadPhase::Streaming ==> r == Err::<[u8; 32], TransferError>(
                TransferError::Unfinished,
            ),
    {
        match self.phase {
            UploadPhase::Finished => Ok(self.digest()),
            UploadPhase::Aborted => Err(TransferError::SourceUnreadable),
            UploadPhase::Streaming => Err(TransferError::Unfinished),
        }
    }
}

/// Frames a whole file for upload and computes its checksum: the metadata
/// frame first, then the file's bytes in chunk frames of at most `CHUNK_SIZE`
/// bytes. A file of `n` bytes takes exactly `n / CHUNK_SIZE` chunks, rounded
/// up, so an empty file is the metadata frame alone. The checksum is the
/// BLAKE3 digest of the bytes that the chunk frames carry, which are the
/// file's bytes in order.
pub fn encode_upload(task_id: String, path: String, content: &[u8]) -> (r: (
    Vec<TransferFrame>,
    [u8; 32],
))
    ensures
        r.0@.len() == 1 + chunks_needed(content@.len()),
        r.0@[0] == (TransferFrame::Metadata { task_id, path }),
        all_bounded_chunks(r.0@.drop_first()),
        chunks_of(r.0@.drop_first(), content@),
        chunk_count(r.0@) == chunks_needed(content@.len()),
        chunk_bytes(r.0@) == content@,
        r.1@ == blake3_digest(chunk_bytes(r.0@)),
{
    let (mut stream, metadata) = UploadStream::open(task_id, path);
    let mut frames: Vec<TransferFrame> = Vec::new();
    frames.push(metadata);
    let mut data: Vec<u8> = Vec::new();
    data.extend_from_slice(content);
    let ghost head = frames@;
    let mut chunks = stream.on_read(ReadOutcome::Data(data));
    let ghost body = chunks@;
    frames.append(&mut chunks);
    stream.on_read(ReadOutcome::End);
    proof {
        assert(frames@ == head + body);
        assert(frames@.drop_first() =~= body);
        lemma_chunk_bytes_concat(head, body);
        assert(head.len() == 1);
        assert(head.drop_last() =~= Seq::<TransferFrame>::empty());
        assert(chunk_bytes(head.drop_last()) == Seq::<u8>::empty());
        assert(chunk_count(head.drop_last()) == 0);
        assert(frame_payload(head.last()) == Seq::<u8>::empty());
        assert(chunk_bytes(head) =~= Seq::<u8>::empty());
        assert(chunk_count(head) == 0);
        if content@.len() == 0 {
            assert(body.len() == 0);
            assert(frames@ =~= head);
        }
        assert(stream.sent() =~= content@);
    }
    let checksum = stream.digest();
    (frames, checksum)
}

/// Upload frames survive the trip: frames shaped as `encode_upload` returns
/// them (a metadata frame, then bounded chunks of the file's bytes) hold no
/// error frame, and the bytes that the receiving side writes from them are
/// exactly the file's bytes, the same bytes that the checksum covers.
pub proof fn lemma_upload_round_trip(frames: Seq<TransferFrame>, content: Seq<u8>)
    requires
        frames.len() >= 1,
        frames[0] is Metadata,
        all_bounded_chunks(frames.drop_first()),
        chunk_bytes(frames) == content,
    ensures
        first_error(frames) is None,
        bytes_before_error(frames) == content,
{
    assert forall|i: int| 0 <= i < frames.len() implies !(#[trigger] frames[i] is Error) by {
        if i > 0 {
            assert(frames[i] == frames.drop_first()[i - 1]);
        }
    }
    lemma_no_error_frame(frames);
    lemma_no_error_all_bytes(frames);
}

} // verus!
