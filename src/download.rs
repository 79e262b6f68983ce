//! The receiving side of a file transfer: decides, frame by frame, what goes
//! into the destination file.

use vstd::prelude::*;
use crate::frame::{
    bytes_before_error, chunk_bytes, first_error, lemma_no_error_all_bytes,
    TransferError, TransferFrame,
};

verus! {

/// What to do with one received frame.
pub enum DownloadAction {
    /// Nothing to write: a metadata frame, or anything after an abort.
    Skip,
    /// Append the chunk's bytes to the destination file.
    Write,
    /// The sender aborted with this code; stop the download.
    Abort(i32),
}

/// A download in progress. It remembers the frames received so far: the
/// bytes handed out for writing are those of the chunk frames before the
/// first error frame, in order.
pub struct DownloadSink {
    total_bytes: u64,
    aborted: Option<i32>,
    received: Ghost<Seq<TransferFrame>>,
}

impl DownloadSink {
    /// The frames received so far.
    pub closed spec fn received(&self) -> Seq<TransferFrame> {
        self.received@
    }

    /// The bytes handed out for writing so far.
    pub open spec fn written(&self) -> Seq<u8> {
        bytes_before_error(self.received())
    }

    pub closed spec fn wf(&self) -> bool {
        &&& self.aborted == first_error(self.received@)
        &&& self.total_bytes == if bytes_before_error(self.received@).len() > u64::MAX {
            u64::MAX as int
        } else {
            bytes_before_error(self.received@).len() as int
        }
    }

    pub fn new() -> (r: DownloadSink)
        ensures
            r.wf(),
            r.received() == Seq::<TransferFrame>::empty(),
    {
        DownloadSink { total_bytes: 0, aborted: None, received: Ghost(Seq::empty()) }
    }

    /// Takes the next frame of the stream. A chunk's bytes are to be written;
    /// a metadata frame is skipped, since the caller already knows the task
    /// and the file; an error frame aborts the download, and after it every
    /// frame is skipped.
    pub fn accept(&mut self, frame: &TransferFrame) -> (a: DownloadAction)
        requires
            old(self).wf(),
        ensures
            final(self).wf(),
            final(self).received() == old(self).received().push(*frame),
            first_error(old(self).received()) is Some ==> a is Skip,
            first_error(old(self).received()) is None ==> match *frame {
                TransferFrame::Metadata { .. } => a is Skip,
                TransferFrame::Chunk(_) => a is Write,
                TransferFrame::Error(c) => a == DownloadAction::Abort(c),
            },
    {
        let ghost seen = self.received@;
        self.received = Ghost(self.received@.push(*frame));
        proof {
            assert(self.received@.drop_last() =~= seen);
        }
        if self.aborted.is_some() {
            return DownloadAction::Skip;
        }
        match frame {
            TransferFrame::Metadata { .. } => DownloadAction::Skip,
            TransferFrame::Chunk(d) => {
                let n = d.len() as u64;
                self.total_bytes = self.total_bytes.saturating_add(n);
                DownloadAction::Write
            },
            TransferFrame::Error(c) => {
                self.aborted = Some(*c);
                DownloadAction::Abort(*c)
            },
        }
    }

    /// Bytes handed out for writing so far, saturating at `u64::MAX`.
    pub fn total_bytes(&self) -> (r: u64)
        requires
            self.wf(),
        ensures
            r == if self.written().len() > u64::MAX {
                u64::MAX as int
            } else {
                self.written().len() as int
            },
    {
        self.total_bytes
    }

    /// How the download ended, once the stream has closed: the number of
    /// bytes written, or the code of the error frame that aborted it.
    pub fn outcome(&self) -> (r: Result<u64, TransferError>)
        requires
            self.wf(),
        ensures
            match first_error(self.received()) {
                Some(c) => r == Err::<u64, TransferError>(TransferError::RemoteAborted(c)),
                None => r == Ok::<u64, TransferError>(
                    if self.written().len() > u64::MAX {
                        u64::MAX
                    } else {
                        self.written().len() as u64
                    },
                ),
            },
    {
        match self.aborted {
            Some(c) => Err(TransferError::RemoteAborted(c)),
            None => Ok(self.total_bytes),
        }
    }
}

/// The content of a downloaded file, given every frame the sender served:
/// the chunk payloads concatenated in order, metadata frames left out. An
/// error frame aborts the download with its code.
pub fn assemble_download(frames: &Vec<TransferFrame>) -> (r: Result<Vec<u8>, TransferError>)
    ensures
        match first_error(frames@) {
            Some(c) => r == Err::<Vec<u8>, TransferError>(TransferError::RemoteAborted(c)),
            None => r matches Ok(b) && b@ == chunk_bytes(frames@),
        },
{
    let mut sink = DownloadSink::new();
    let mut content: Vec<u8> = Vec::new();
    let mut i: usize = 0;
    while i < frames.len()
        invariant
            i <= frames@.len(),
            sink.wf(),
            sink.received() == frames@.subrange(0, i as int),
            content@ == sink.written(),
        decreases frames@.len() - i,
    {
        let frame = &frames[i];
        let ghost before = sink.received();
        proof {
            assert(frames@.subrange(0, i as int).push(frames@[i as int]) =~= frames@.subrange(
                0,
                i as int + 1,
            ));
        }
        let action = sink.accept(frame);
        proof {
            assert(sink.received().drop_last() =~= before);
        }
        match (action, frame) {
            (DownloadAction::Write, TransferFrame::Chunk(d)) => {
                content.extend_from_slice(d.as_slice());
            },
            _ => {},
        }
        i = i + 1;
    }
    proof {
        assert(frames@.subrange(0, frames@.len() as int) =~= frames@);
    }
    match sink.outcome() {
        Ok(_) => {
            proof {
                lemma_no_error_all_bytes(frames@);
            }
            Ok(content)
        },
        Err(e) => Err(e),
    }
}

} // verus!
