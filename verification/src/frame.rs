//! Reassembly of a raw frame from the chunks of a bulk transfer.

use vstd::prelude::*;
use vstd::slice::{slice_subrange, slice_to_vec};
use crate::driver::{Mu1603Error, UsbError};
use crate::state::{raw_frame_len, Mu1603State};

verus! {

/// Size of the buffer that one bulk read fills: 1 MiB.
pub const CHUNK: usize = 0x0010_0000;

/// The bulk endpoint on which frames arrive.
pub const FRAME_ENDPOINT: u8 = 0x81;

/// Timeout of one bulk read [in milliseconds].
pub const FRAME_TIMEOUT_MS: u64 = 500;

/// One bulk read, as the reader asks for it.
#[derive(Copy, Clone, Debug, PartialEq, Eq, Structural)]
pub struct BulkRead {
    pub endpoint: u8,
    pub len: usize,
    pub timeout_ms: u64,
}

/// A frame reader as its contracts see it.
pub struct ReaderView {
    /// Length of a whole frame.
    pub frame_len: int,
    /// The bytes that were received so far.
    pub data: Seq<u8>,
    /// No further chunk is read.
    pub finished: bool,
}

impl ReaderView {
    /// The reader before the first chunk.
    pub open spec fn start(frame_len: int) -> ReaderView {
        ReaderView { frame_len, data: Seq::empty(), finished: false }
    }

    /// Number of bytes that are missing to a whole frame.
    pub open spec fn room(self) -> int {
        if self.data.len() < self.frame_len {
            self.frame_len - self.data.len()
        } else {
            0
        }
    }

    /// The reader after a chunk came in. Bytes beyond the end of the frame
    /// are cut off. The reader has finished when the frame is full, or when
    /// the chunk is shorter than the buffer that was offered, which is how
    /// the device marks the end of a frame. A finished reader ignores the
    /// chunk.
    pub open spec fn push(self, chunk: Seq<u8>) -> ReaderView {
        if self.finished {
            self
        } else {
            let kept = if chunk.len() > self.room() {
                self.room()
            } else {
                chunk.len() as int
            };
            let data = self.data + chunk.subrange(0, kept);
            ReaderView {
                data,
                finished: chunk.len() < CHUNK || data.len() >= self.frame_len,
                ..self
            }
        }
    }

    /// The frame is whole.
    pub open spec fn complete(self) -> bool {
        self.data.len() >= self.frame_len
    }

    /// What holds of a reader from its start on: it holds no more than a
    /// whole frame, and it has finished if it holds a whole frame that is
    /// not empty.
    pub open spec fn in_frame(self) -> bool {
        &&& self.data.len() <= self.frame_len
        &&& self.data.len() == self.frame_len && self.data.len() > 0 ==> self.finished
    }
}

/// A frame is never longer than was expected: from the start on, whatever
/// chunks come in, the reader holds at most a whole frame, and once a chunk
/// made the frame whole the reader has finished. A finished reader stays as
/// it is.
pub proof fn lemma_push_stays_in_frame(r: ReaderView, chunk: Seq<u8>)
    requires
        r.in_frame(),
    ensures
        r.push(chunk).in_frame(),
        r.push(chunk).frame_len == r.frame_len,
        r.push(chunk).complete() ==> r.push(chunk).data.len() == r.frame_len,
        r.push(chunk).complete() && chunk.len() > 0 ==> r.push(chunk).finished,
        r.finished ==> r.push(chunk) == r,
{
}

/// A reader starts within its frame.
pub proof fn lemma_start_is_in_frame(frame_len: int)
    requires
        0 <= frame_len,
    ensures
        ReaderView::start(frame_len).in_frame(),
{
}

/// A chunk that fills the whole buffer and leaves the frame short keeps the
/// reader going; its bytes are all kept.
pub proof fn lemma_full_chunk_continues(r: ReaderView, chunk: Seq<u8>)
    requires
        !r.finished,
        chunk.len() == CHUNK,
        r.data.len() + CHUNK < r.frame_len,
    ensures
        !r.push(chunk).finished,
        r.push(chunk).data == r.data + chunk,
{
    assert(chunk.subrange(0, chunk.len() as int) == chunk);
}

/// A chunk that brings exactly what was missing finishes a whole frame.
pub proof fn lemma_last_chunk_completes(r: ReaderView, chunk: Seq<u8>)
    requires
        !r.finished,
        r.data.len() + chunk.len() == r.frame_len,
    ensures
        r.push(chunk).finished,
        r.push(chunk).complete(),
        r.push(chunk).data == r.data + chunk,
{
    assert(chunk.subrange(0, chunk.len() as int) == chunk);
}

/// A short chunk that leaves the frame short finishes the reader with an
/// incomplete frame.
pub proof fn lemma_short_chunk_truncates(r: ReaderView, chunk: Seq<u8>)
    requires
        !r.finished,
        chunk.len() < CHUNK,
        r.data.len() + chunk.len() < r.frame_len,
    ensures
        r.push(chunk).finished,
        !r.push(chunk).complete(),
{
}

/// Collects the chunks of one frame.
pub struct FrameReader {
    frame_len: usize,
    data: Vec<u8>,
    finished: bool,
}

impl View for FrameReader {
    type V = ReaderView;

    closed spec fn view(&self) -> ReaderView {
        ReaderView { frame_len: self.frame_len as int, data: self.data@, finished: self.finished }
    }
}

impl FrameReader {
    /// A reader for one frame of the stream in `state`.
    pub fn new(state: &Mu1603State) -> (reader: Self)
        ensures
            reader@ == ReaderView::start(raw_frame_len(state.mode, state.bitdepth)),
    {
        let (width, height) = state.mode.dimensions();
        let bpp = state.bitdepth.bpp();
        assert(width * height <= 4632 * 3488) by (nonlinear_arith)
            requires
                width <= 4632,
                height <= 3488,
        ;
        let frame_len = (width * height) * bpp;
        Self { frame_len, data: Vec::new(), finished: false }
    }

    /// Length of a whole frame in bytes.
    pub fn frame_len(&self) -> (n: usize)
        ensures
            n == self@.frame_len,
    {
        self.frame_len
    }

    /// Number of bytes received so far.
    pub fn received(&self) -> (n: usize)
        ensures
            n == self@.data.len(),
    {
        self.data.len()
    }

    /// The read that is due: a chunk from the frame endpoint, or none when
    /// the reader has finished.
    pub fn next_read(&self) -> (read: Option<BulkRead>)
        ensures
            self@.finished ==> read is None,
            !self@.finished ==> read == Some(
                BulkRead { endpoint: FRAME_ENDPOINT, len: CHUNK, timeout_ms: FRAME_TIMEOUT_MS },
            ),
    {
        if self.finished {
            None
        } else {
            Some(BulkRead { endpoint: FRAME_ENDPOINT, len: CHUNK, timeout_ms: FRAME_TIMEOUT_MS })
        }
    }

    /// Takes the bytes that a read brought.
    pub fn push_chunk(&mut self, chunk: &[u8])
        ensures
            final(self)@ == old(self)@.push(chunk@),
    {
        if self.finished {
            return ;
        }
        let cur = self.data.len();
        // If the incoming data would overflow the frame,
        // just truncate it and copy the remaining bytes
        let rem = if cur < self.frame_len {
            self.frame_len - cur
        } else {
            0
        };
        let len = if chunk.len() > rem {
            rem
        } else {
            chunk.len()
        };
        let mut kept = slice_to_vec(slice_subrange(chunk, 0, len));
        self.data.append(&mut kept);
        // If we get less bytes than we requested, this indicates
        // that the device has finished reading out a frame.
        self.finished = chunk.len() < CHUNK || self.data.len() >= self.frame_len;
    }

    /// Ends the frame on a read that failed: the failure of the transport is
    /// the error of the frame, and what was received is dropped.
    pub fn fail(self, e: UsbError) -> (err: Mu1603Error)
        ensures
            err == Mu1603Error::Rusb(e),
    {
        Mu1603Error::Rusb(e)
    }

    /// The frame, if it is whole. A frame that came short is an error: the
    /// first frame after initialization always does.
    pub fn finish(self) -> (res: Result<Vec<u8>, Mu1603Error>)
        ensures
            res is Ok <==> self@.complete(),
            res matches Ok(data) ==> data@ == self@.data,
            res matches Err(e) ==> e == Mu1603Error::FirstFrame,
    {
        if self.data.len() < self.frame_len {
            Err(Mu1603Error::FirstFrame)
        } else {
            Ok(self.data)
        }
    }
}

} // verus!
