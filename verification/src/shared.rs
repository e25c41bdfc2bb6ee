//! The hand-off of raw frames from the acquisition thread to the renderer.
//!
//! The buffer lives behind a lock that the program owns. The acquisition
//! thread only ever tries that lock: a frame that finds it taken is dropped.
//! A frame id stands for a whole frame: it is raised only after every byte of
//! the frame was copied.

use vstd::prelude::*;
use vstd::slice::slice_to_vec;
use crate::pixel::{image_len, PixelData, PixelFormat};

verus! {

/// What became of a frame that was offered to the buffer.
#[derive(Copy, Clone, Debug, PartialEq, Eq, Structural)]
pub enum Publish {
    /// The frame is in the buffer under this frame id.
    Published(usize),
    /// The buffer was in use; the frame was dropped.
    Busy,
    /// The frame has not the size of the buffer; it was dropped.
    Rejected,
}

/// The buffer as its contracts see it.
pub struct SharedView {
    /// The bytes of the frame that was published last.
    pub bytes: Seq<u8>,
    /// The number of frames that were published.
    pub frame_id: usize,
    /// The size that the buffer was declared with.
    pub size: int,
}

impl SharedView {
    /// The bytes are a whole frame.
    pub open spec fn whole(self) -> bool {
        self.bytes.len() == self.size
    }

    /// The buffer after a frame was offered to it while it was free.
    pub open spec fn publish(self, frame: Seq<u8>) -> SharedView {
        if frame.len() == self.bytes.len() {
            SharedView { bytes: frame, frame_id: (self.frame_id + 1) as usize, ..self }
        } else {
            self
        }
    }

    /// What a consumer gets that saw `last_seen_id` before.
    pub open spec fn read_if_newer(self, last_seen_id: usize) -> Option<(Seq<u8>, usize)> {
        if self.frame_id != last_seen_id {
            Some((self.bytes, self.frame_id))
        } else {
            None
        }
    }
}

/// No partial publish: whatever is offered to a buffer that holds a whole
/// frame, it holds a whole frame afterwards; the frame id changes only
/// together with the bytes, which are then exactly the offered frame; and
/// what a consumer reads is a whole frame under the id it was published
/// with.
pub proof fn lemma_no_partial_publish(v: SharedView, frame: Seq<u8>, last_seen_id: usize)
    requires
        v.whole(),
        v.frame_id < usize::MAX,
    ensures
        v.publish(frame).whole(),
        v.publish(frame).size == v.size,
        v.publish(frame).frame_id != v.frame_id ==> v.publish(frame).bytes == frame
            && v.publish(frame).frame_id == v.frame_id + 1,
        v.publish(frame).frame_id == v.frame_id ==> v.publish(frame) == v,
        v.publish(frame).read_if_newer(last_seen_id) matches Some((bytes, id)) ==> bytes.len()
            == v.size && id == v.publish(frame).frame_id,
{
}

/// A raw frame with its frame id, shared by the thread that reads frames
/// from the device and the one that renders them.
pub struct SharedFrameBuffer {
    buffer: PixelData,
}

impl View for SharedFrameBuffer {
    type V = SharedView;

    closed spec fn view(&self) -> SharedView {
        SharedView {
            bytes: self.buffer@,
            frame_id: self.buffer.spec_frame_id(),
            size: self.buffer.spec_size_bytes(),
        }
    }
}

impl SharedFrameBuffer {
    /// A buffer for frames of the given format and dimensions, filled with
    /// zeros, with frame id 0.
    pub fn new(fmt: PixelFormat, width: usize, height: usize) -> (shared: Self)
        requires
            image_len(fmt, width as int, height as int) <= usize::MAX,
        ensures
            shared@.whole(),
            shared@.size == image_len(fmt, width as int, height as int),
            shared@.frame_id == 0,
            forall|i: int| 0 <= i < shared@.bytes.len() ==> shared@.bytes[i] == 0,
    {
        Self { buffer: PixelData::new(fmt, width, height) }
    }

    pub fn frame_id(&self) -> (id: usize)
        ensures
            id == self@.frame_id,
    {
        self.buffer.frame_id()
    }

    /// Declared size of a frame in bytes.
    pub fn size_bytes(&self) -> (n: usize)
        ensures
            n == self@.bytes.len(),
            self@.whole() ==> n == self@.size,
    {
        self.buffer.size_bytes()
    }

    /// Copies a frame into the buffer and raises the frame id. A frame of
    /// another size than the buffer's is dropped, and nothing changes.
    pub fn publish(&mut self, frame: &[u8]) -> (res: Publish)
        requires
            old(self)@.frame_id < usize::MAX,
        ensures
            final(self)@ == old(self)@.publish(frame@),
            res == if frame@.len() == old(self)@.bytes.len() {
                Publish::Published((old(self)@.frame_id + 1) as usize)
            } else {
                Publish::Rejected
            },
    {
        match self.buffer.fill_from_slice(frame) {
            Ok(()) => {
                self.buffer.increment_frame_id();
                Publish::Published(self.buffer.frame_id())
            },
            Err(_) => Publish::Rejected,
        }
    }

    /// Offers a frame to the buffer without waiting for it. `slot` is the
    /// buffer if its lock could be taken at once; else the frame is dropped.
    pub fn try_publish(slot: Option<&mut SharedFrameBuffer>, frame: &[u8]) -> (res: Publish)
        requires
            slot matches Some(shared) ==> shared@.frame_id < usize::MAX,
        ensures
            slot is None ==> res == Publish::Busy,
            slot matches Some(shared) ==> final(shared)@ == shared@.publish(frame@) && res
                == if frame@.len() == shared@.bytes.len() {
                Publish::Published((shared@.frame_id + 1) as usize)
            } else {
                Publish::Rejected
            },
    {
        match slot {
            Some(shared) => shared.publish(frame),
            None => Publish::Busy,
        }
    }

    /// A copy of the frame and its id, unless the id is the one the
    /// consumer saw last.
    pub fn read_if_newer(&self, last_seen_id: usize) -> (res: Option<(Vec<u8>, usize)>)
        ensures
            res is Some <==> self@.frame_id != last_seen_id,
            res matches Some((bytes, id)) ==> Some((bytes@, id)) == self@.read_if_newer(
                last_seen_id,
            ),
    {
        if self.buffer.frame_id() != last_seen_id {
            Some((slice_to_vec(self.buffer.as_slice()), self.buffer.frame_id()))
        } else {
            None
        }
    }
}

} // verus!
