//! The live preview: the renderer's copy of the latest raw frame and the
//! calls that bring it to the screen.

use vstd::prelude::*;
use crate::demosaic::{
    destroy_table, frame_table, DemosaicQuad, GlCall, Objects, QuadView, SENSOR_PATTERN,
};
use crate::pixel::{image_len, PixelData, PixelFormat};
use crate::shared::{SharedFrameBuffer, SharedView};

verus! {

/// The preview as its contracts see it.
pub struct PreviewView {
    /// The pipeline that draws the frame.
    pub program: QuadView,
    /// The bytes of the frame that was taken over last.
    pub last_frame: Seq<u8>,
    /// Frame id under which that frame was published.
    pub last_seen_id: usize,
}

impl PreviewView {
    /// Whether a look at the shared buffer brings a new frame: the buffer
    /// could be read, its frame id is not the one seen last, and its frame
    /// has the size of the copy. A frame of another size is not taken.
    pub open spec fn brings_new(self, shared: Option<SharedView>) -> bool {
        &&& shared is Some
        &&& shared->0.read_if_newer(self.last_seen_id) is Some
        &&& shared->0.bytes.len() == self.last_frame.len()
    }

    /// The preview after one displayed frame. `shared` is the shared buffer
    /// if it could be read.
    pub open spec fn paint(self, shared: Option<SharedView>) -> PreviewView {
        if self.brings_new(shared) {
            PreviewView {
                last_frame: shared->0.bytes,
                last_seen_id: shared->0.frame_id,
                ..self
            }
        } else {
            self
        }
    }
}

/// The renderer only ever holds whole frames: a look at the shared buffer
/// leaves its copy at its length, whatever the buffer holds. A frame under a
/// new id is taken over byte for byte together with its id; under the id
/// seen last, or without a look, copy and id stay as they are.
pub proof fn lemma_preview_holds_whole_frames(p: PreviewView, shared: Option<SharedView>)
    ensures
        p.paint(shared).last_frame.len() == p.last_frame.len(),
        p.paint(shared).program == p.program,
        p.brings_new(shared) ==> p.paint(shared).last_frame == shared->0.bytes && p.paint(
            shared,
        ).last_seen_id == shared->0.frame_id,
        !p.brings_new(shared) ==> p.paint(shared) == p,
        shared is Some && shared->0.frame_id == p.last_seen_id ==> p.paint(shared) == p,
        shared is None ==> p.paint(shared) == p,
{
}

/// Object used to control the shader
pub struct Preview {
    /// Shader used to demosaic raw data from the sensor
    program: DemosaicQuad,
    /// The renderer's own copy of the most-recent raw data from the sensor
    last_frame: PixelData,
    /// Frame id of the shared buffer when the copy was made
    last_seen_id: usize,
}

impl View for Preview {
    type V = PreviewView;

    closed spec fn view(&self) -> PreviewView {
        PreviewView {
            program: self.program@,
            last_frame: self.last_frame@,
            last_seen_id: self.last_seen_id,
        }
    }
}

impl Preview {
    /// A preview for frames of the given format and dimensions. Nothing was
    /// seen yet: the copy holds zeros and the pipeline holds nothing. Frames
    /// in a Bayer format are drawn in their own filter arrangement, others
    /// in that of the sensor.
    pub fn new(format: PixelFormat, w: usize, h: usize) -> (res: Self)
        requires
            image_len(format, w as int, h as int) <= usize::MAX,
        ensures
            res@.program == (QuadView {
                live: Objects::spec_none(),
                pattern: match format {
                    PixelFormat::Bayer8(pattern) => pattern,
                    _ => SENSOR_PATTERN,
                },
                width: w,
                height: h,
                initialized: false,
            }),
            res@.last_frame.len() == image_len(format, w as int, h as int),
            forall|i: int| 0 <= i < res@.last_frame.len() ==> res@.last_frame[i] == 0,
            res@.last_seen_id == 0,
    {
        let program = match format {
            PixelFormat::Bayer8(pattern) => DemosaicQuad::new(w, h).with_pattern(pattern),
            _ => DemosaicQuad::new(w, h),
        };
        Self { program, last_frame: PixelData::new(format, w, h), last_seen_id: 0 }
    }

    pub fn is_initialized(&self) -> (yes: bool)
        ensures
            yes == self@.program.initialized,
    {
        self.program.is_initialized()
    }

    /// The setup of the pipeline, to be carried out before the first frame.
    pub fn init(&self) -> (script: Vec<GlCall>)
        ensures
            script@ == self@.program.init_script(),
    {
        self.program.init()
    }

    /// Records how many calls of the setup were made without failure.
    pub fn init_finished(&mut self, done: usize)
        ensures
            final(self)@ == (PreviewView {
                program: old(self)@.program.init_finished(done),
                ..old(self)@
            }),
    {
        self.program.init_finished(done);
    }

    /// The renderer's copy of the latest frame, which the upload reads.
    pub fn last_frame(&self) -> (bytes: &[u8])
        ensures
            bytes@ == self@.last_frame,
    {
        self.last_frame.as_slice()
    }

    /// The teardown of the pipeline.
    pub fn destroy(&mut self) -> (script: Vec<GlCall>)
        ensures
            script@ == destroy_table(old(self)@.program.live),
            final(self)@ == (PreviewView {
                program: QuadView {
                    live: Objects::spec_none(),
                    initialized: false,
                    ..old(self)@.program
                },
                ..old(self)@
            }),
    {
        self.program.destroy()
    }

    /// Update the preview window: one displayed frame.
    ///
    /// `shared` is the buffer of raw frames if it could be read. If it holds
    /// a frame that was not seen yet, the frame is copied and uploaded; a
    /// frame that has not the size of the copy is left where it is. The
    /// preview is drawn in any case, and the capture is rendered and read
    /// back if `capture` says that one is asked for.
    pub fn paint(&mut self, shared: Option<&SharedFrameBuffer>, capture: bool) -> (script: Vec<
        GlCall,
    >)
        ensures
            final(self)@ == old(self)@.paint(
                match shared {
                    Some(s) => Some(s@),
                    None => None,
                },
            ),
            script@ == frame_table(
                old(self)@.program,
                old(self)@.brings_new(
                    match shared {
                        Some(s) => Some(s@),
                        None => None,
                    },
                ),
                capture,
            ),
    {
        let mut new_data = false;
        // Get read access to data from the sensor.
        // If the data has been updated, update our local copy.
        if let Some(remote) = shared {
            if let Some((bytes, id)) = remote.read_if_newer(self.last_seen_id) {
                match self.last_frame.fill_from_slice(bytes.as_slice()) {
                    Ok(()) => {
                        self.last_seen_id = id;
                        new_data = true;
                    },
                    Err(_) => {},
                }
            }
        }
        self.program.frame(new_data, capture)
    }
}

} // verus!
