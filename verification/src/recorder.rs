//! The frame pipeline: what to do with each frame that the capture backend
//! delivers.
//!
//! The recorder decides; the caller, who holds the frame and the encoder,
//! acts on the decision and reports back what the encoder said.

use crate::error::PipelineError;
use crate::frame::flip_rows;
use crate::frame::flipped;
use crate::frame::row_bytes;
use crate::frame::CropRect;
use crate::types::Region;
use vstd::prelude::*;

verus! {

/// What a recording is made with, fixed when the session starts.
#[derive(Debug, Clone, PartialEq, Eq)]
pub struct RecordingConfig {
    /// Width of the source's frames in pixels.
    pub width: u32,
    /// Height of the source's frames in pixels.
    pub height: u32,
    pub output_path: String,
    pub region: Option<Region>,
}

impl RecordingConfig {
    /// Width and height of the encoded video: the region's where one is set,
    /// else the source's.
    pub open spec fn encoder_size(&self) -> (u32, u32) {
        match self.region {
            Some(r) => (r.width, r.height),
            None => (self.width, self.height),
        }
    }

    /// Width and height that the encoder must be created with.
    pub fn encoder_dimensions(&self) -> (size: (u32, u32))
        ensures
            size == self.encoder_size(),
    {
        match self.region {
            Some(r) => (r.width, r.height),
            None => (self.width, self.height),
        }
    }
}

/// What the caller must do with the frame that has just arrived.
#[derive(Debug, Clone, Copy, PartialEq, Eq, Structural)]
pub enum FrameAction {
    /// Finalize the encoder and tell the backend to end its capture loop.
    Finish,
    /// Hand the frame to the encoder as it is.
    SendFrame,
    /// Cut this rectangle out of the frame, pass its unpadded bytes through
    /// `cropped_payload`, and hand the result to the encoder with the frame's
    /// timestamp.
    SendCropped(CropRect),
}

/// How a capture came to its end.
#[derive(Debug, Clone, Copy, PartialEq, Eq, Structural)]
pub enum Termination {
    /// The session was stopped and the encoder finalized.
    Stopped,
    /// The source went away while the encoder was still open.
    SourceLost,
}

/// One delivery of the capture backend: the cancellation signal as read on
/// the frame's arrival, and the frame's size.
#[derive(Debug, Clone, Copy, PartialEq, Eq, Structural)]
pub struct FrameEvent {
    pub stop_requested: bool,
    pub width: u32,
    pub height: u32,
}

/// The pipeline's state as its contracts see it.
#[derive(Debug, Clone, Copy, PartialEq, Eq, Structural)]
pub struct PipelineState {
    /// The encoder has not been finalized yet.
    pub encoder_open: bool,
    /// The region that frames are cropped to, if any.
    pub region: Option<Region>,
}

impl PipelineState {
    /// The answer to a frame in this state.
    pub open spec fn decision(self, frame: FrameEvent) -> Result<FrameAction, PipelineError> {
        if !self.encoder_open {
            Err(PipelineError::EncoderFinished)
        } else if frame.stop_requested {
            Ok(FrameAction::Finish)
        } else {
            match self.region {
                None => Ok(FrameAction::SendFrame),
                Some(r) => if !r.fits(frame.width, frame.height) {
                    Err(PipelineError::CropOutOfBounds)
                } else if !r.is_nonempty() {
                    Err(PipelineError::EmptyRegion)
                } else {
                    Ok(FrameAction::SendCropped(r.rect()))
                },
            }
        }
    }

    /// The state after a frame: the encoder is gone once the answer was to
    /// finish, and nothing else ever changes.
    pub open spec fn after(self, frame: FrameEvent) -> PipelineState {
        if self.decision(frame) == Ok::<FrameAction, PipelineError>(FrameAction::Finish) {
            PipelineState { encoder_open: false, region: self.region }
        } else {
            self
        }
    }

    /// The state after a run of frames, in their order of arrival.
    pub open spec fn after_all(self, frames: Seq<FrameEvent>) -> PipelineState
        decreases frames.len(),
    {
        if frames.len() == 0 {
            self
        } else {
            self.after_all(frames.drop_last()).after(frames.last())
        }
    }

    /// How often the answer was to finish during a run of frames.
    pub open spec fn finished(self, frames: Seq<FrameEvent>) -> nat
        decreases frames.len(),
    {
        if frames.len() == 0 {
            0
        } else {
            let before = self.finished(frames.drop_last());
            if self.after_all(frames.drop_last()).decision(frames.last()) == Ok::<
                FrameAction,
                PipelineError,
            >(FrameAction::Finish) {
                before + 1
            } else {
                before
            }
        }
    }

    /// How many frames of a run were handed to the encoder as they came.
    pub open spec fn forwarded(self, frames: Seq<FrameEvent>) -> nat
        decreases frames.len(),
    {
        if frames.len() == 0 {
            0
        } else {
            let before = self.forwarded(frames.drop_last());
            if self.after_all(frames.drop_last()).decision(frames.last()) == Ok::<
                FrameAction,
                PipelineError,
            >(FrameAction::SendFrame) {
                before + 1
            } else {
                before
            }
        }
    }

    /// No frame is ever cropped outside its bounds: whenever a crop is asked
    /// for, the rectangle has the region's size and lies inside the frame
    /// that arrived, and whenever the region reaches past that frame, the
    /// answer is an error.
    pub proof fn lemma_crop_inside_frame(self, frame: FrameEvent)
        ensures
            match self.decision(frame) {
                Ok(FrameAction::SendCropped(rect)) => rect.start_x < rect.end_x <= frame.width
                    && rect.start_y < rect.end_y <= frame.height && self.region is Some
                    && rect.end_x - rect.start_x == self.region->0.width && rect.end_y
                    - rect.start_y == self.region->0.height,
                _ => true,
            },
            self.encoder_open && !frame.stop_requested && self.region is Some && (self.region->0.x
                + self.region->0.width > frame.width || self.region->0.y + self.region->0.height
                > frame.height) ==> self.decision(frame) == Err::<FrameAction, PipelineError>(
                PipelineError::CropOutOfBounds,
            ),
    {
    }

    /// Only a requested stop finalizes the encoder: while no frame of a run
    /// sees the signal set, the encoder stays open, however many frames
    /// arrive, and without a region every one of them is handed on.
    pub proof fn lemma_only_a_stop_finishes(self, frames: Seq<FrameEvent>)
        requires
            self.encoder_open,
            forall|i: int| 0 <= i < frames.len() ==> !(#[trigger] frames[i]).stop_requested,
        ensures
            self.after_all(frames) == self,
            self.finished(frames) == 0,
            self.region is None ==> self.forwarded(frames) == frames.len(),
        decreases frames.len(),
    {
        if frames.len() > 0 {
            self.lemma_only_a_stop_finishes(frames.drop_last());
        }
    }

    /// The encoder is finalized once at most, and after that every frame is
    /// refused.
    pub proof fn lemma_finished_once(self, frames: Seq<FrameEvent>)
        ensures
            self.finished(frames) <= 1,
            self.after_all(frames).region == self.region,
            self.after_all(frames).encoder_open ==> self.encoder_open && self.finished(frames)
                == 0,
            !self.encoder_open ==> self.finished(frames) == 0 && self.forwarded(frames) == 0,
            self.encoder_open && !self.after_all(frames).encoder_open ==> self.finished(frames)
                == 1,
        decreases frames.len(),
    {
        if frames.len() > 0 {
            self.lemma_finished_once(frames.drop_last());
        }
    }

    /// A run of frames that the signal does not interrupt, followed by one
    /// frame that sees it set: without a region each of the first is handed
    /// to the encoder as it came, and the encoder is finalized exactly once,
    /// by the last.
    pub proof fn lemma_frames_then_stop(self, frames: Seq<FrameEvent>, last: FrameEvent)
        requires
            self.encoder_open,
            self.region is None,
            forall|i: int| 0 <= i < frames.len() ==> !(#[trigger] frames[i]).stop_requested,
            last.stop_requested,
        ensures
            self.forwarded(frames.push(last)) == frames.len(),
            self.finished(frames.push(last)) == 1,
            !self.after_all(frames.push(last)).encoder_open,
    {
        self.lemma_only_a_stop_finishes(frames);
        assert(frames.push(last).drop_last() =~= frames);
    }
}

/// The pipeline's state for one session.
#[derive(Debug, Clone, PartialEq, Eq)]
pub struct ScreenRecorder {
    encoder_open: bool,
    region: Option<Region>,
}

impl View for ScreenRecorder {
    type V = PipelineState;

    closed spec fn view(&self) -> PipelineState {
        PipelineState { encoder_open: self.encoder_open, region: self.region }
    }
}

impl ScreenRecorder {
    /// Sets the pipeline up for a session.
    ///
    /// `encoder` is the outcome of creating the encoder with
    /// `config.encoder_dimensions()` for `config.output_path`.
    pub fn new(config: &RecordingConfig, encoder: Result<(), String>) -> (res: Result<
        ScreenRecorder,
        PipelineError,
    >)
        ensures
            match encoder {
                Ok(_) => res is Ok && res->Ok_0@ == (PipelineState {
                    encoder_open: true,
                    region: config.region,
                }),
                Err(e) => res == Err::<ScreenRecorder, PipelineError>(
                    PipelineError::EncoderInitFailed(e),
                ),
            },
    {
        match encoder {
            Ok(_) => Ok(ScreenRecorder { encoder_open: true, region: config.region }),
            Err(e) => Err(PipelineError::EncoderInitFailed(e)),
        }
    }

    /// Tells whether the encoder is still open.
    pub fn is_encoding(&self) -> (b: bool)
        ensures
            b == self@.encoder_open,
    {
        self.encoder_open
    }

    /// The region that frames are cropped to, if any.
    pub fn region(&self) -> (r: Option<Region>)
        ensures
            r == self@.region,
    {
        self.region
    }

    /// Decides what happens to a frame of `frame_width` by `frame_height`
    /// pixels. `stop_requested` is the cancellation signal as read on the
    /// frame's arrival.
    ///
    /// A requested stop finalizes the encoder, and nothing else ever does.
    /// Otherwise the frame goes to the encoder: whole where no region is set,
    /// else cropped, and then only if the region lies inside this very frame.
    /// An error leaves the state as it was.
    pub fn on_frame_arrived(
        &mut self,
        stop_requested: bool,
        frame_width: u32,
        frame_height: u32,
    ) -> (res: Result<FrameAction, PipelineError>)
        ensures
            res == old(self)@.decision(
                (FrameEvent { stop_requested, width: frame_width, height: frame_height }),
            ),
            final(self)@ == old(self)@.after(
                (FrameEvent { stop_requested, width: frame_width, height: frame_height }),
            ),
    {
        if !self.encoder_open {
            return Err(PipelineError::EncoderFinished);
        }
        if stop_requested {
            self.encoder_open = false;
            return Ok(FrameAction::Finish);
        }
        match self.region {
            None => Ok(FrameAction::SendFrame),
            Some(r) => match r.crop_rect(frame_width, frame_height) {
                Ok(rect) => Ok(FrameAction::SendCropped(rect)),
                Err(e) => Err(e),
            },
        }
    }

    /// Prepares the bytes of a cropped frame for the encoder: the backend
    /// delivers the rows of a crop bottom-up, the encoder wants them
    /// top-down.
    ///
    /// `raw` holds the crop without row padding. Without a region there is no
    /// crop to prepare; with fewer bytes than the region's pixels need the
    /// crop is refused.
    pub fn cropped_payload(&self, raw: &[u8]) -> (res: Result<Vec<u8>, PipelineError>)
        ensures
            match self@.region {
                None => res == Err::<Vec<u8>, PipelineError>(PipelineError::NoRegion),
                Some(r) => if raw@.len() < r.byte_len() {
                    res == Err::<Vec<u8>, PipelineError>(PipelineError::ShortBuffer)
                } else {
                    res is Ok && res->Ok_0@ == flipped(raw@, row_bytes(r.width), r.height as int)
                        && res->Ok_0@.len() == r.byte_len()
                },
            },
    {
        match self.region {
            None => Err(PipelineError::NoRegion),
            Some(r) => flip_rows(raw, r.width, r.height),
        }
    }

    /// Judges the encoder's answer to a frame: a refusal is final.
    pub fn frame_sent(outcome: Result<(), String>) -> (res: Result<(), PipelineError>)
        ensures
            match outcome {
                Ok(_) => res is Ok,
                Err(e) => res == Err::<(), PipelineError>(PipelineError::EncoderFailed(e)),
            },
    {
        match outcome {
            Ok(_) => Ok(()),
            Err(e) => Err(PipelineError::EncoderFailed(e)),
        }
    }

    /// Called when the backend reports that the source is gone. Nothing is
    /// repaired: the answer says whether this ends a stopped session or cuts
    /// short one whose encoder was never finalized.
    pub fn on_closed(&self) -> (t: Termination)
        ensures
            t == if self@.encoder_open {
                Termination::SourceLost
            } else {
                Termination::Stopped
            },
    {
        if self.encoder_open {
            Termination::SourceLost
        } else {
            Termination::Stopped
        }
    }
}

} // verus!
