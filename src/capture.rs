use vstd::prelude::*;
use vstd::string::StringExecFns;

use crate::grid::{FrameError, GridModel, LuminanceGrid, assembly_outcome};
use crate::ramp::default_ramp_spec;
use crate::render::{render_frame, render_text};
use crate::resample::{MAX_TARGET_SIDE, resample, resample_outcome};

verus! {

/// One decoded camera frame and the grid it is to be shown on.
pub struct CameraBuffer {
    /// Row-major grayscale samples from the decoder, or `None` where the
    /// compressed frame could not be decoded.
    pub pixels: Option<Vec<u8>>,
    pub src_width: u32,
    pub src_height: u32,
    pub dst_width: u32,
    pub dst_height: u32,
}

/// What a decoded frame becomes: the decoder's failure, a grid that cannot be
/// assembled, or the frame resampled to the target size.
pub open spec fn capture_outcome(
    pixels: Option<Seq<u8>>,
    sw: u32,
    sh: u32,
    dw: u32,
    dh: u32,
) -> Result<GridModel, FrameError> {
    match pixels {
        None => Err(FrameError::DecodeFailed),
        Some(p) => match assembly_outcome(sw, sh, p.len()) {
            Some(e) => Err(e),
            None => resample_outcome(GridModel { width: sw as nat, height: sh as nat, samples: p }, dw, dh),
        },
    }
}

impl CameraBuffer {
    pub open spec fn pixels_view(&self) -> Option<Seq<u8>> {
        match self.pixels {
            Some(v) => Some(v@),
            None => None,
        }
    }

    /// The decoder produced samples that form a well-formed source grid.
    pub open spec fn source_ok(&self) -> bool {
        &&& self.pixels is Some
        &&& assembly_outcome(self.src_width, self.src_height, self.pixels_view()->Some_0.len()) is None
    }

    /// The decoded frame as a grid model.
    pub open spec fn source_model(&self) -> GridModel {
        GridModel {
            width: self.src_width as nat,
            height: self.src_height as nat,
            samples: self.pixels_view()->Some_0,
        }
    }

    /// The target size is one the resampler serves.
    pub open spec fn target_ok(&self) -> bool {
        &&& 0 < self.dst_width <= MAX_TARGET_SIDE
        &&& 0 < self.dst_height <= MAX_TARGET_SIDE
    }

    /// Turns a decoded frame into a grid of the target size. A well-formed
    /// source and a served target always succeed; the grid then has exactly the
    /// target size, each of its samples is a source sample, and at the source's
    /// own size it holds the source samples unchanged. A zero target side is
    /// `DimensionInvalid`.
    pub fn get_cam(buff: Self) -> (r: Result<LuminanceGrid, FrameError>)
        ensures
            match capture_outcome(
                buff.pixels_view(),
                buff.src_width,
                buff.src_height,
                buff.dst_width,
                buff.dst_height,
            ) {
                Err(e) => r == Err::<LuminanceGrid, FrameError>(e),
                Ok(m) => r is Ok && r->Ok_0.wf() && r->Ok_0@ == m,
            },
            buff.source_ok() && buff.target_ok() ==> r is Ok,
            buff.source_ok() && (buff.dst_width == 0 || buff.dst_height == 0) ==> r == Err::<
                LuminanceGrid,
                FrameError,
            >(FrameError::DimensionInvalid),
            r is Ok ==> buff.source_ok() && r->Ok_0@.width == buff.dst_width && r->Ok_0@.height
                == buff.dst_height,
            r is Ok && buff.dst_width == buff.src_width && buff.dst_height == buff.src_height
                ==> r->Ok_0@ == buff.source_model(),
            r is Ok ==> forall|i: int|
                0 <= i < r->Ok_0@.samples.len() ==> buff.source_model().samples.contains(
                    #[trigger] r->Ok_0@.samples[i],
                ),
    {
        let pixels = match buff.pixels {
            None => {
                return Err(FrameError::DecodeFailed);
            },
            Some(v) => v,
        };
        let src = match LuminanceGrid::from_raw(buff.src_width, buff.src_height, pixels) {
            Err(e) => {
                return Err(e);
            },
            Ok(g) => g,
        };
        resample(src, buff.dst_width, buff.dst_height)
    }
}

/// The text shown for a frame, or why there is none.
pub open spec fn frame_text_outcome(
    pixels: Option<Seq<u8>>,
    sw: u32,
    sh: u32,
    dw: u32,
    dh: u32,
) -> Result<Seq<char>, FrameError> {
    match capture_outcome(pixels, sw, sh, dw, dh) {
        Err(e) => Err(e),
        Ok(m) => Ok(render_text(m, default_ramp_spec())),
    }
}

/// The whole per-frame pipeline after decoding: assemble, resample to the
/// terminal's size, render with the shipped ramp. The text is always the
/// rendering of a grid of the target size whose samples all come from the
/// source; at the source's own size it is the rendering of the source itself.
pub fn frame_text(buff: CameraBuffer) -> (r: Result<String, FrameError>)
    ensures
        match frame_text_outcome(
            buff.pixels_view(),
            buff.src_width,
            buff.src_height,
            buff.dst_width,
            buff.dst_height,
        ) {
            Err(e) => r == Err::<String, FrameError>(e),
            Ok(t) => r is Ok && r->Ok_0@ == t,
        },
        buff.source_ok() && buff.target_ok() ==> r is Ok,
        buff.source_ok() && (buff.dst_width == 0 || buff.dst_height == 0) ==> r == Err::<
            String,
            FrameError,
        >(FrameError::DimensionInvalid),
        r is Ok && buff.dst_width == buff.src_width && buff.dst_height == buff.src_height
            ==> r->Ok_0@ == render_text(buff.source_model(), default_ramp_spec()),
        r is Ok ==> exists|m: GridModel|
            {
                &&& m.wf()
                &&& m.width == buff.dst_width
                &&& m.height == buff.dst_height
                &&& forall|i: int|
                    0 <= i < m.samples.len() ==> buff.source_model().samples.contains(
                        #[trigger] m.samples[i],
                    )
                &&& r->Ok_0@ == #[trigger] render_text(m, default_ramp_spec())
            },
{
    let ghost src = buff.source_model();
    let ghost dw = buff.dst_width;
    let ghost dh = buff.dst_height;
    match CameraBuffer::get_cam(buff) {
        Err(e) => Err(e),
        Ok(g) => {
            let t = render_frame(&g);
            proof {
                let m = g@;
                assert(m.wf() && m.width == dw && m.height == dh);
                assert(forall|i: int|
                    0 <= i < m.samples.len() ==> src.samples.contains(#[trigger] m.samples[i]));
                assert(t@ == render_text(m, default_ramp_spec()));
            }
            Ok(t)
        },
    }
}

/// Whether the capture loop keeps going.
#[derive(Clone, Copy, Debug, PartialEq, Eq, Structural)]
pub enum LoopState {
    Running,
    Stopped,
}

/// What the capture loop does after a frame was processed and the keyboard
/// polled.
#[derive(Clone, Copy, Debug, PartialEq, Eq, Structural)]
pub enum Action {
    /// Clear the terminal and show the frame.
    Display,
    /// Write the frame to a new snapshot file, then show it.
    SaveAndDisplay,
    /// Leave the loop after restoring the terminal.
    Quit,
    /// Leave the loop after restoring the terminal, without showing anything,
    /// and report the error.
    Abort(FrameError),
}

/// The key that ends the session.
pub const QUIT_KEY: char = 'q';

/// The key that saves the current frame.
pub const SAVE_KEY: char = 's';

/// The loop's decision for one iteration.
pub open spec fn step_spec(frame: Result<Seq<char>, FrameError>, key: Option<char>) -> (LoopState, Action) {
    match frame {
        Err(e) => (LoopState::Stopped, Action::Abort(e)),
        Ok(_) => match key {
            Some(c) => if c == QUIT_KEY {
                (LoopState::Stopped, Action::Quit)
            } else if c == SAVE_KEY {
                (LoopState::Running, Action::SaveAndDisplay)
            } else {
                (LoopState::Running, Action::Display)
            },
            None => (LoopState::Running, Action::Display),
        },
    }
}

/// Decides one iteration of the capture loop from the frame's outcome and the
/// key pressed since the last frame, if any. A failed frame stops the loop
/// with nothing shown; `q` stops it; `s` saves the frame once and shows it;
/// any other key, or none, shows it.
pub fn step(frame: &Result<String, FrameError>, key: Option<char>) -> (r: (LoopState, Action))
    ensures
        r == step_spec(
            match frame {
                Ok(s) => Ok(s@),
                Err(e) => Err(*e),
            },
            key,
        ),
        r.0 == LoopState::Running <==> (frame is Ok && key != Some(QUIT_KEY)),
        r.1 == Action::SaveAndDisplay <==> (frame is Ok && key == Some(SAVE_KEY)),
        (r.1 == Action::Display || r.1 == Action::SaveAndDisplay) <==> r.0 == LoopState::Running,
{
    match frame {
        Err(e) => (LoopState::Stopped, Action::Abort(*e)),
        Ok(_) => match key {
            Some(c) => if c == QUIT_KEY {
                (LoopState::Stopped, Action::Quit)
            } else if c == SAVE_KEY {
                (LoopState::Running, Action::SaveAndDisplay)
            } else {
                (LoopState::Running, Action::Display)
            },
            None => (LoopState::Running, Action::Display),
        },
    }
}

/// The snapshot file name for a timestamp: `asciicam-<stamp>.txt`.
pub fn snapshot_file_name(stamp: &str) -> (r: String)
    ensures
        r@ == "asciicam-"@ + stamp@ + ".txt"@,
{
    String::from_str("asciicam-").concat(stamp).concat(".txt")
}

/// A frame that could not be decoded yields `DecodeFailed` whatever the sizes,
/// and the loop stops on it without showing anything, whatever key was pressed.
pub proof fn lemma_decode_failure_stops(sw: u32, sh: u32, dw: u32, dh: u32, key: Option<char>)
    ensures
        frame_text_outcome(None, sw, sh, dw, dh) == Err::<Seq<char>, FrameError>(FrameError::DecodeFailed),
        step_spec(frame_text_outcome(None, sw, sh, dw, dh), key) == (
            LoopState::Stopped,
            Action::Abort(FrameError::DecodeFailed),
        ),
{
}

/// While frames keep coming, a save key yields exactly one save and keeps the
/// loop running; no other key yields a save.
pub proof fn lemma_one_save_per_keypress(frame: Seq<char>, key: Option<char>)
    ensures
        step_spec(Ok(frame), key).1 == Action::SaveAndDisplay <==> key == Some(SAVE_KEY),
        key == Some(SAVE_KEY) ==> step_spec(Ok(frame), key).0 == LoopState::Running,
{
}

} // verus!
