use vstd::prelude::*;

verus! {

/// Why a frame could not be turned into text.
#[derive(Clone, Copy, Debug, PartialEq, Eq, Structural)]
pub enum FrameError {
    /// The compressed frame could not be decoded.
    DecodeFailed,
    /// A width or height of zero was handed to the grid or the resampler.
    DimensionInvalid,
    /// The resampler could not produce the requested grid.
    ResampleFailed,
    /// A sample buffer does not have `width * height` samples.
    ImageAssemblyFailed,
}

/// Mathematical model of a luminance grid: row-major samples, top row first.
pub ghost struct GridModel {
    pub width: nat,
    pub height: nat,
    pub samples: Seq<u8>,
}

impl GridModel {
    /// Sample at column `x`, row `y`.
    pub open spec fn at(self, x: int, y: int) -> u8 {
        self.samples[y * self.width + x]
    }

    pub open spec fn wf(self) -> bool {
        &&& self.width > 0
        &&& self.height > 0
        &&& self.width * self.height <= u32::MAX
        &&& self.samples.len() == self.width * self.height
    }
}

/// A rectangular grid of 8-bit luminance samples.
pub struct LuminanceGrid {
    width: u32,
    height: u32,
    samples: Vec<u8>,
}

impl View for LuminanceGrid {
    type V = GridModel;

    closed spec fn view(&self) -> GridModel {
        GridModel { width: self.width as nat, height: self.height as nat, samples: self.samples@ }
    }
}

/// The outcome of assembling a grid from raw parts.
pub open spec fn assembly_outcome(width: u32, height: u32, len: nat) -> Option<FrameError> {
    if width == 0 || height == 0 {
        Some(FrameError::DimensionInvalid)
    } else if width * height > u32::MAX || len != width * height {
        Some(FrameError::ImageAssemblyFailed)
    } else {
        None
    }
}

impl LuminanceGrid {
    pub open spec fn wf(&self) -> bool {
        self@.wf()
    }

    /// Assembles a grid from row-major samples. A zero dimension is
    /// `DimensionInvalid`; a buffer whose length is not `width * height`
    /// (or a product beyond `u32`) is `ImageAssemblyFailed`.
    pub fn from_raw(width: u32, height: u32, samples: Vec<u8>) -> (r: Result<
        LuminanceGrid,
        FrameError,
    >)
        ensures
            match assembly_outcome(width, height, samples@.len()) {
                Some(e) => r == Err::<LuminanceGrid, FrameError>(e),
                None => r is Ok && r->Ok_0.wf() && r->Ok_0@ == (GridModel {
                    width: width as nat,
                    height: height as nat,
                    samples: samples@,
                }),
            },
    {
        if width == 0 || height == 0 {
            return Err(FrameError::DimensionInvalid);
        }
        assert(width as u64 * height as u64 <= u64::MAX) by (nonlinear_arith)
            requires
                width <= u32::MAX,
                height <= u32::MAX,
        ;
        let area: u64 = width as u64 * height as u64;
        if area > u32::MAX as u64 || samples.len() as u64 != area {
            return Err(FrameError::ImageAssemblyFailed);
        }
        Ok(LuminanceGrid { width, height, samples })
    }

    pub fn width(&self) -> (r: u32)
        ensures
            r == self@.width,
    {
        self.width
    }

    pub fn height(&self) -> (r: u32)
        ensures
            r == self@.height,
    {
        self.height
    }

    pub fn samples(&self) -> (r: &Vec<u8>)
        ensures
            r@ == self@.samples,
    {
        &self.samples
    }

    /// Gives up the samples, row-major.
    pub fn into_samples(self) -> (r: Vec<u8>)
        ensures
            r@ == self@.samples,
    {
        self.samples
    }

    /// Sample at column `x`, row `y`.
    pub fn get(&self, x: u32, y: u32) -> (r: u8)
        requires
            self.wf(),
            x < self@.width,
            y < self@.height,
        ensures
            r == self@.at(x as int, y as int),
    {
        proof {
            lemma_index_in_grid(self@.width, self@.height, x as nat, y as nat);
        }
        let i: usize = y as usize * self.width as usize + x as usize;
        self.samples[i]
    }
}

/// A cell of a `w` by `h` grid has its row-major index below `w * h`.
pub proof fn lemma_index_in_grid(w: nat, h: nat, x: nat, y: nat)
    requires
        x < w,
        y < h,
    ensures
        y * w + x < w * h,
{
    assert(y * w + x < w * h) by (nonlinear_arith)
        requires
            x < w,
            y < h,
    ;
}

} // verus!
