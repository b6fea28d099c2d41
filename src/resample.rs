use vstd::prelude::*;

use fast_image_resize as fr;
use std::num::NonZeroU32;

use crate::grid::{FrameError, GridModel, LuminanceGrid};

verus! {

/// The largest target width or height handed to the resampler: the range of a
/// terminal size. fast_image_resize walks source rows by a running float sum,
/// whose rounding error stays far inside half a step only up to about 10^8 rows.
pub const MAX_TARGET_SIDE: u32 = 65535;

/// The samples that fast_image_resize's nearest-neighbour resampler writes for a
/// `sw` by `sh` source resized to `dw` by `dh`.
pub uninterp spec fn nearest_resample(src: Seq<u8>, sw: nat, sh: nat, dw: nat, dh: nat) -> Seq<u8>;

/// Relies on fast_image_resize 2.7: `Image::from_vec_u8`, `Image::new`,
/// `Resizer::new(ResizeAlg::Nearest)` and `Resizer::resize` on `U8` pixels.
/// A buffer of `sw * sh` one-byte pixels is always accepted (`U8` is always
/// aligned), both views are `U8` so `resize` returns `Ok`, the destination has
/// `dw * dh` samples, each copied from some source sample, and equal sizes make
/// `resize_inner` copy the source unchanged. Target sides are kept within a
/// terminal's range, where the row walk of `iter_rows_with_step` stays inside
/// the source.
#[verifier::external_body]
fn resize_nearest(src: &Vec<u8>, sw: u32, sh: u32, dw: u32, dh: u32) -> (r: Vec<u8>)
    requires
        sw > 0,
        sh > 0,
        dw > 0,
        dh > 0,
        dw <= MAX_TARGET_SIDE,
        dh <= MAX_TARGET_SIDE,
        sw * sh <= u32::MAX,
        src@.len() == sw * sh,
    ensures
        r@ == nearest_resample(src@, sw as nat, sh as nat, dw as nat, dh as nat),
        r@.len() == dw * dh,
        sw == dw && sh == dh ==> r@ == src@,
        forall|i: int| 0 <= i < r@.len() ==> src@.contains(#[trigger] r@[i]),
{
    let (w, h) = (NonZeroU32::new(sw).unwrap(), NonZeroU32::new(sh).unwrap());
    let src_img = fr::Image::from_vec_u8(w, h, src.clone(), fr::PixelType::U8).unwrap();
    let (w, h) = (NonZeroU32::new(dw).unwrap(), NonZeroU32::new(dh).unwrap());
    let mut dst_img = fr::Image::new(w, h, fr::PixelType::U8);
    let mut resizer = fr::Resizer::new(fr::ResizeAlg::Nearest);
    resizer.resize(&src_img.view(), &mut dst_img.view_mut()).unwrap();
    dst_img.buffer().to_vec()
}

/// What resampling a well-formed grid to `dw` by `dh` yields.
pub open spec fn resample_outcome(src: GridModel, dw: u32, dh: u32) -> Result<GridModel, FrameError> {
    if dw == 0 || dh == 0 {
        Err(FrameError::DimensionInvalid)
    } else if dw > MAX_TARGET_SIDE || dh > MAX_TARGET_SIDE {
        Err(FrameError::ResampleFailed)
    } else {
        Ok(
            GridModel {
                width: dw as nat,
                height: dh as nat,
                samples: nearest_resample(src.samples, src.width, src.height, dw as nat, dh as nat),
            },
        )
    }
}

/// Nearest-neighbour resampling of `src` to exactly `dst_width` by `dst_height`.
/// A zero target dimension is `DimensionInvalid`; a target side above
/// `MAX_TARGET_SIDE` is `ResampleFailed`. Resampling to the grid's own size
/// returns the same samples, and every output sample is one of the source's.
pub fn resample(src: LuminanceGrid, dst_width: u32, dst_height: u32) -> (r: Result<
    LuminanceGrid,
    FrameError,
>)
    requires
        src.wf(),
    ensures
        match resample_outcome(src@, dst_width, dst_height) {
            Err(e) => r == Err::<LuminanceGrid, FrameError>(e),
            Ok(m) => r is Ok && r->Ok_0.wf() && r->Ok_0@ == m,
        },
        r is Ok ==> r->Ok_0@.width == dst_width && r->Ok_0@.height == dst_height,
        r is Ok && dst_width == src@.width && dst_height == src@.height ==> r->Ok_0@ == src@,
        r is Ok ==> forall|i: int|
            0 <= i < r->Ok_0@.samples.len() ==> src@.samples.contains(
                #[trigger] r->Ok_0@.samples[i],
            ),
{
    if dst_width == 0 || dst_height == 0 {
        return Err(FrameError::DimensionInvalid);
    }
    if dst_width > MAX_TARGET_SIDE || dst_height > MAX_TARGET_SIDE {
        return Err(FrameError::ResampleFailed);
    }
    assert(dst_width * dst_height <= u32::MAX) by (nonlinear_arith)
        requires
            dst_width <= MAX_TARGET_SIDE,
            dst_height <= MAX_TARGET_SIDE,
            MAX_TARGET_SIDE == 65535,
    ;
    let sw = src.width();
    let sh = src.height();
    let out = resize_nearest(src.samples(), sw, sh, dst_width, dst_height);
    let r = LuminanceGrid::from_raw(dst_width, dst_height, out);
    proof {
        if dst_width == sw && dst_height == sh {
            assert(r->Ok_0@ =~= src@);
        }
    }
    r
}

} // verus!
