use vstd::prelude::*;

use crate::error::{Fault, RenderError};
use crate::geometry::{fits_i64, SCALE};

verus! {

/// Page units per inch.
pub const UNITS_PER_INCH: i64 = 72;

/// The physical extent, in fixed-point page units, of `pixels` pixels printed
/// at a resolution of `dpi` (fixed-point dots per inch): `pixels * 72 / dpi`
/// page units, rounded down to a fixed-point step.
pub open spec fn physical_length(pixels: int, dpi: int) -> int {
    pixels * UNITS_PER_INCH * SCALE * SCALE / dpi
}

/// Where an image lands: its lower-left corner in output coordinates and its
/// physical size.
#[derive(Debug)]
pub struct Placement {
    pub x: i64,
    pub y: i64,
    pub width: i64,
    pub height: i64,
}

/// The placement of an image of `width_px` by `height_px` pixels at `dpi`,
/// whose top-right corner is the authored anchor `(ax, ay)`, on a page of
/// height `page_height`: `Ok((x, y, w, h))`, or the fault.
pub open spec fn placement_of(
    width_px: int,
    height_px: int,
    dpi: int,
    ax: int,
    ay: int,
    page_height: int,
) -> Result<(int, int, int, int), Fault> {
    if dpi <= 0 {
        Err(Fault::InvalidParameter)
    } else {
        let w = physical_length(width_px, dpi);
        let h = physical_length(height_px, dpi);
        let x = ax - w;
        let y = page_height - ay - h;
        if fits_i64(x) && fits_i64(y) {
            Ok((x, y, w, h))
        } else {
            Err(Fault::OutOfRange)
        }
    }
}

/// Computes the footprint and lower-left corner of an image whose anchor is
/// its top-right corner in authored coordinates.
pub fn place_image(
    width_px: u32,
    height_px: u32,
    dpi: i64,
    anchor: (i64, i64),
    page_height: i64,
) -> (r: Result<Placement, RenderError>)
    ensures
        match placement_of(
            width_px as int,
            height_px as int,
            dpi as int,
            anchor.0 as int,
            anchor.1 as int,
            page_height as int,
        ) {
            Ok(p) => r matches Ok(q) && q.x == p.0 && q.y == p.1 && q.width == p.2 && q.height
                == p.3,
            Err(f) => r matches Err(e) && e@ == f,
        },
{
    if dpi <= 0 {
        return Err(RenderError::InvalidParameter);
    }
    proof {
        let d = dpi as int;
        let k = UNITS_PER_INCH * SCALE * SCALE;
        assert(0 <= width_px * k <= u32::MAX * k) by (nonlinear_arith)
            requires
                0 <= width_px <= u32::MAX,
                k == 72_000_000,
        ;
        assert(0 <= height_px * k <= u32::MAX * k) by (nonlinear_arith)
            requires
                0 <= height_px <= u32::MAX,
                k == 72_000_000,
        ;
        assert(width_px * k / d <= width_px * k) by (nonlinear_arith)
            requires
                width_px * k >= 0,
                d >= 1,
        ;
        assert(height_px * k / d <= height_px * k) by (nonlinear_arith)
            requires
                height_px * k >= 0,
                d >= 1,
        ;
        assert(width_px * k / d >= 0) by (nonlinear_arith)
            requires
                width_px * k >= 0,
                d >= 1,
        ;
        assert(height_px * k / d >= 0) by (nonlinear_arith)
            requires
                height_px * k >= 0,
                d >= 1,
        ;
    }
    let factor: i64 = UNITS_PER_INCH * SCALE * SCALE;
    let width = (width_px as i64) * factor / dpi;
    let height = (height_px as i64) * factor / dpi;
    let x_wide: i128 = anchor.0 as i128 - width as i128;
    let y_wide: i128 = page_height as i128 - anchor.1 as i128 - height as i128;
    if x_wide < i64::MIN as i128 || x_wide > i64::MAX as i128 || y_wide < i64::MIN as i128
        || y_wide > i64::MAX as i128 {
        return Err(RenderError::OutOfRange);
    }
    Ok(Placement { x: x_wide as i64, y: y_wide as i64, width, height })
}

} // verus!
