//! Logical and device-pixel geometry, and fixed-point scale factors.
//!
//! Scale factors are carried in thousandths (a scale of `1.5` is `1500`),
//! so that rounding between logical and device coordinates is exact integer
//! arithmetic with round-half-away-from-zero semantics.

use vstd::prelude::*;

verus! {

/// Number of fixed-point scale units that make up a scale factor of one.
pub const SCALE_UNIT: u32 = 1000;

/// Minimum width of a window surface in logical pixels.
pub const MIN_SURFACE_WIDTH: u32 = 2;

/// Minimum height of a window surface in logical pixels.
pub const MIN_SURFACE_HEIGHT: u32 = 1;

/// A size in logical (scale-independent) pixels.
#[derive(Clone, Copy, Debug, PartialEq, Eq, Structural)]
pub struct LogicalSize {
    pub width: u32,
    pub height: u32,
}

/// A size in device pixels.
#[derive(Clone, Copy, Debug, PartialEq, Eq, Structural)]
pub struct PhysicalSize {
    pub width: u32,
    pub height: u32,
}

/// A position in logical pixels.
#[derive(Clone, Copy, Debug, PartialEq, Eq, Structural)]
pub struct LogicalPosition {
    pub x: i32,
    pub y: i32,
}

/// A position in device pixels.
#[derive(Clone, Copy, Debug, PartialEq, Eq, Structural)]
pub struct PhysicalPosition {
    pub x: i32,
    pub y: i32,
}

/// A non-negative scale factor in thousandths; `millis == 1000` is a scale
/// factor of one, the default.
#[derive(Clone, Copy, Debug, PartialEq, Eq, Structural)]
pub struct ScaleFactor {
    pub millis: u32,
}

impl ScaleFactor {
    /// The default scale factor of one.
    pub fn unit() -> (r: Self)
        ensures
            r.millis == SCALE_UNIT,
    {
        ScaleFactor { millis: SCALE_UNIT }
    }

    /// The integer part of the scale factor, as handed to a buffer-scale
    /// request (the fractional part is truncated).
    pub fn integer_part(&self) -> (r: u32)
        ensures
            r == self.millis / 1000,
    {
        self.millis / SCALE_UNIT
    }
}

/// `v` scaled by `millis` thousandths, rounded half away from zero.
pub open spec fn scale_round(v: nat, millis: nat) -> nat {
    (v * millis + 500) / 1000
}

/// The scaled value saturated into `u32`.
pub open spec fn scale_round_u32(v: nat, millis: nat) -> nat {
    let r = scale_round(v, millis);
    if r > u32::MAX {
        u32::MAX as nat
    } else {
        r
    }
}

/// Signed scaling with round-half-away-from-zero semantics.
pub open spec fn scale_round_signed(v: int, millis: nat) -> int {
    if v >= 0 {
        scale_round(v as nat, millis) as int
    } else {
        -(scale_round((-v) as nat, millis) as int)
    }
}

/// The scaled value saturated into the `i32` range.
pub open spec fn scale_round_i32(v: int, millis: nat) -> int {
    let r = scale_round_signed(v, millis);
    if r > i32::MAX {
        i32::MAX as int
    } else if r < i32::MIN {
        i32::MIN as int
    } else {
        r
    }
}

/// A requested size clamped up to the platform minimum.
pub open spec fn clamp_size_to_min(s: LogicalSize) -> LogicalSize {
    LogicalSize {
        width: if s.width < MIN_SURFACE_WIDTH {
            MIN_SURFACE_WIDTH
        } else {
            s.width
        },
        height: if s.height < MIN_SURFACE_HEIGHT {
            MIN_SURFACE_HEIGHT
        } else {
            s.height
        },
    }
}

/// Whether a size meets the platform minimum.
pub open spec fn size_meets_min(s: LogicalSize) -> bool {
    s.width >= MIN_SURFACE_WIDTH && s.height >= MIN_SURFACE_HEIGHT
}

/// Clamp a requested size up to the platform minimum.
pub fn clamp_to_min(s: LogicalSize) -> (r: LogicalSize)
    ensures
        r == clamp_size_to_min(s),
        size_meets_min(r),
{
    LogicalSize {
        width: if s.width < MIN_SURFACE_WIDTH {
            MIN_SURFACE_WIDTH
        } else {
            s.width
        },
        height: if s.height < MIN_SURFACE_HEIGHT {
            MIN_SURFACE_HEIGHT
        } else {
            s.height
        },
    }
}

proof fn lemma_mul_bound(a: int, b: int, ca: int, cb: int)
    by (nonlinear_arith)
    requires
        0 <= a <= ca,
        0 <= b <= cb,
    ensures
        a * b <= ca * cb,
{
}

fn scale_dim(v: u32, millis: u32) -> (r: u32)
    ensures
        r == scale_round_u32(v as nat, millis as nat),
{
    proof {
        lemma_mul_bound(v as int, millis as int, u32::MAX as int, u32::MAX as int);
    }
    let prod: u128 = (v as u128) * (millis as u128) + 500;
    let q: u128 = prod / 1000;
    if q > u32::MAX as u128 {
        u32::MAX
    } else {
        q as u32
    }
}

fn scale_coord(v: i32, millis: u32) -> (r: i32)
    ensures
        r as int == scale_round_i32(v as int, millis as nat),
{
    if v >= 0 {
        proof {
            lemma_mul_bound(v as int, millis as int, u32::MAX as int, u32::MAX as int);
        }
        let prod: u128 = (v as u128) * (millis as u128) + 500;
        let q: u128 = prod / 1000;
        if q > i32::MAX as u128 {
            i32::MAX
        } else {
            q as i32
        }
    } else {
        let mag: u64 = (-(v as i64)) as u64;
        proof {
            lemma_mul_bound(mag as int, millis as int, 0x8000_0000, u32::MAX as int);
        }
        let prod: u128 = (mag as u128) * (millis as u128) + 500;
        let q: u128 = prod / 1000;
        if q >= 2147483648 {
            i32::MIN
        } else {
            -(q as i32)
        }
    }
}

/// Convert a logical size to device pixels by the given scale factor,
/// rounding half away from zero and saturating at the `u32` range.
pub fn logical_to_physical_rounded(size: LogicalSize, scale: ScaleFactor) -> (r: PhysicalSize)
    ensures
        r.width == scale_round_u32(size.width as nat, scale.millis as nat),
        r.height == scale_round_u32(size.height as nat, scale.millis as nat),
{
    PhysicalSize {
        width: scale_dim(size.width, scale.millis),
        height: scale_dim(size.height, scale.millis),
    }
}

/// Convert a logical position to device pixels by the given scale factor,
/// rounding half away from zero and saturating at the `i32` range.
pub fn logical_to_physical_rounded_pos(pos: LogicalPosition, scale: ScaleFactor) -> (r:
    PhysicalPosition)
    ensures
        r.x as int == scale_round_i32(pos.x as int, scale.millis as nat),
        r.y as int == scale_round_i32(pos.y as int, scale.millis as nat),
{
    PhysicalPosition { x: scale_coord(pos.x, scale.millis), y: scale_coord(pos.y, scale.millis) }
}

} // verus!
