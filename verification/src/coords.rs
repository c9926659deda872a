//! Coordinate and viewport model.
//!
//! All geometry is kept in engine device pixels. The windowing toolkit
//! reports physical (already hidpi-scaled) sizes; the hidpi scale factor is
//! recorded so that lengths given in window-manager (logical) units can be
//! converted to device pixels when needed. The scale is carried as a whole
//! number of percent, so that the model stays in integer arithmetic.

use vstd::prelude::*;

verus! {

/// A point in device pixels.
#[derive(Clone, Copy, Debug, PartialEq, Eq, Structural)]
pub struct DevicePoint {
    pub x: i32,
    pub y: i32,
}

/// A size in device pixels.
#[derive(Clone, Copy, Debug, PartialEq, Eq, Structural)]
pub struct DeviceSize {
    pub width: i32,
    pub height: i32,
}

/// An axis-aligned rectangle in device pixels.
#[derive(Clone, Copy, Debug, PartialEq, Eq, Structural)]
pub struct DeviceRect {
    pub origin: DevicePoint,
    pub size: DeviceSize,
}

/// The window's hidpi scale factor, in percent (a factor of 2.0 is 200).
#[derive(Clone, Copy, Debug, PartialEq, Eq, Structural)]
pub struct HidpiScale {
    pub percent: u32,
}

/// Largest supported scale factor, in percent.
pub const MAX_HIDPI_PERCENT: u32 = 10000;

impl DeviceSize {
    /// A size is drawable when both extents are strictly positive; the engine
    /// rejects a zero-area render target.
    pub open spec fn positive(self) -> bool {
        self.width > 0 && self.height > 0
    }

    pub open spec fn non_negative(self) -> bool {
        self.width >= 0 && self.height >= 0
    }

    pub fn new(width: i32, height: i32) -> (s: DeviceSize)
        ensures
            s.width == width,
            s.height == height,
    {
        DeviceSize { width, height }
    }

    /// Whether both extents are strictly positive.
    pub fn is_positive(&self) -> (r: bool)
        ensures
            r == self.positive(),
    {
        self.width > 0 && self.height > 0
    }
}

impl HidpiScale {
    /// A meaningful scale factor is strictly positive and bounded.
    pub open spec fn wf(self) -> bool {
        1 <= self.percent <= MAX_HIDPI_PERCENT
    }

    pub fn new(percent: u32) -> (s: HidpiScale)
        requires
            1 <= percent <= MAX_HIDPI_PERCENT,
        ensures
            s.percent == percent,
            s.wf(),
    {
        HidpiScale { percent }
    }

    /// Convert one logical (window-manager unit) length to device pixels.
    pub fn to_device(&self, logical: i32) -> (r: i32)
        requires
            self.wf(),
            0 <= logical,
            scaled_length(logical as int, self.percent as int) <= i32::MAX,
        ensures
            r == scaled_length(logical as int, self.percent as int),
    {
        let wide: i64 = (logical as i64) * (self.percent as i64);
        proof {
            assert(0 <= wide <= (i32::MAX as i64) * (MAX_HIDPI_PERCENT as i64)) by (nonlinear_arith)
                requires
                    0 <= logical <= i32::MAX,
                    1 <= self.percent <= MAX_HIDPI_PERCENT,
                    wide == (logical as i64) * (self.percent as i64),
            ;
        }
        (wide / 100) as i32
    }
}

/// A logical length scaled to device pixels and rounded down.
pub open spec fn scaled_length(logical: int, percent: int) -> int {
    (logical * percent) / 100
}

/// The window geometry as the engine sees it, in device pixels.
#[derive(Clone, Copy, Debug, PartialEq, Eq, Structural)]
pub struct Viewport {
    pub origin: DevicePoint,
    pub size: DeviceSize,
    pub framebuffer: DeviceSize,
    pub hidpi_scale: HidpiScale,
    pub screen_size: DeviceSize,
    pub available_screen_size: DeviceSize,
}

impl Viewport {
    /// Well-formedness: extents are never negative, the framebuffer matches
    /// the viewport, and the scale factor is meaningful.
    pub open spec fn wf(self) -> bool {
        &&& self.size.non_negative()
        &&& self.framebuffer == self.size
        &&& self.hidpi_scale.wf()
        &&& self.screen_size.non_negative()
        &&& self.available_screen_size.non_negative()
    }

    /// The rectangle the engine should draw into.
    pub open spec fn spec_rect(self) -> DeviceRect {
        DeviceRect { origin: self.origin, size: self.size }
    }

    pub fn rect(&self) -> (r: DeviceRect)
        ensures
            r == self.spec_rect(),
    {
        DeviceRect { origin: self.origin, size: self.size }
    }

    /// The viewport after the window reports a new drawable size; everything
    /// but the viewport and framebuffer sizes is kept.
    pub open spec fn spec_resized(self, size: DeviceSize) -> Viewport {
        Viewport { size, framebuffer: size, ..self }
    }

    /// Apply a resize to a strictly positive size. Degenerate sizes must be
    /// rejected by the caller; they never produce a viewport update.
    pub fn resized(&self, size: DeviceSize) -> (v: Viewport)
        requires
            self.wf(),
            size.positive(),
        ensures
            v == self.spec_resized(size),
            v.wf(),
    {
        Viewport { size, framebuffer: size, ..*self }
    }
}

/// Build the initial viewport from the window's reported drawable size (in
/// device pixels) and its hidpi scale factor. The screen is taken to be the
/// window itself, as a single-window embedding has nothing larger to report.
pub fn to_device_rect(window_size: DeviceSize, scale: HidpiScale) -> (v: Viewport)
    requires
        window_size.positive(),
        scale.wf(),
    ensures
        v.origin == (DevicePoint { x: 0, y: 0 }),
        v.size == window_size,
        v.framebuffer == window_size,
        v.hidpi_scale == scale,
        v.screen_size == window_size,
        v.available_screen_size == window_size,
        v.wf(),
{
    Viewport {
        origin: DevicePoint { x: 0, y: 0 },
        size: window_size,
        framebuffer: window_size,
        hidpi_scale: scale,
        screen_size: window_size,
        available_screen_size: window_size,
    }
}

} // verus!
