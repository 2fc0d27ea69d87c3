//! The swap chain of a sample and the part of its window that is drawn.

use crate::frames::FRAME_COUNT;
use crate::resources::SampleDesc;
use crate::resources::DXGI_FORMAT_R8G8B8A8_UNORM;
use vstd::prelude::*;

verus! {

pub const DXGI_USAGE_RENDER_TARGET_OUTPUT: u32 = 32;

pub const DXGI_SWAP_EFFECT_FLIP_DISCARD: i32 = 4;

pub const DXGI_SCALING_STRETCH: i32 = 0;

pub const DXGI_ALPHA_MODE_UNSPECIFIED: u32 = 0;

/// What the driver is asked for when a swap chain is created.
#[derive(Clone, Copy, Debug, PartialEq, Eq, Structural)]
pub struct SwapChainDesc {
    pub width: u32,
    pub height: u32,
    pub format: u32,
    pub stereo: bool,
    pub sample_desc: SampleDesc,
    pub buffer_usage: u32,
    pub buffer_count: u32,
    pub scaling: i32,
    pub swap_effect: i32,
    pub alpha_mode: u32,
    pub flags: u32,
}

impl SwapChainDesc {
    /// A swap chain for a window of `width` by `height` pixels: one back
    /// buffer for each frame in flight, with eight bits for each of red,
    /// green, blue and alpha, rendered into and then flipped onto the
    /// screen.
    pub open spec fn spec_for_window(width: u32, height: u32) -> SwapChainDesc {
        SwapChainDesc {
            width,
            height,
            format: DXGI_FORMAT_R8G8B8A8_UNORM,
            stereo: false,
            sample_desc: SampleDesc { count: 1, quality: 0 },
            buffer_usage: DXGI_USAGE_RENDER_TARGET_OUTPUT,
            buffer_count: FRAME_COUNT as u32,
            scaling: DXGI_SCALING_STRETCH,
            swap_effect: DXGI_SWAP_EFFECT_FLIP_DISCARD,
            alpha_mode: DXGI_ALPHA_MODE_UNSPECIFIED,
            flags: 0,
        }
    }

    pub fn for_window(width: u32, height: u32) -> (desc: Self)
        ensures
            desc == Self::spec_for_window(width, height),
    {
        SwapChainDesc {
            width,
            height,
            format: DXGI_FORMAT_R8G8B8A8_UNORM,
            stereo: false,
            sample_desc: SampleDesc { count: 1, quality: 0 },
            buffer_usage: DXGI_USAGE_RENDER_TARGET_OUTPUT,
            buffer_count: FRAME_COUNT as u32,
            scaling: DXGI_SCALING_STRETCH,
            swap_effect: DXGI_SWAP_EFFECT_FLIP_DISCARD,
            alpha_mode: DXGI_ALPHA_MODE_UNSPECIFIED,
            flags: 0,
        }
    }
}

/// A rectangle of pixels, from its left and top edge up to, but without,
/// its right and bottom edge.
#[derive(Clone, Copy, Debug, PartialEq, Eq, Structural)]
pub struct Rect {
    pub left: i32,
    pub top: i32,
    pub right: i32,
    pub bottom: i32,
}

impl Rect {
    /// The rectangle of the client area of a window of the given size,
    /// before the frame of the window is added round it.
    pub fn of_window(size: (i32, i32)) -> (rect: Self)
        ensures
            rect == (Rect { left: 0, top: 0, right: size.0, bottom: size.1 }),
    {
        Rect { left: 0, top: 0, right: size.0, bottom: size.1 }
    }

    /// The rectangle that is drawn of a render target of `width` by
    /// `height` pixels: all of it. The edges are signed 32-bit numbers; a
    /// size beyond them wraps round.
    pub fn scissor(width: u32, height: u32) -> (rect: Self)
        ensures
            rect == (Rect { left: 0, top: 0, right: width as i32, bottom: height as i32 }),
    {
        Rect {
            left: 0,
            top: 0,
            right: #[verifier::truncate]
            (width as i32),
            bottom: #[verifier::truncate]
            (height as i32),
        }
    }

    /// Whether width and height of the rectangle are 32-bit numbers.
    pub open spec fn measurable(&self) -> bool {
        &&& i32::MIN <= self.right - self.left <= i32::MAX
        &&& i32::MIN <= self.bottom - self.top <= i32::MAX
    }

    /// Whether width and height of the rectangle are 32-bit numbers.
    pub fn is_measurable(&self) -> (measurable: bool)
        ensures
            measurable == self.measurable(),
    {
        self.right.checked_sub(self.left).is_some() && self.bottom.checked_sub(self.top).is_some()
    }

    /// From the left edge to the right edge.
    pub fn width(&self) -> (width: i32)
        requires
            self.measurable(),
        ensures
            width == self.right - self.left,
    {
        self.right - self.left
    }

    /// From the top edge to the bottom edge.
    pub fn height(&self) -> (height: i32)
        requires
            self.measurable(),
        ensures
            height == self.bottom - self.top,
    {
        self.bottom - self.top
    }
}

} // verus!
