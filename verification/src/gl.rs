//! Numeric names of the driver API that the layer hands to the driver.

use vstd::prelude::*;

verus! {

/// Mask bit that selects the depth buffer.
pub const DEPTH_BUFFER_BIT: u32 = 0x0000_0100;

/// Mask bit that selects the stencil buffer.
pub const STENCIL_BUFFER_BIT: u32 = 0x0000_0400;

/// Mask bit that selects the color buffers.
pub const COLOR_BUFFER_BIT: u32 = 0x0000_4000;

/// Nearest-neighbour sampling.
pub const NEAREST: u32 = 0x2600;

/// Linear sampling.
pub const LINEAR: u32 = 0x2601;

/// The scissor test, as a capability to enable or disable.
pub const SCISSOR_TEST: u32 = 0x0C11;

/// Binding point of both framebuffers at once.
pub const FRAMEBUFFER: u32 = 0x8D40;

/// Binding point of the framebuffer that is read from.
pub const READ_FRAMEBUFFER: u32 = 0x8CA8;

/// Binding point of the framebuffer that is drawn to.
pub const DRAW_FRAMEBUFFER: u32 = 0x8CA9;

/// Binding point for reading, as the framebuffer extension names it.
pub const READ_FRAMEBUFFER_EXT: u32 = 0x8CA8;

/// Binding point for drawing, as the framebuffer extension names it.
pub const DRAW_FRAMEBUFFER_EXT: u32 = 0x8CA9;

/// Handle of the default framebuffer, the surface that the window provides.
pub const DEFAULT_FRAMEBUFFER: u32 = 0;

} // verus!
