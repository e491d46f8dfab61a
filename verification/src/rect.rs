//! Rectangles in pixels, and the two-corner form the driver takes.

use vstd::prelude::*;

verus! {

/// An area of a surface, in pixels, measured from the bottom-left corner.
#[derive(Clone, Copy, Debug, PartialEq, Eq, Structural)]
pub struct Rect {
    /// Pixels between the left edge of the surface and the left edge of the area.
    pub left: u32,
    /// Pixels between the bottom edge of the surface and the bottom edge of the area.
    pub bottom: u32,
    /// Width of the area.
    pub width: u32,
    /// Height of the area.
    pub height: u32,
}

/// The area a blit writes to. A negative width or height flips the image
/// along that axis: the extent is added to the origin as it stands, and the
/// second corner then lies left of, or below, the first.
#[derive(Clone, Copy, Debug, PartialEq, Eq, Structural)]
pub struct BlitTarget {
    /// Pixels between the left edge of the surface and the first corner.
    pub left: u32,
    /// Pixels between the bottom edge of the surface and the first corner.
    pub bottom: u32,
    /// Signed width of the area.
    pub width: i32,
    /// Signed height of the area.
    pub height: i32,
}

/// An area given by two opposite corners, the form in which the driver takes it.
#[derive(Clone, Copy, Debug, PartialEq, Eq, Structural)]
pub struct Corners {
    /// Horizontal position of the first corner.
    pub x0: i32,
    /// Vertical position of the first corner.
    pub y0: i32,
    /// Horizontal position of the second corner.
    pub x1: i32,
    /// Vertical position of the second corner.
    pub y1: i32,
}

/// `value` can be handed to the driver, which takes signed 32-bit integers.
pub open spec fn driver_int(value: int) -> bool {
    i32::MIN <= value <= i32::MAX
}

impl Corners {
    /// The corners are those of the area that starts at `(left, bottom)` and
    /// extends by `width` and `height`: the first is `(left, bottom)`, the
    /// second `(left + width, bottom + height)`.
    pub open spec fn spans(self, left: int, bottom: int, width: int, height: int) -> bool {
        &&& self.x0 == left
        &&& self.y0 == bottom
        &&& self.x1 == left + width
        &&& self.y1 == bottom + height
    }
}

impl Rect {
    /// Both corners of the area can be handed to the driver.
    pub open spec fn spec_representable(&self) -> bool {
        &&& driver_int(self.left + self.width)
        &&& driver_int(self.bottom + self.height)
    }

    /// The area in two-corner form: `(left, bottom)` and
    /// `(left + width, bottom + height)`.
    pub open spec fn spec_corners(&self) -> Corners {
        Corners {
            x0: self.left as i32,
            y0: self.bottom as i32,
            x1: (self.left + self.width) as i32,
            y1: (self.bottom + self.height) as i32,
        }
    }

    /// Tells whether both corners of the area can be handed to the driver.
    #[verifier::when_used_as_spec(spec_representable)]
    pub fn representable(&self) -> (r: bool)
        ensures
            r == self.spec_representable(),
    {
        self.width <= 0x7fff_ffff && self.left <= 0x7fff_ffff - self.width
            && self.height <= 0x7fff_ffff && self.bottom <= 0x7fff_ffff - self.height
    }

    /// Converts the area to two-corner form.
    #[verifier::when_used_as_spec(spec_corners)]
    pub fn corners(&self) -> (c: Corners)
        requires
            self.representable(),
        ensures
            c == self.spec_corners(),
            c.spans(self.left as int, self.bottom as int, self.width as int, self.height as int),
    {
        Corners {
            x0: self.left as i32,
            y0: self.bottom as i32,
            x1: (self.left + self.width) as i32,
            y1: (self.bottom + self.height) as i32,
        }
    }
}

impl BlitTarget {
    /// Both corners of the area can be handed to the driver.
    pub open spec fn spec_representable(&self) -> bool {
        &&& driver_int(self.left as int)
        &&& driver_int(self.bottom as int)
        &&& driver_int(self.left + self.width)
        &&& driver_int(self.bottom + self.height)
    }

    /// The area in two-corner form: `(left, bottom)` and
    /// `(left + width, bottom + height)`, whatever the signs of the extents.
    pub open spec fn spec_corners(&self) -> Corners {
        Corners {
            x0: self.left as i32,
            y0: self.bottom as i32,
            x1: (self.left + self.width) as i32,
            y1: (self.bottom + self.height) as i32,
        }
    }

    /// Tells whether both corners of the area can be handed to the driver.
    #[verifier::when_used_as_spec(spec_representable)]
    pub fn representable(&self) -> (r: bool)
        ensures
            r == self.spec_representable(),
    {
        if self.left > 0x7fff_ffff || self.bottom > 0x7fff_ffff {
            return false;
        }
        let left: i32 = self.left as i32;
        let bottom: i32 = self.bottom as i32;
        (self.width <= 0 || left <= 0x7fff_ffff - self.width)
            && (self.height <= 0 || bottom <= 0x7fff_ffff - self.height)
    }

    /// Converts the area to two-corner form. A negative extent is added like
    /// any other, so a flipped area keeps its orientation.
    #[verifier::when_used_as_spec(spec_corners)]
    pub fn corners(&self) -> (c: Corners)
        requires
            self.representable(),
        ensures
            c == self.spec_corners(),
            c.spans(self.left as int, self.bottom as int, self.width as int, self.height as int),
    {
        let left: i32 = self.left as i32;
        let bottom: i32 = self.bottom as i32;
        Corners { x0: left, y0: bottom, x1: left + self.width, y1: bottom + self.height }
    }
}

} // verus!
