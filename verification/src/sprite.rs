//! What the rules hand to the renderer: one record per image to paint.

use vstd::prelude::*;

verus! {

/// The images the game paints.
#[derive(Clone, Copy, Debug, PartialEq, Eq, Structural)]
pub enum Picture {
    Background,
    Plane,
    FireBall,
    Torpedo,
}

/// A factor of the sprite transform, kept as a fraction so that no rounding
/// happens before the renderer divides.
#[derive(Clone, Copy, Debug, PartialEq, Eq, Structural)]
pub struct Ratio {
    pub num: i32,
    pub den: i32,
}

/// One image with the transform it is painted with.
#[derive(Clone, Copy, Debug, PartialEq, Eq, Structural)]
pub struct Sprite {
    pub picture: Picture,
    /// Where on the screen the image's anchor goes, in pixels.
    pub x: i32,
    pub y: i32,
    /// Factors by which the image is stretched.
    pub scale_x: Ratio,
    pub scale_y: Ratio,
    /// The anchor inside the image, as a share of its width and height.
    pub offset_x: Ratio,
    pub offset_y: Ratio,
    /// Turn about the anchor.
    pub rotation: i32,
}

/// The fraction `num / den`.
pub open spec fn ratio(num: int, den: int) -> Ratio {
    Ratio { num: num as i32, den: den as i32 }
}

/// The factor that leaves a length as it is.
pub open spec fn unit() -> Ratio {
    ratio(1, 1)
}

/// The factor zero: an anchor at the image's left or upper edge.
pub open spec fn none() -> Ratio {
    ratio(0, 1)
}

impl Ratio {
    pub fn new(num: i32, den: i32) -> (r: Ratio)
        ensures
            r == ratio(num as int, den as int),
    {
        Ratio { num, den }
    }
}

} // verus!
