//! The part of a cover picture that is shown.

use vstd::prelude::*;

verus! {

/// A rectangle of pixels in a picture.
#[derive(Clone, Copy, PartialEq, Eq, Structural, Debug)]
pub struct Crop {
    pub x: u32,
    pub y: u32,
    pub width: u32,
    pub height: u32,
}

/// The largest square in the middle of a picture: as wide and high as the
/// picture's shorter side, with the same margin, rounded down, before it as after
/// it on the longer side.
pub open spec fn middle_square(width: u32, height: u32) -> Crop {
    let side = if width < height {
        width
    } else {
        height
    };
    Crop {
        x: ((width - side) / 2) as u32,
        y: ((height - side) / 2) as u32,
        width: side,
        height: side,
    }
}

/// The square part of a picture of the given size that is shown as the cover.
pub fn center_square(width: u32, height: u32) -> (crop: Crop)
    ensures
        crop == middle_square(width, height),
        crop.x + crop.width <= width,
        crop.y + crop.height <= height,
{
    Crop {
        x: if height > width {
            0
        } else {
            (width - height) / 2
        },
        y: if width > height {
            0
        } else {
            (height - width) / 2
        },
        width: if height > width {
            width
        } else {
            height
        },
        height: if width > height {
            height
        } else {
            width
        },
    }
}

} // verus!
