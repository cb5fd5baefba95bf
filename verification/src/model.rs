//! The library's model of a decoded raster image: dimensions, whether the
//! pixels carry an alpha channel, and the raw interleaved channel bytes
//! (RGBA when there is an alpha channel, RGB otherwise), plus the selector
//! for the resampling kernel.

use vstd::prelude::*;

verus! {

/// Resampling kernel selector.
#[derive(Clone, Copy, PartialEq, Eq, Structural, Debug)]
pub enum Filter {
    Gaussian,
    Lanczos,
    CatmullRom,
    NearestNeighbor,
    LinearTriangle,
}

impl Default for Filter {
    /// The default kernel is Gaussian.
    fn default() -> (r: Self)
        ensures
            r == Filter::Gaussian,
    {
        Filter::Gaussian
    }
}

/// The mathematical value of a decoded image.
#[verifier::ext_equal]
pub ghost struct ImageView {
    pub width: nat,
    pub height: nat,
    pub has_alpha: bool,
    pub data: Seq<u8>,
}

impl ImageView {
    /// Bytes per pixel: 4 with an alpha channel, 3 without.
    pub open spec fn channels(self) -> nat {
        if self.has_alpha {
            4
        } else {
            3
        }
    }

    /// Well-formed: dimensions are at least 1x1 and fit in `u32`, and the
    /// byte buffer holds exactly one pixel's channels per coordinate.
    pub open spec fn wf(self) -> bool {
        &&& 1 <= self.width <= u32::MAX
        &&& 1 <= self.height <= u32::MAX
        &&& self.data.len() == self.width * self.height * self.channels()
    }
}

/// A decoded image held as plain values.
pub struct Image {
    pub width: u32,
    pub height: u32,
    pub has_alpha: bool,
    pub data: Vec<u8>,
}

impl View for Image {
    type V = ImageView;

    open spec fn view(&self) -> ImageView {
        ImageView {
            width: self.width as nat,
            height: self.height as nat,
            has_alpha: self.has_alpha,
            data: self.data@,
        }
    }
}

impl Image {
    pub open spec fn wf(self) -> bool {
        self@.wf()
    }
}

} // verus!
