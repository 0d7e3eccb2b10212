//! Embedded graphics and vendor-specific data.

use vstd::prelude::*;
use super::keys::StandardVisualKey;
use super::nonzero::NonZeroU32;
use super::tag::Tag;

verus! {

/// A 2 dimensional (width and height) size type.
#[derive(Copy, Clone, Debug, PartialEq, Eq, Structural)]
pub struct Size {
    /// The width in pixels.
    pub width: u32,
    /// The height in pixels.
    pub height: u32,
}

/// `ColorMode` indicates how the color of a pixel is encoded in a `Visual`.
#[derive(Copy, Clone, Debug, PartialEq, Eq, Structural)]
pub enum ColorMode {
    /// Each pixel in the `Visual` stores its own color information.
    Discrete,
    /// Each pixel in the `Visual` stores an index into a color palette
    /// containing the color information. The value stored by this variant
    /// is the number of colors in the palette, which is not zero.
    Indexed(NonZeroU32),
}

/// A `Visual` is any 2 dimensional graphic.
///
/// The dimensions, the bit depth and the color mode come from metadata, not
/// from the embedded graphic itself: they are hints, and may be wrong.
#[derive(Debug, PartialEq, Eq)]
pub struct Visual {
    /// The Media Type (MIME Type) used to encode the `Visual`.
    pub media_type: String,
    /// The dimensions of the `Visual`.
    pub dimensions: Option<Size>,
    /// The number of bits-per-pixel (aka bit-depth) of the unencoded image.
    pub bits_per_pixel: Option<NonZeroU32>,
    /// The color mode of the `Visual`.
    pub color_mode: Option<ColorMode>,
    /// The usage and/or content of the `Visual`.
    pub usage: Option<StandardVisualKey>,
    /// Any tags associated with the `Visual`.
    pub tags: Vec<Tag>,
    /// The data of the `Visual`, encoded as per `media_type`.
    pub data: Box<[u8]>,
}

/// `VendorData` is any binary metadata that is proprietary to a certain
/// application or vendor.
#[derive(Debug, PartialEq, Eq)]
pub struct VendorData {
    /// A text representation of the vendor's application identifier.
    pub ident: String,
    /// The vendor data.
    pub data: Box<[u8]>,
}

} // verus!
