//! Platform-agnostic icon representation: a raw RGBA pixel buffer per image,
//! and a plain sequence of such images as the public icon set form.

use vstd::prelude::*;

verus! {

/// Individual size of a system icon: an owned pixel buffer in
/// red-green-blue-alpha channel order, 8 bits per channel.
#[derive(Debug)]
pub struct IconImage {
    /// Width in pixels.
    pub width: u32,
    /// Height in pixels.
    pub height: u32,
    /// The pixel data, 4 bytes per pixel, rows top-down.
    pub data: Vec<u8>,
}

impl IconImage {
    /// The buffer holds exactly 4 bytes for every pixel.
    pub open spec fn wf(self) -> bool {
        self.data@.len() == self.width as int * self.height as int * 4
    }
}

/// Platform-agnostic system icon image set.
#[derive(Debug)]
pub struct IconSet {
    /// The images, in no particular order.
    pub images: Vec<IconImage>,
}

impl IconSet {
    /// A single image converts to a one-element set.
    pub fn from(value: IconImage) -> (r: Self)
        ensures
            r.images@ == seq![value],
    {
        let mut images: Vec<IconImage> = Vec::new();
        images.push(value);
        proof {
            assert(images@ =~= seq![value]);
        }
        IconSet { images }
    }
}

} // verus!
