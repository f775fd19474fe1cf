//! Errors raised by the icon size catalog and the icon set model.

use vstd::prelude::*;

use crate::icon_size::WindowsIconSize;

verus! {

/// What can go wrong while building or converting an icon set.
#[derive(Debug, Clone, Copy, PartialEq, Eq, Structural)]
pub enum IconError {
    /// Two images claim the same canonical size during set construction.
    DuplicateSize(WindowsIconSize),
    /// An image's pixel width matches none of the canonical dimensions.
    UnrecognizedDimension(u32),
    /// An operation requiring a complete icon set received a partial one.
    IncompleteSet,
    /// An image's height or pixel buffer length does not match its width.
    MalformedImage,
}

} // verus!
