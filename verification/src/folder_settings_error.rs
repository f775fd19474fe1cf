//! Errors raised by the folder settings manager and the resource extraction
//! pipeline. Every failure is propagated as a distinct kind, never silently
//! downgraded.

use vstd::prelude::*;

use crate::icon_error::IconError;

verus! {

/// Declares image's error type so failures of the frame compressor can be
/// carried through; the value is opaque and only handed back to the caller.
#[verifier::external_type_specification]
#[verifier::external_body]
pub struct ExImageError(image::error::ImageError);

/// What can go wrong applying, removing or extracting a folder icon on
/// Windows. The kinds say what failed; the caller that performs the
/// filesystem and shell calls knows the target folder and attaches its path
/// when reporting.
#[derive(Debug)]
pub enum WindowsFolderSettingsError {
    /// The expected icon-group or per-size resource is absent from the
    /// system module.
    ResourceNotFound,
    /// An underlying platform call failed; carries the platform status code.
    PlatformApi(i32),
    /// A resource buffer is not a well-formed icon-group directory.
    MalformedResource,
    /// A size catalog or set model failure (duplicate size, unrecognized
    /// dimension, incomplete set, malformed image).
    Icon(IconError),
    /// Compressing a frame for the container failed.
    Encode(image::error::ImageError),
    /// The container would be too large for its 32-bit directory offsets.
    ContainerTooLarge,
    /// The target folder resolves to an OS-registered special folder and
    /// known-folder protection is enabled.
    ProtectedFolder,
    /// The target does not exist or is not a directory.
    FolderValidation,
    /// A filesystem read, write or delete failed; carries a description.
    Io(String),
}

/// Cross-platform folder settings failure.
#[derive(Debug)]
pub enum FolderSettingsError {
    /// A Windows-specific failure.
    Windows(WindowsFolderSettingsError),
    /// A size catalog or set model failure.
    IconError(IconError),
}

} // verus!
