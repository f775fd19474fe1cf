//! The crate-level error type.

use vstd::prelude::*;

use crate::folder_settings_error::FolderSettingsError;
use crate::icon_error::IconError;

verus! {

/// Any failure of the library.
#[derive(Debug)]
pub enum Error {
    /// A size catalog or set model failure.
    IconError(IconError),
    /// A folder settings or extraction failure.
    FolderSettings(FolderSettingsError),
}

} // verus!
