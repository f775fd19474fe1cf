//! Placeholders for the non-Windows backends. The source of the default
//! folder icon and the shell metadata protocol differ per desktop
//! environment; these backends define no extraction or shell-integration
//! strategy yet.

use vstd::prelude::*;

verus! {

/// Default folder icon source for Linux desktops; no strategy defined yet.
pub struct LinuxDefaultFolderIconProvider;

/// Folder settings backend for Linux desktops; no strategy defined yet.
pub struct LinuxFolderSettingsProvider;

/// Failures of the Linux backend.
#[derive(Debug)]
pub enum LinuxFolderSettingsError {
    /// A backend failure, described in text.
    Error(String),
}

/// Default folder icon source for macOS; no strategy defined yet.
pub struct MacOsDefaultFolderIconProvider;

/// Folder settings backend for macOS; no strategy defined yet.
pub struct MacOsFolderSettingsProvider;

/// Failures of the macOS backend.
#[derive(Debug)]
pub enum MacOsFolderSettingsError {
    /// A backend failure, described in text.
    Error(String),
}

} // verus!
