//! Folder icon management: a catalog of the canonical Windows icon sizes, a
//! validated per-size icon set model, the parsing and assembly pipeline that
//! turns a module's icon-group resource into such a set, an encoder for the
//! shell's `.ico` container format, and the decision logic for applying or
//! removing a per-folder custom icon.

pub mod api;
pub mod error;
pub mod extract;
pub mod folder_settings;
pub mod folder_settings_error;
pub mod ico_codec;
pub mod icon_error;
pub mod icon_set;
pub mod icon_size;
pub mod platform;

