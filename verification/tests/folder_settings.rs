//! Scenario tests of the folder settings manager's transitions over the
//! folder model.

use icon_sys::folder_settings::{
    name_matches, FolderState, WindowsFolderSettingsProvider,
};
use icon_sys::folder_settings_error::{FolderSettingsError, WindowsFolderSettingsError};
use icon_sys::icon_set::{WindowsIconImage, WindowsIconSet};

const CANONICAL: [u32; 8] = [16, 20, 24, 32, 40, 48, 64, 256];

fn windows_image_of(dim: u32) -> WindowsIconImage {
    WindowsIconImage::try_from(icon_sys::api::IconImage {
        width: dim,
        height: dim,
        data: vec![0u8; (dim * dim * 4) as usize],
    })
    .expect("canonical dimension must convert")
}

fn complete_set() -> WindowsIconSet {
    WindowsIconSet::from_icons(CANONICAL.iter().map(|d| windows_image_of(*d)).collect())
        .expect("eight distinct sizes must build")
}

fn empty_folder() -> FolderState {
    FolderState {
        files: Vec::new(),
        icon_pointer: None,
    }
}

fn matching_count(prefix: &Vec<u8>, state: &FolderState) -> usize {
    state.files.iter().filter(|f| name_matches(prefix, f)).count()
}

#[test]
fn set_icon_leaves_exactly_one_generated_file() {
    let provider = WindowsFolderSettingsProvider::new_windows(true, Some(b"myapp".to_vec()));
    let prefix = b"myapp".to_vec();
    let set = complete_set();
    let folder = empty_folder();

    let first = provider
        .set_icon_for_folder_windows(&folder, true, true, false, &set)
        .expect("an existing plain directory must accept an icon");
    assert_eq!(matching_count(&prefix, &first.state), 1);
    assert_eq!(first.state.icon_pointer.as_ref(), Some(&first.file_name));
    assert!(first.file_name.starts_with(b"myapp-"));
    assert!(first.file_name.ends_with(b".ico"));
    assert!(!first.container.is_empty());

    // A second SetIcon removes the stale file: still exactly one, and the
    // fresh name differs, so the shell's icon cache cannot serve the old one.
    let second = provider
        .set_icon_for_folder_windows(&first.state, true, true, false, &set)
        .expect("setting again must succeed");
    assert_eq!(matching_count(&prefix, &second.state), 1);
    assert_ne!(second.file_name, first.file_name);
    assert_eq!(second.state.icon_pointer.as_ref(), Some(&second.file_name));
}

#[test]
fn set_icon_keeps_unrelated_files() {
    let provider = WindowsFolderSettingsProvider::new_windows(true, Some(b"myapp".to_vec()));
    let folder = FolderState {
        files: vec![b"notes.txt".to_vec(), b"other.ico".to_vec()],
        icon_pointer: None,
    };
    let outcome = provider
        .set_icon_for_folder_windows(&folder, true, true, false, &complete_set())
        .expect("must succeed");
    assert!(outcome.state.files.contains(&b"notes.txt".to_vec()));
    // "other.ico" does not carry the prefix, so it is not the manager's file.
    assert!(outcome.state.files.contains(&b"other.ico".to_vec()));
    assert_eq!(outcome.state.files.len(), 3);
}

#[test]
fn reset_icon_removes_file_and_pointer() {
    let provider = WindowsFolderSettingsProvider::new_windows(true, Some(b"myapp".to_vec()));
    let prefix = b"myapp".to_vec();
    let set = complete_set();
    let after_set = provider
        .set_icon_for_folder_windows(&empty_folder(), true, true, false, &set)
        .expect("must succeed")
        .state;
    let after_reset = provider
        .reset_icon_for_folder_windows(&after_set, true, true, false)
        .expect("reset of an existing directory must succeed");
    assert_eq!(matching_count(&prefix, &after_reset), 0);
    assert!(after_reset.icon_pointer.is_none());

    // Resetting an already-default folder is a no-op beyond validation.
    let again = provider
        .reset_icon_for_folder_windows(&after_reset, true, true, false)
        .expect("reset must be idempotent");
    assert_eq!(matching_count(&prefix, &again), 0);
    assert!(again.icon_pointer.is_none());
}

#[test]
fn protected_folder_is_rejected_untouched() {
    let provider = WindowsFolderSettingsProvider::new();
    let err = provider
        .set_icon_for_folder_windows(&empty_folder(), true, true, true, &complete_set())
        .expect_err("a known folder must be rejected while protection is on");
    assert!(matches!(err, WindowsFolderSettingsError::ProtectedFolder));

    // With protection off the same folder is accepted.
    let unprotected = WindowsFolderSettingsProvider::new_windows(false, None);
    assert!(unprotected
        .set_icon_for_folder_windows(&empty_folder(), true, true, true, &complete_set())
        .is_ok());
}

#[test]
fn missing_or_non_directory_target_is_rejected() {
    let provider = WindowsFolderSettingsProvider::new();
    let err = provider
        .set_icon_for_folder_windows(&empty_folder(), false, false, false, &complete_set())
        .expect_err("a missing target must be rejected");
    assert!(matches!(err, WindowsFolderSettingsError::FolderValidation));
    let err = provider
        .set_icon_for_folder_windows(&empty_folder(), true, false, false, &complete_set())
        .expect_err("a plain file must be rejected");
    assert!(matches!(err, WindowsFolderSettingsError::FolderValidation));
    let err = provider
        .reset_icon_for_folder_windows(&empty_folder(), false, false, false)
        .expect_err("a missing target must be rejected");
    assert!(matches!(err, WindowsFolderSettingsError::FolderValidation));
}

#[test]
fn find_existing_ico_reports_first_match() {
    let provider = WindowsFolderSettingsProvider::new_windows(true, Some(b"pre".to_vec()));
    let files = vec![
        b"notes.txt".to_vec(),
        b"other.ico".to_vec(),
        b"pre-a.ico".to_vec(),
        b"pre-b.ico".to_vec(),
    ];
    assert_eq!(provider.find_existing_ico(&files), Some(2));
    let files = vec![b"notes.txt".to_vec(), b"pre-a.txt".to_vec()];
    assert_eq!(provider.find_existing_ico(&files), None);
}

#[test]
fn reset_on_protected_folder_is_rejected() {
    let provider = WindowsFolderSettingsProvider::new();
    let err = provider
        .reset_icon_for_folder_windows(&empty_folder(), true, true, true)
        .expect_err("a known folder must be rejected while protection is on");
    assert!(matches!(err, WindowsFolderSettingsError::ProtectedFolder));
}

#[test]
fn incomplete_set_is_rejected() {
    let provider = WindowsFolderSettingsProvider::new();
    let partial = WindowsIconSet::from_icons(vec![windows_image_of(16)]).unwrap();
    let err = provider
        .set_icon_for_folder_windows(&empty_folder(), true, true, false, &partial)
        .expect_err("an incomplete set must be rejected");
    assert!(matches!(
        err,
        WindowsFolderSettingsError::Icon(icon_sys::icon_error::IconError::IncompleteSet)
    ));
}

#[test]
fn generated_names_are_prefixed_and_fresh() {
    let provider = WindowsFolderSettingsProvider::new_windows(true, Some(b"pre".to_vec()));
    let a = provider.generate_unique_ico_file_name();
    let b = provider.generate_unique_ico_file_name();
    assert!(a.starts_with(b"pre-"));
    assert!(a.ends_with(b".ico"));
    assert_eq!(a.len(), 3 + 41);
    assert!(name_matches(&b"pre".to_vec(), &a));
    // Fresh tokens: two names never repeat, so the icon cache is busted.
    assert_ne!(a, b);
}

#[test]
fn default_prefix_is_the_crate_name() {
    let provider = WindowsFolderSettingsProvider::new();
    let name = provider.generate_unique_ico_file_name();
    assert!(name.starts_with(b"icon_sys-"));
}

#[test]
fn api_level_set_icon_converts_and_applies() {
    let provider = WindowsFolderSettingsProvider::new();
    let full = icon_sys::api::IconSet {
        images: CANONICAL
            .iter()
            .map(|d| icon_sys::api::IconImage {
                width: *d,
                height: *d,
                data: vec![0u8; (*d * *d * 4) as usize],
            })
            .collect(),
    };
    let outcome = provider
        .set_icon_for_folder(&empty_folder(), true, true, false, full)
        .expect("a full platform-agnostic set must apply");
    assert!(outcome.state.icon_pointer.is_some());

    let partial = icon_sys::api::IconSet {
        images: vec![icon_sys::api::IconImage {
            width: 16,
            height: 16,
            data: vec![0u8; 16 * 16 * 4],
        }],
    };
    let err = provider
        .set_icon_for_folder(&empty_folder(), true, true, false, partial)
        .expect_err("a partial set must be rejected before any action");
    assert!(matches!(
        err,
        FolderSettingsError::IconError(icon_sys::icon_error::IconError::IncompleteSet)
    ));

    let duplicated = icon_sys::api::IconSet {
        images: vec![api_image_of(16), api_image_of(16)],
    };
    let err = provider
        .set_icon_for_folder(&empty_folder(), true, true, false, duplicated)
        .expect_err("a duplicated size must be rejected before any action");
    assert!(matches!(
        err,
        FolderSettingsError::IconError(icon_sys::icon_error::IconError::DuplicateSize(_))
    ));

    let unrecognized = icon_sys::api::IconSet {
        images: vec![icon_sys::api::IconImage {
            width: 30,
            height: 30,
            data: vec![0u8; 30 * 30 * 4],
        }],
    };
    let err = provider
        .set_icon_for_folder(&empty_folder(), true, true, false, unrecognized)
        .expect_err("an unrecognized width must be rejected before any action");
    assert!(matches!(
        err,
        FolderSettingsError::IconError(icon_sys::icon_error::IconError::UnrecognizedDimension(30))
    ));
}

fn api_image_of(dim: u32) -> icon_sys::api::IconImage {
    icon_sys::api::IconImage {
        width: dim,
        height: dim,
        data: vec![0u8; (dim * dim * 4) as usize],
    }
}
