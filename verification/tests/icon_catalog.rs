//! Tests of the size catalog and the icon set model.

use icon_sys::api::{IconImage, IconSet};
use icon_sys::icon_error::IconError;
use icon_sys::icon_set::{WindowsIconImage, WindowsIconSet};
use icon_sys::icon_size::WindowsIconSize;

const CANONICAL: [u32; 8] = [16, 20, 24, 32, 40, 48, 64, 256];

fn image_of(dim: u32) -> IconImage {
    IconImage {
        width: dim,
        height: dim,
        data: vec![0u8; (dim * dim * 4) as usize],
    }
}

fn windows_image_of(dim: u32) -> WindowsIconImage {
    WindowsIconImage::try_from(image_of(dim)).expect("canonical dimension must convert")
}

#[test]
fn from_dimension_canonical_round_trip() {
    for d in CANONICAL {
        let s = WindowsIconSize::from_dimension(d).expect("canonical dimension must have a tag");
        assert_eq!(s.dimension(), d);
    }
}

#[test]
fn from_dimension_rejects_non_canonical() {
    for d in [0u32, 1, 15, 17, 30, 63, 65, 128, 255, 257, 512, 1024] {
        assert!(WindowsIconSize::from_dimension(d).is_none());
    }
}

#[test]
fn all_lists_eight_ascending() {
    let all = WindowsIconSize::all();
    assert_eq!(all.len(), 8);
    for (k, s) in all.iter().enumerate() {
        assert_eq!(s.dimension(), CANONICAL[k]);
    }
}

#[test]
fn build_set_of_all_eight_is_complete() {
    let icons: Vec<WindowsIconImage> = CANONICAL.iter().map(|d| windows_image_of(*d)).collect();
    let set = WindowsIconSet::from_icons(icons).expect("eight distinct sizes must build");
    assert!(set.is_complete());
    assert!(set.missing_sizes().is_empty());
}

#[test]
fn build_set_partial_reports_missing() {
    let icons = vec![windows_image_of(16), windows_image_of(256)];
    let set = WindowsIconSet::from_icons(icons).expect("distinct sizes must build");
    assert!(!set.is_complete());
    let missing = set.missing_sizes();
    assert_eq!(missing.len(), 6);
    let missing_dims: Vec<u32> = missing.iter().map(|s| s.dimension()).collect();
    assert_eq!(missing_dims, vec![20, 24, 32, 40, 48, 64]);
}

#[test]
fn build_set_duplicate_fails() {
    let icons = vec![windows_image_of(16), windows_image_of(32), windows_image_of(16)];
    let err = WindowsIconSet::from_icons(icons).expect_err("duplicate size must fail");
    assert!(matches!(err, IconError::DuplicateSize(WindowsIconSize::Px16)));
}

#[test]
fn build_set_duplicate_fails_regardless_of_order() {
    let icons = vec![windows_image_of(32), windows_image_of(16), windows_image_of(32)];
    let err = WindowsIconSet::from_icons(icons).expect_err("duplicate size must fail");
    assert!(matches!(err, IconError::DuplicateSize(WindowsIconSize::Px32)));
}

#[test]
fn add_image_upserts() {
    let mut set = WindowsIconSet::from_icons(vec![windows_image_of(16)]).unwrap();
    assert!(set.get_image(WindowsIconSize::Px48).is_none());
    set.add_image(windows_image_of(48));
    let im = set.get_image(WindowsIconSize::Px48).expect("image was just added");
    assert_eq!(im.image.width, 48);
    set.add_image(windows_image_of(48));
    assert!(set.get_image(WindowsIconSize::Px48).is_some());
}

#[test]
fn image_try_from_rejects_unrecognized_width() {
    let err = WindowsIconImage::try_from(IconImage {
        width: 30,
        height: 30,
        data: vec![0u8; 30 * 30 * 4],
    })
    .expect_err("width 30 is not canonical");
    assert!(matches!(err, IconError::UnrecognizedDimension(30)));
}

#[test]
fn image_try_from_rejects_non_square_or_short_buffer() {
    let err = WindowsIconImage::try_from(IconImage {
        width: 16,
        height: 32,
        data: vec![0u8; 16 * 32 * 4],
    })
    .expect_err("non-square image must fail");
    assert!(matches!(err, IconError::MalformedImage));
    let err = WindowsIconImage::try_from(IconImage {
        width: 16,
        height: 16,
        data: vec![0u8; 7],
    })
    .expect_err("short buffer must fail");
    assert!(matches!(err, IconError::MalformedImage));
}

#[test]
fn set_try_from_requires_completeness() {
    let full = IconSet {
        images: CANONICAL.iter().map(|d| image_of(*d)).collect(),
    };
    let set = WindowsIconSet::try_from(full).expect("a full set must convert");
    assert!(set.is_complete());

    let partial = IconSet {
        images: vec![image_of(16), image_of(32)],
    };
    let err = WindowsIconSet::try_from(partial).expect_err("a partial set must not convert");
    assert!(matches!(err, IconError::IncompleteSet));
}

#[test]
fn single_image_makes_one_element_set() {
    let set = IconSet::from(image_of(64));
    assert_eq!(set.images.len(), 1);
    assert_eq!(set.images[0].width, 64);
}

#[test]
fn to_icon_set_lists_present_images_ascending() {
    let icons = vec![windows_image_of(48), windows_image_of(16)];
    let set = WindowsIconSet::from_icons(icons).unwrap();
    let api = set.to_icon_set();
    let widths: Vec<u32> = api.images.iter().map(|im| im.width).collect();
    assert_eq!(widths, vec![16, 48]);
}
