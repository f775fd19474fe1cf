//! Tests of the resource-directory parser, the channel-order correction and
//! the extraction assembly.

use icon_sys::extract::{assemble_icon_set, bgra_to_rgba, get_icon_directory, RawBitmap};
use icon_sys::folder_settings_error::WindowsFolderSettingsError;
use icon_sys::icon_error::IconError;
use icon_sys::icon_size::WindowsIconSize;

const CANONICAL: [u32; 8] = [16, 20, 24, 32, 40, 48, 64, 256];

/// One 14-byte group directory entry.
fn entry_bytes(width: u8, height: u8, bit_count: u16, bytes_in_res: u32, id: u16) -> Vec<u8> {
    let mut v = vec![width, height, 0, 0, 1, 0];
    v.extend_from_slice(&bit_count.to_le_bytes());
    v.extend_from_slice(&bytes_in_res.to_le_bytes());
    v.extend_from_slice(&id.to_le_bytes());
    v
}

fn group_bytes(entries: &[Vec<u8>]) -> Vec<u8> {
    let mut v = vec![0u8, 0, 1, 0];
    v.extend_from_slice(&(entries.len() as u16).to_le_bytes());
    for e in entries {
        v.extend_from_slice(e);
    }
    v
}

#[test]
fn parses_directory_with_declared_count() {
    let data = group_bytes(&[
        entry_bytes(16, 16, 32, 1000, 7),
        entry_bytes(0, 0, 32, 90000, 8),
    ]);
    let entries = get_icon_directory(&data).expect("well-formed directory must parse");
    assert_eq!(entries.len(), 2);
    assert_eq!(entries[0].width, 16);
    assert_eq!(entries[0].height, 16);
    assert_eq!(entries[0].bit_count, 32);
    assert_eq!(entries[0].bytes_in_res, 1000);
    assert_eq!(entries[0].id, 7);
    assert_eq!(entries[1].width, 0);
    assert_eq!(entries[1].bytes_in_res, 90000);
    assert_eq!(entries[1].id, 8);
}

#[test]
fn rejects_short_or_mislabeled_directory() {
    let err = get_icon_directory(&vec![0u8, 0, 1, 0, 1]).expect_err("truncated header");
    assert!(matches!(err, WindowsFolderSettingsError::MalformedResource));

    // Count says one entry but none follows.
    let err = get_icon_directory(&vec![0u8, 0, 1, 0, 1, 0]).expect_err("missing entry bytes");
    assert!(matches!(err, WindowsFolderSettingsError::MalformedResource));

    // Type field is not "icon".
    let data = group_bytes(&[entry_bytes(16, 16, 32, 10, 1)]);
    let mut bad = data.clone();
    bad[2] = 2;
    let err = get_icon_directory(&bad).expect_err("wrong resource type");
    assert!(matches!(err, WindowsFolderSettingsError::MalformedResource));
}

#[test]
fn channel_order_corrected_per_pixel() {
    // A distinguishing value per channel: blue, green, red, alpha.
    let mut pixels = vec![1u8, 2, 3, 4, 10, 20, 30, 40];
    bgra_to_rgba(&mut pixels);
    assert_eq!(pixels, vec![3u8, 2, 1, 4, 30, 20, 10, 40]);
}

fn raw_of(dim: u32) -> RawBitmap {
    // A single distinguishing pattern in every pixel.
    let mut bgra = Vec::with_capacity((dim * dim * 4) as usize);
    for _ in 0..(dim * dim) {
        bgra.extend_from_slice(&[9, 8, 7, 6]);
    }
    RawBitmap {
        width: dim,
        height: dim,
        bgra,
    }
}

#[test]
fn assembles_complete_set_from_eight_bitmaps() {
    let bitmaps: Vec<RawBitmap> = CANONICAL.iter().map(|d| raw_of(*d)).collect();
    let set = assemble_icon_set(bitmaps).expect("eight canonical bitmaps must assemble");
    assert!(set.is_complete());
    let im = set.get_image(WindowsIconSize::Px16).expect("16 present");
    // The stored pixels are channel-corrected: B,G,R,A 9,8,7,6 becomes 7,8,9,6.
    assert_eq!(&im.image.data[0..4], &[7, 8, 9, 6]);
}

#[test]
fn assembly_rejects_unrecognized_width() {
    let mut bitmaps: Vec<RawBitmap> = CANONICAL.iter().map(|d| raw_of(*d)).collect();
    bitmaps[3] = RawBitmap {
        width: 30,
        height: 30,
        bgra: vec![0u8; 30 * 30 * 4],
    };
    let err = assemble_icon_set(bitmaps).expect_err("width 30 is not canonical");
    assert!(matches!(
        err,
        WindowsFolderSettingsError::Icon(IconError::UnrecognizedDimension(30))
    ));
}

#[test]
fn assembly_rejects_duplicate_width() {
    let bitmaps = vec![raw_of(16), raw_of(32), raw_of(16)];
    let err = assemble_icon_set(bitmaps).expect_err("duplicated width must fail");
    assert!(matches!(
        err,
        WindowsFolderSettingsError::Icon(IconError::DuplicateSize(WindowsIconSize::Px16))
    ));
}

#[test]
fn assembly_rejects_malformed_bitmap() {
    let bitmaps = vec![RawBitmap {
        width: 16,
        height: 16,
        bgra: vec![0u8; 5],
    }];
    let err = assemble_icon_set(bitmaps).expect_err("short buffer must fail");
    assert!(matches!(
        err,
        WindowsFolderSettingsError::Icon(IconError::MalformedImage)
    ));
}
