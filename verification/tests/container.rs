//! Tests of the container encoder: directory round trip and interoperability
//! with an independent decoder.

use icon_sys::folder_settings_error::WindowsFolderSettingsError;
use icon_sys::ico_codec::{encode_ico, read_directory};
use icon_sys::icon_error::IconError;
use icon_sys::icon_set::{WindowsIconImage, WindowsIconSet};

use image::GenericImageView;

const CANONICAL: [u32; 8] = [16, 20, 24, 32, 40, 48, 64, 256];

fn windows_image_of(dim: u32) -> WindowsIconImage {
    // A distinguishing pattern: red 200, green 100, blue 50, opaque.
    let mut data = Vec::with_capacity((dim * dim * 4) as usize);
    for _ in 0..(dim * dim) {
        data.extend_from_slice(&[200, 100, 50, 255]);
    }
    WindowsIconImage::try_from(icon_sys::api::IconImage {
        width: dim,
        height: dim,
        data,
    })
    .expect("canonical dimension must convert")
}

fn complete_set() -> WindowsIconSet {
    WindowsIconSet::from_icons(CANONICAL.iter().map(|d| windows_image_of(*d)).collect())
        .expect("eight distinct sizes must build")
}

#[test]
fn round_trip_directory_has_eight_ascending_entries() {
    let bytes = encode_ico(&complete_set()).expect("a complete set must encode");
    let dims = read_directory(&bytes).expect("the encoder writes a well-formed directory");
    assert_eq!(dims.len(), 8);
    for (k, (w, h)) in dims.iter().enumerate() {
        assert_eq!(*w, CANONICAL[k]);
        assert_eq!(*h, CANONICAL[k]);
    }
}

#[test]
fn encoder_rejects_incomplete_set() {
    let partial = WindowsIconSet::from_icons(vec![windows_image_of(16)]).unwrap();
    let err = encode_ico(&partial).expect_err("an incomplete set must be rejected");
    assert!(matches!(
        err,
        WindowsFolderSettingsError::Icon(IconError::IncompleteSet)
    ));
}

#[test]
fn container_decodes_with_independent_reader() {
    // The image crate's own container reader must accept the encoder's
    // output and hand the pixels back; this fails if the frames were not
    // really PNG-compressed images of the right size and colors.
    let bytes = encode_ico(&complete_set()).expect("a complete set must encode");
    let decoded = image::load_from_memory_with_format(&bytes, image::ImageFormat::Ico)
        .expect("an independent reader must accept the container");
    let (w, h) = decoded.dimensions();
    // The reader picks the best (largest) frame.
    assert_eq!((w, h), (256, 256));
    let rgba = decoded.to_rgba8();
    assert_eq!(rgba.get_pixel(0, 0).0, [200, 100, 50, 255]);
    assert_eq!(rgba.get_pixel(255, 255).0, [200, 100, 50, 255]);
}

#[test]
fn read_directory_rejects_foreign_bytes() {
    assert!(read_directory(&vec![1u8, 2, 3]).is_none());
    // A reserved field that is not zero.
    assert!(read_directory(&vec![1u8, 0, 1, 0, 0, 0]).is_none());
    // A count the buffer cannot hold.
    assert!(read_directory(&vec![0u8, 0, 1, 0, 2, 0]).is_none());
    // An empty, well-formed directory.
    let dims = read_directory(&vec![0u8, 0, 1, 0, 0, 0]).expect("zero entries is well formed");
    assert!(dims.is_empty());
}
