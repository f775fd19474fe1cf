//! The resource-to-image extraction pipeline's computations: parsing an
//! icon-group resource directory out of a byte buffer, correcting the
//! device's native blue-green-red-alpha channel order, and assembling the
//! per-size bitmaps into a validated icon set. Loading the system module and
//! querying each bitmap are platform calls that the caller performs between
//! these steps.

use vstd::prelude::*;

use crate::folder_settings_error::WindowsFolderSettingsError;
use crate::icon_error::IconError;
use crate::icon_set::{first_icon_with_size, has_duplicate_size, WindowsIconImage, WindowsIconSet};
use crate::icon_size::WindowsIconSize;

verus! {

/// Provides default system folder icon operations. The platform loads the
/// shell module and queries each size's bitmap; the parsing, channel
/// correction and assembly below turn what it reports into an icon set.
#[derive(Debug)]
pub struct WindowsDefaultFolderIconProvider;

/// The little-endian 16-bit value at byte offset `i`.
pub open spec fn le16_at(b: Seq<u8>, i: int) -> int {
    b[i] + 256 * b[i + 1]
}

/// The little-endian 32-bit value at byte offset `i`.
pub open spec fn le32_at(b: Seq<u8>, i: int) -> int {
    b[i] + 256 * b[i + 1] + 65536 * b[i + 2] + 16777216 * b[i + 3]
}

/// Reads the little-endian 16-bit value at byte offset `i`.
fn read_le16(data: &Vec<u8>, i: usize) -> (r: u16)
    requires
        i + 2 <= data@.len(),
    ensures
        r as int == le16_at(data@, i as int),
{
    // Calling len first puts the length's machine bound in scope, so the
    // index arithmetic below cannot overflow.
    let _n = data.len();
    let lo = data[i];
    let hi = data[i + 1];
    (lo as u16) + (hi as u16) * 256
}

/// Reads the little-endian 32-bit value at byte offset `i`.
fn read_le32(data: &Vec<u8>, i: usize) -> (r: u32)
    requires
        i + 4 <= data@.len(),
    ensures
        r as int == le32_at(data@, i as int),
{
    let _n = data.len();
    let b0 = data[i];
    let b1 = data[i + 1];
    let b2 = data[i + 2];
    let b3 = data[i + 3];
    (b0 as u32) + (b1 as u32) * 256 + (b2 as u32) * 65536 + (b3 as u32) * 16777216
}

/// Transient metadata for one size variant of an icon-group resource: read
/// from the group directory, used only to drive extraction.
#[derive(Debug, Clone, Copy, PartialEq, Eq, Structural)]
pub struct ResourceDirectoryEntry {
    /// Width in pixels of the variant; 0 stands for 256.
    pub width: u8,
    /// Height in pixels of the variant; 0 stands for 256.
    pub height: u8,
    /// Number of palette colors, 0 when 8 or more bits per pixel.
    pub color_count: u8,
    /// Reserved byte of the on-disk layout.
    pub reserved: u8,
    /// Color planes.
    pub planes: u16,
    /// Bits per pixel.
    pub bit_count: u16,
    /// Byte size of the variant's own resource.
    pub bytes_in_res: u32,
    /// The identifier of the variant's own resource.
    pub id: u16,
}

/// The directory entry laid out at byte offset `off`: width, height, color
/// count and a reserved byte, then color planes, bits per pixel, the
/// variant's byte size and its resource identifier, all little-endian.
pub open spec fn entry_spec(b: Seq<u8>, off: int) -> ResourceDirectoryEntry {
    ResourceDirectoryEntry {
        width: b[off],
        height: b[off + 1],
        color_count: b[off + 2],
        reserved: b[off + 3],
        planes: le16_at(b, off + 4) as u16,
        bit_count: le16_at(b, off + 6) as u16,
        bytes_in_res: le32_at(b, off + 8) as u32,
        id: le16_at(b, off + 12) as u16,
    }
}

/// The entry count of a group directory: the 16-bit field after the
/// reserved and type fields.
pub open spec fn group_directory_count(b: Seq<u8>) -> int {
    le16_at(b, 4)
}

/// A well-formed icon-group directory: a 6-byte header whose reserved field
/// is zero and whose type field says "icon", followed by as many 14-byte
/// entries as the header's count field declares.
pub open spec fn well_formed_group_directory(b: Seq<u8>) -> bool {
    &&& b.len() >= 6
    &&& le16_at(b, 0) == 0
    &&& le16_at(b, 2) == 1
    &&& b.len() >= 6 + group_directory_count(b) * 14
}

/// Parses an icon-group resource as a directory header followed by a
/// variable-length array of entries; the entry count comes from the header,
/// never assumed fixed. Succeeds exactly on well-formed directories.
#[verifier::loop_isolation(false)]
pub fn get_icon_directory(data: &Vec<u8>) -> (r: Result<
    Vec<ResourceDirectoryEntry>,
    WindowsFolderSettingsError,
>)
    ensures
        r is Ok <==> well_formed_group_directory(data@),
        r matches Ok(v) ==> v@.len() == group_directory_count(data@) && (forall|k: int|
            0 <= k < v@.len() ==> #[trigger] v@[k] == entry_spec(data@, 6 + 14 * k)),
        r matches Err(e) ==> e is MalformedResource,
{
    if data.len() < 6 {
        return Err(WindowsFolderSettingsError::MalformedResource);
    }
    let reserved = read_le16(data, 0);
    let rtype = read_le16(data, 2);
    let count = read_le16(data, 4);
    if reserved != 0 || rtype != 1 {
        return Err(WindowsFolderSettingsError::MalformedResource);
    }
    let need: u64 = 6 + (count as u64) * 14;
    if (data.len() as u64) < need {
        return Err(WindowsFolderSettingsError::MalformedResource);
    }
    let mut v: Vec<ResourceDirectoryEntry> = Vec::new();
    let mut k: usize = 0;
    while k < count as usize
        invariant
            k <= count as usize,
            v@.len() == k,
            forall|j: int| 0 <= j < k ==> #[trigger] v@[j] == entry_spec(data@, 6 + 14 * j),
        decreases count as usize - k,
    {
        let off = 6 + 14 * k;
        let e = ResourceDirectoryEntry {
            width: data[off],
            height: data[off + 1],
            color_count: data[off + 2],
            reserved: data[off + 3],
            planes: read_le16(data, off + 4),
            bit_count: read_le16(data, off + 6),
            bytes_in_res: read_le32(data, off + 8),
            id: read_le16(data, off + 12),
        };
        v.push(e);
        k = k + 1;
    }
    Ok(v)
}

/// A pixel buffer with its blue and red channels exchanged in every 4-byte
/// pixel: the device's native blue-green-red-alpha order turned into
/// red-green-blue-alpha.
pub open spec fn bgra_to_rgba_spec(b: Seq<u8>) -> Seq<u8> {
    Seq::new(
        b.len(),
        |i: int|
            if i % 4 == 0 {
                b[i + 2]
            } else if i % 4 == 2 {
                b[i - 2]
            } else {
                b[i]
            },
    )
}

/// Reorders every 4-byte pixel from the device's native blue-green-red-alpha
/// order into red-green-blue-alpha, in place. This step is mandatory: an
/// un-reordered buffer silently produces a color-swapped icon.
#[verifier::loop_isolation(false)]
pub fn bgra_to_rgba(pixels: &mut Vec<u8>)
    requires
        old(pixels)@.len() % 4 == 0,
    ensures
        final(pixels)@ == bgra_to_rgba_spec(old(pixels)@),
{
    let n = pixels.len();
    let mut i: usize = 0;
    while i < n
        invariant
            pixels@.len() == n,
            n % 4 == 0,
            i % 4 == 0,
            i <= n,
            forall|j: int| 0 <= j < i ==> pixels@[j] == bgra_to_rgba_spec(old(pixels)@)[j],
            forall|j: int| i <= j < n ==> pixels@[j] == old(pixels)@[j],
        decreases n - i,
    {
        proof {
            assert(i + 4 <= n);
        }
        let b = pixels[i];
        let r = pixels[i + 2];
        pixels.set(i, r);
        pixels.set(i + 2, b);
        i = i + 4;
    }
    proof {
        assert(i == n);
        assert(pixels@ =~= bgra_to_rgba_spec(old(pixels)@));
    }
}

/// One size variant's raw bitmap as the platform hands it out: a top-down
/// 32-bit-per-pixel buffer in the device's native channel order.
#[derive(Debug)]
pub struct RawBitmap {
    /// Width in pixels.
    pub width: u32,
    /// Height in pixels.
    pub height: u32,
    /// The pixel data, 4 bytes per pixel, blue-green-red-alpha.
    pub bgra: Vec<u8>,
}

/// A raw bitmap that can become a Windows icon image: canonical width,
/// square, and a buffer of the right length.
pub open spec fn raw_convertible(b: RawBitmap) -> bool {
    &&& WindowsIconSize::is_canonical_dimension(b.width)
    &&& b.height == b.width
    &&& b.bgra@.len() == b.width as int * b.height as int * 4
}

/// Two raw bitmaps of the sequence claim the same width.
pub open spec fn raw_has_duplicate(bs: Seq<RawBitmap>) -> bool {
    exists|i: int, j: int| 0 <= i < j < bs.len() && bs[i].width == bs[j].width
}

/// Some raw bitmap of the sequence has width `w`.
pub open spec fn raw_seq_has_width(bs: Seq<RawBitmap>, w: u32) -> bool {
    exists|i: int| 0 <= i < bs.len() && (#[trigger] bs[i]).width == w
}

/// The set stores, under the size tag of this bitmap's width, an image with
/// that width whose pixels are the channel-corrected bitmap.
pub open spec fn assembled_image_ok(set: WindowsIconSet, b: RawBitmap) -> bool {
    set.spec_get(WindowsIconSize::from_dimension_spec(b.width)->Some_0) matches Some(im)
        && im.image.width == b.width && im.image.data@ == bgra_to_rgba_spec(b.bgra@)
}

/// The bitmap at index `i` is the first of the sequence that cannot become a
/// Windows icon image.
pub open spec fn first_unconvertible(bs: Seq<RawBitmap>, i: int) -> bool {
    &&& 0 <= i < bs.len()
    &&& !raw_convertible(bs[i])
    &&& forall|j: int| 0 <= j < i ==> raw_convertible(#[trigger] bs[j])
}

/// What each error kind of the assembly reports of the input bitmaps: the
/// first bitmap that cannot convert decides the kind (its width when the
/// width is not canonical, a malformed image otherwise), and a duplicated
/// size names a width claimed twice.
pub open spec fn assembly_error_cause(bs: Seq<RawBitmap>, e: WindowsFolderSettingsError) -> bool {
    match e {
        WindowsFolderSettingsError::Icon(ie) => match ie {
            IconError::UnrecognizedDimension(d) => exists|i: int|
                #[trigger] first_unconvertible(bs, i) && bs[i].width == d
                    && !WindowsIconSize::is_canonical_dimension(d),
            IconError::MalformedImage => exists|i: int|
                #[trigger] first_unconvertible(bs, i) && WindowsIconSize::is_canonical_dimension(
                    bs[i].width,
                ),
            IconError::DuplicateSize(s) => exists|i: int, j: int|
                0 <= i < j < bs.len() && bs[i].width == s.dimension_spec() && bs[j].width
                    == s.dimension_spec(),
            IconError::IncompleteSet => false,
        },
        _ => false,
    }
}

/// Converts each raw bitmap to red-green-blue-alpha, maps its width to a
/// canonical size, and assembles all of them into one icon set. An
/// unrecognized width is a hard error, as is a duplicated width.
#[verifier::loop_isolation(false)]
pub fn assemble_icon_set(bitmaps: Vec<RawBitmap>) -> (r: Result<
    WindowsIconSet,
    WindowsFolderSettingsError,
>)
    ensures
        r is Ok <==> (forall|i: int|
            0 <= i < bitmaps@.len() ==> raw_convertible(#[trigger] bitmaps@[i]))
            && !raw_has_duplicate(bitmaps@),
        r matches Ok(set) ==> set.wf() && (forall|i: int|
            0 <= i < bitmaps@.len() ==> assembled_image_ok(set, #[trigger] bitmaps@[i])) && (
        forall|s: WindowsIconSize| #[trigger]
            set.spec_get(s) is Some <==> raw_seq_has_width(bitmaps@, s.dimension_spec())),
        r matches Err(e) ==> assembly_error_cause(bitmaps@, e),
{
    let ghost bs = bitmaps@;
    let mut rest = bitmaps;
    let n = rest.len();
    let mut icons: Vec<WindowsIconImage> = Vec::new();
    let mut i: usize = 0;
    while i < n
        invariant
            i <= n,
            rest@ == bs.skip(i as int),
            icons@.len() == i,
            forall|j: int| 0 <= j < i ==> raw_convertible(#[trigger] bs[j]),
            forall|j: int|
                0 <= j < i ==> (#[trigger] icons@[j]).wf() && icons@[j].size
                    == WindowsIconSize::from_dimension_spec(bs[j].width)->Some_0
                    && icons@[j].size.dimension_spec() == bs[j].width && icons@[j].image.width
                    == bs[j].width && icons@[j].image.data@ == bgra_to_rgba_spec(bs[j].bgra@),
        decreases n - i,
    {
        proof {
            assert(bs.skip(i as int)[0] == bs[i as int]);
        }
        let b = rest.remove(0);
        proof {
            assert(rest@ =~= bs.skip(i as int + 1));
        }
        let size = match WindowsIconSize::from_dimension(b.width) {
            Some(s) => s,
            None => {
                proof {
                    assert(first_unconvertible(bs, i as int));
                }
                return Err(
                    WindowsFolderSettingsError::Icon(IconError::UnrecognizedDimension(b.width)),
                );
            },
        };
        if b.height != b.width {
            proof {
                assert(first_unconvertible(bs, i as int));
            }
            return Err(WindowsFolderSettingsError::Icon(IconError::MalformedImage));
        }
        proof {
            assert(b.width <= 256);
        }
        let w64 = b.width as u64;
        if (b.bgra.len() as u64) != w64 * w64 * 4 {
            proof {
                assert(first_unconvertible(bs, i as int));
            }
            return Err(WindowsFolderSettingsError::Icon(IconError::MalformedImage));
        }
        let mut data = b.bgra;
        bgra_to_rgba(&mut data);
        icons.push(
            WindowsIconImage {
                size,
                image: crate::api::IconImage { width: b.width, height: b.height, data },
            },
        );
        i = i + 1;
    }
    let ghost iseq = icons@;
    proof {
        // Duplicate sizes among the converted icons are exactly duplicate
        // widths among the raw bitmaps.
        if has_duplicate_size(iseq) {
            let (di, dj) = choose|di: int, dj: int|
                0 <= di < dj < iseq.len() && iseq[di].size == iseq[dj].size;
            assert(bs[di].width == bs[dj].width);
            assert(raw_has_duplicate(bs));
        }
        if raw_has_duplicate(bs) {
            let (di, dj) = choose|di: int, dj: int|
                0 <= di < dj < bs.len() && bs[di].width == bs[dj].width;
            assert(iseq[di].size == iseq[dj].size);
            assert(has_duplicate_size(iseq));
        }
    }
    match WindowsIconSet::from_icons(icons) {
        Ok(set) => {
            proof {
                assert forall|i0: int|
                    0 <= i0 < bs.len() implies assembled_image_ok(set, #[trigger] bs[i0]) by {
                    lemma_first_icon_unique(iseq, i0);
                    assert(set.spec_get(iseq[i0].size) == Some(iseq[i0]));
                }
                assert forall|s: WindowsIconSize| #[trigger] set.spec_get(s) is Some
                    <==> raw_seq_has_width(bs, s.dimension_spec()) by {
                    crate::icon_set::lemma_first_icon_some(iseq, s);
                    if set.spec_get(s) is Some {
                        let j = choose|j: int|
                            0 <= j < iseq.len() && #[trigger] iseq[j].size == s;
                        assert(bs[j].width == s.dimension_spec());
                    }
                    if raw_seq_has_width(bs, s.dimension_spec()) {
                        let j = choose|j: int|
                            0 <= j < bs.len() && (#[trigger] bs[j]).width == s.dimension_spec();
                        crate::icon_size::lemma_dimension_catalog_bidirectional(bs[j].width, s);
                        assert(iseq[j].size == s);
                    }
                }
            }
            Ok(set)
        },
        Err(e) => {
            proof {
                match e {
                    IconError::DuplicateSize(s) => {
                        let (di, dj) = choose|di: int, dj: int|
                            0 <= di < dj < iseq.len() && iseq[di].size == s && iseq[dj].size == s;
                        assert(bs[di].width == s.dimension_spec() && bs[dj].width
                            == s.dimension_spec());
                    },
                    _ => {},
                }
            }
            Err(WindowsFolderSettingsError::Icon(e))
        },
    }
}

/// Law: an assembly whose bitmaps cover all eight canonical widths yields a
/// complete icon set. The premise on `set` is exactly what a successful
/// `assemble_icon_set` guarantees.
pub proof fn lemma_assembly_complete(set: WindowsIconSet, bs: Seq<RawBitmap>)
    requires
        forall|s: WindowsIconSize| #[trigger]
            set.spec_get(s) is Some <==> raw_seq_has_width(bs, s.dimension_spec()),
        forall|s: WindowsIconSize| #[trigger] raw_seq_has_width(bs, s.dimension_spec()),
    ensures
        set.complete_spec(),
{
}

/// In a sequence with no duplicate sizes, the first image with the size of
/// the image at `j` is the image at `j` itself.
proof fn lemma_first_icon_unique(icons: Seq<WindowsIconImage>, j: int)
    requires
        !has_duplicate_size(icons),
        0 <= j < icons.len(),
    ensures
        first_icon_with_size(icons, icons[j].size) == Some(icons[j]),
    decreases icons.len(),
{
    if j == 0 {
    } else {
        assert(icons[0].size != icons[j].size);
        let rest = icons.skip(1);
        assert forall|a: int, b: int|
            0 <= a < b < rest.len() implies !(rest[a].size == rest[b].size) by {
            assert(rest[a] == icons[a + 1] && rest[b] == icons[b + 1]);
        }
        assert(rest[j - 1] == icons[j]);
        lemma_first_icon_unique(rest, j - 1);
    }
}

} // verus!
