//! The container encoder: serializes a complete icon set into the shell's
//! `.ico` container format, one compressed frame per canonical size in
//! ascending-dimension order, and a directory reader for the same format.
//! Frame compression is the image crate's PNG encoder; the container layout
//! itself is built and verified here.

use vstd::prelude::*;

use image::ImageEncoder;

use crate::folder_settings_error::WindowsFolderSettingsError;
use crate::icon_error::IconError;
use crate::icon_set::WindowsIconSet;
use crate::icon_size::WindowsIconSize;

verus! {

/// The PNG encoding of an RGBA pixel buffer with the given dimensions: a
/// pure function of its arguments, whose pages-long definition lives in the
/// image crate.
pub uninterp spec fn png_of(pixels: Seq<u8>, width: u32, height: u32) -> Seq<u8>;

/// Relies on image's PNG encoder (`PngEncoder::write_image`): the compressed
/// frame depends on the pixel buffer and the dimensions alone. The buffer
/// length must match the dimensions exactly, as the encoder demands, and the
/// dimensions must be nonzero: under those bounds every error exit of the
/// encoder is excluded (its only failure paths are a zero dimension, an
/// unsupported color and depth combination, a wrong-length buffer, and
/// writer errors, which writing into a byte vector cannot raise), so the
/// call succeeds.
#[verifier::external_body]
fn encode_png_rgba(pixels: &Vec<u8>, width: u32, height: u32) -> (r: Result<
    Vec<u8>,
    image::error::ImageError,
>)
    requires
        1 <= width,
        1 <= height,
        pixels@.len() == width as int * height as int * 4,
    ensures
        r is Ok,
        r matches Ok(b) ==> b@ == png_of(pixels@, width, height),
{
    let mut out: Vec<u8> = Vec::new();
    let encoder = image::codecs::png::PngEncoder::new(&mut out);
    match encoder.write_image(
        pixels.as_slice(),
        width,
        height,
        image::ExtendedColorType::Rgba8,
    ) {
        Ok(()) => Ok(out),
        Err(e) => Err(e),
    }
}

/// The width or height byte of a container directory entry: one byte, with 0
/// standing for 256.
pub open spec fn dim_byte(d: u32) -> u8 {
    if d == 256 {
        0u8
    } else {
        d as u8
    }
}

/// The dimension a directory entry byte stands for.
pub open spec fn undim_byte(b: u8) -> u32 {
    if b == 0 {
        256u32
    } else {
        b as u32
    }
}

/// The container's 6-byte header: reserved zero, type 1 (icon), and the
/// little-endian entry count.
pub open spec fn ico_header(count: int) -> Seq<u8> {
    seq![0u8, 0u8, 1u8, 0u8, (count % 256) as u8, ((count / 256) % 256) as u8]
}

/// One 16-byte directory entry: width and height bytes, no palette, a
/// reserved byte, one color plane, 32 bits per pixel, then the frame's byte
/// size and its offset from the start of the file, both little-endian.
pub open spec fn ico_dir_entry(d: u32, size: int, offset: int) -> Seq<u8> {
    seq![
        dim_byte(d),
        dim_byte(d),
        0u8,
        0u8,
        1u8,
        0u8,
        32u8,
        0u8,
        (size % 256) as u8,
        ((size / 256) % 256) as u8,
        ((size / 65536) % 256) as u8,
        ((size / 16777216) % 256) as u8,
        (offset % 256) as u8,
        ((offset / 256) % 256) as u8,
        ((offset / 65536) % 256) as u8,
        ((offset / 16777216) % 256) as u8,
    ]
}

/// The total length of the first `k` frames.
pub open spec fn frames_prefix_len(frames: Seq<Seq<u8>>, k: int) -> int
    decreases k,
{
    if k <= 0 {
        0
    } else {
        frames_prefix_len(frames, k - 1) + frames[k - 1].len()
    }
}

/// The offset of frame `k` from the start of a container with `n` entries.
pub open spec fn frame_offset(n: int, frames: Seq<Seq<u8>>, k: int) -> int {
    6 + 16 * n + frames_prefix_len(frames, k)
}

/// The first `m` directory entries, concatenated.
pub open spec fn entries_bytes(dims: Seq<u32>, frames: Seq<Seq<u8>>, m: int) -> Seq<u8>
    decreases m,
{
    if m <= 0 {
        Seq::empty()
    } else {
        entries_bytes(dims, frames, m - 1) + ico_dir_entry(
            dims[m - 1],
            frames[m - 1].len() as int,
            frame_offset(dims.len() as int, frames, m - 1),
        )
    }
}

/// The first `m` frames, concatenated.
pub open spec fn frames_concat(frames: Seq<Seq<u8>>, m: int) -> Seq<u8>
    decreases m,
{
    if m <= 0 {
        Seq::empty()
    } else {
        frames_concat(frames, m - 1) + frames[m - 1]
    }
}

/// A whole container: header, directory, then the frames back to back.
pub open spec fn container_bytes(dims: Seq<u32>, frames: Seq<Seq<u8>>) -> Seq<u8> {
    ico_header(dims.len() as int) + entries_bytes(dims, frames, dims.len() as int)
        + frames_concat(frames, frames.len() as int)
}

/// Every frame prefix has a nonnegative length, monotone in the prefix.
proof fn lemma_frames_prefix_len_mono(frames: Seq<Seq<u8>>, k: int, m: int)
    requires
        0 <= k <= m,
    ensures
        0 <= frames_prefix_len(frames, k) <= frames_prefix_len(frames, m),
    decreases m,
{
    if m > 0 {
        lemma_frames_prefix_len_mono(
            frames,
            if k < m {
                k
            } else {
                m - 1
            },
            m - 1,
        );
    }
}

/// The first `m` directory entries occupy exactly 16 bytes each.
proof fn lemma_entries_len(dims: Seq<u32>, frames: Seq<Seq<u8>>, m: int)
    requires
        0 <= m,
    ensures
        entries_bytes(dims, frames, m).len() == 16 * m,
    decreases m,
{
    if m > 0 {
        lemma_entries_len(dims, frames, m - 1);
    }
}

/// The concatenated frames occupy exactly the prefix length.
proof fn lemma_frames_concat_len(frames: Seq<Seq<u8>>, m: int)
    requires
        0 <= m,
    ensures
        frames_concat(frames, m).len() == frames_prefix_len(frames, m),
    decreases m,
{
    if m > 0 {
        lemma_frames_concat_len(frames, m - 1);
    }
}

/// Byte `j` of entry `k` inside the concatenated directory.
proof fn lemma_entries_index(dims: Seq<u32>, frames: Seq<Seq<u8>>, m: int, k: int, j: int)
    requires
        0 <= k < m,
        0 <= j < 16,
    ensures
        entries_bytes(dims, frames, m)[16 * k + j] == ico_dir_entry(
            dims[k],
            frames[k].len() as int,
            frame_offset(dims.len() as int, frames, k),
        )[j],
    decreases m,
{
    lemma_entries_len(dims, frames, m - 1);
    if k < m - 1 {
        lemma_entries_index(dims, frames, m - 1, k, j);
    }
}

/// Byte `t` of frame `k` inside the concatenated payload.
proof fn lemma_frames_concat_index(frames: Seq<Seq<u8>>, m: int, k: int, t: int)
    requires
        0 <= k < m,
        0 <= t < frames[k].len(),
    ensures
        frames_concat(frames, m)[frames_prefix_len(frames, k) + t] == frames[k][t],
    decreases m,
{
    lemma_frames_concat_len(frames, m - 1);
    lemma_frames_prefix_len_mono(frames, 0, k);
    if k < m - 1 {
        lemma_frames_concat_index(frames, m - 1, k, t);
        lemma_frames_prefix_len_mono(frames, k + 1, m - 1);
    }
}

/// A well-formed container directory: the header says "icon file" and the
/// buffer is long enough for the directory the count field declares.
pub open spec fn dir_ok(b: Seq<u8>) -> bool {
    &&& b.len() >= 6
    &&& crate::extract::le16_at(b, 0) == 0
    &&& crate::extract::le16_at(b, 2) == 1
    &&& b.len() >= 6 + 16 * crate::extract::le16_at(b, 4)
}

/// The (width, height) pair entry `k` of a container directory declares.
pub open spec fn parsed_entry_dims(b: Seq<u8>, k: int) -> (u32, u32) {
    (undim_byte(b[6 + 16 * k]), undim_byte(b[6 + 16 * k + 1]))
}

/// Reads a container's directory back: the declared (width, height) of every
/// entry, in the order the directory lists them. Succeeds exactly on buffers
/// whose header and directory are well formed.
#[verifier::loop_isolation(false)]
pub fn read_directory(data: &Vec<u8>) -> (r: Option<Vec<(u32, u32)>>)
    ensures
        r is Some <==> dir_ok(data@),
        r matches Some(v) ==> v@.len() == crate::extract::le16_at(data@, 4) && (forall|k: int|
            0 <= k < v@.len() ==> #[trigger] v@[k] == parsed_entry_dims(data@, k)),
{
    if data.len() < 6 {
        return None;
    }
    let b0 = data[0];
    let b1 = data[1];
    let b2 = data[2];
    let b3 = data[3];
    let c0 = data[4];
    let c1 = data[5];
    if b0 != 0 || b1 != 0 || b2 != 1 || b3 != 0 {
        return None;
    }
    let count: u32 = (c0 as u32) + (c1 as u32) * 256;
    let need: u64 = 6 + (count as u64) * 16;
    if (data.len() as u64) < need {
        return None;
    }
    let mut v: Vec<(u32, u32)> = Vec::new();
    let mut k: usize = 0;
    while k < count as usize
        invariant
            k <= count as usize,
            v@.len() == k,
            forall|j: int| 0 <= j < k ==> #[trigger] v@[j] == parsed_entry_dims(data@, j),
        decreases count as usize - k,
    {
        let off = 6 + 16 * k;
        let wb = data[off];
        let hb = data[off + 1];
        let w: u32 = if wb == 0 {
            256
        } else {
            wb as u32
        };
        let h: u32 = if hb == 0 {
            256
        } else {
            hb as u32
        };
        v.push((w, h));
        k = k + 1;
    }
    Some(v)
}

/// Builds a container around already-compressed frames: the directory
/// declares each frame's dimension, byte size and offset, and the frames
/// follow back to back. Fails exactly when the container would outgrow its
/// 32-bit offsets.
#[verifier::loop_isolation(false)]
pub fn build_container(dims: &Vec<u32>, frames: &Vec<Vec<u8>>) -> (r: Result<
    Vec<u8>,
    WindowsFolderSettingsError,
>)
    requires
        dims@.len() == frames@.len(),
        dims@.len() <= 65535,
        forall|k: int| 0 <= k < dims@.len() ==> 1 <= #[trigger] dims@[k] <= 256,
    ensures
        r is Ok <==> frame_offset(
            dims@.len() as int,
            frames@.map_values(|f: Vec<u8>| f@),
            dims@.len() as int,
        ) <= u32::MAX,
        r matches Ok(b) ==> b@ == container_bytes(dims@, frames@.map_values(|f: Vec<u8>| f@)),
        r matches Err(e) ==> e is ContainerTooLarge,
{
    let ghost fviews = frames@.map_values(|f: Vec<u8>| f@);
    let n = dims.len();
    let mut out: Vec<u8> = Vec::new();
    out.push(0);
    out.push(0);
    out.push(1);
    out.push(0);
    out.push((n % 256) as u8);
    out.push(((n / 256) % 256) as u8);
    proof {
        assert(out@ =~= ico_header(n as int));
    }
    let mut offset: u64 = 6 + 16 * (n as u64);
    let mut k: usize = 0;
    while k < n
        invariant
            k <= n,
            offset == frame_offset(n as int, fviews, k as int),
            offset <= u32::MAX,
            out@ == ico_header(n as int) + entries_bytes(dims@, fviews, k as int),
        decreases n - k,
    {
        let flen = frames[k].len();
        proof {
            assert(fviews[k as int] == frames@[k as int]@);
        }
        if (flen as u64) > u32::MAX as u64 - offset {
            proof {
                lemma_frames_prefix_len_mono(fviews, k as int + 1, n as int);
            }
            return Err(WindowsFolderSettingsError::ContainerTooLarge);
        }
        let size32 = flen as u32;
        let off32 = offset as u32;
        let d = dims[k];
        let db: u8 = if d == 256 {
            0
        } else {
            d as u8
        };
        let ghost before = out@;
        out.push(db);
        out.push(db);
        out.push(0);
        out.push(0);
        out.push(1);
        out.push(0);
        out.push(32);
        out.push(0);
        out.push((size32 % 256) as u8);
        out.push(((size32 / 256) % 256) as u8);
        out.push(((size32 / 65536) % 256) as u8);
        out.push(((size32 / 16777216) % 256) as u8);
        out.push((off32 % 256) as u8);
        out.push(((off32 / 256) % 256) as u8);
        out.push(((off32 / 65536) % 256) as u8);
        out.push(((off32 / 16777216) % 256) as u8);
        proof {
            assert(out@ =~= before + ico_dir_entry(
                dims@[k as int],
                fviews[k as int].len() as int,
                frame_offset(n as int, fviews, k as int),
            ));
            assert(out@ =~= ico_header(n as int) + entries_bytes(
                dims@,
                fviews,
                k as int + 1,
            ));
        }
        offset = offset + flen as u64;
        k = k + 1;
    }
    let mut k2: usize = 0;
    while k2 < n
        invariant
            k2 <= n,
            out@ == ico_header(n as int) + entries_bytes(dims@, fviews, n as int) + frames_concat(
                fviews,
                k2 as int,
            ),
        decreases n - k2,
    {
        proof {
            assert(fviews[k2 as int] == frames@[k2 as int]@);
        }
        let mut frame = vstd::slice::slice_to_vec(frames[k2].as_slice());
        out.append(&mut frame);
        proof {
            assert(out@ =~= ico_header(n as int) + entries_bytes(dims@, fviews, n as int)
                + frames_concat(fviews, k2 as int + 1));
        }
        k2 = k2 + 1;
    }
    proof {
        assert(fviews.len() == frames@.len());
    }
    Ok(out)
}

/// The compressed frame of the image stored at the `k`-th canonical size.
pub open spec fn frame_at(set: WindowsIconSet, k: int) -> Seq<u8> {
    let s = WindowsIconSize::all_spec()[k];
    png_of(set.spec_get(s)->Some_0.image.data@, s.dimension_spec(), s.dimension_spec())
}

/// The eight frames of a complete set, in ascending-dimension order.
pub open spec fn set_frames(set: WindowsIconSet) -> Seq<Seq<u8>> {
    Seq::new(8, |k: int| frame_at(set, k))
}

/// The eight canonical dimensions, ascending.
pub open spec fn canonical_dims() -> Seq<u32> {
    WindowsIconSize::all_spec().map_values(|s: WindowsIconSize| s.dimension_spec())
}

/// The container a complete icon set encodes to.
pub open spec fn ico_bytes(set: WindowsIconSet) -> Seq<u8> {
    container_bytes(canonical_dims(), set_frames(set))
}

/// The encoded container of a complete set fits its 32-bit directory
/// offsets: the end of the last frame lies at or below the largest offset.
pub open spec fn container_fits(set: WindowsIconSet) -> bool {
    frame_offset(8, set_frames(set), 8) <= u32::MAX
}

/// The frame the image claiming the `k`-th canonical size of a
/// platform-agnostic set compresses to, once the set is converted.
pub open spec fn converted_frame(images: Seq<crate::api::IconImage>, k: int) -> Seq<u8> {
    let s = WindowsIconSize::all_spec()[k];
    png_of(
        crate::icon_set::first_icon_with_size(
            crate::icon_set::to_windows_seq(images),
            s,
        )->Some_0.image.data@,
        s.dimension_spec(),
        s.dimension_spec(),
    )
}

/// The eight frames the converted form of a platform-agnostic set encodes
/// to, in ascending-dimension order.
pub open spec fn converted_frames(images: Seq<crate::api::IconImage>) -> Seq<Seq<u8>> {
    Seq::new(8, |k: int| converted_frame(images, k))
}

/// The converted form's container fits its 32-bit directory offsets.
pub open spec fn converted_container_fits(images: Seq<crate::api::IconImage>) -> bool {
    frame_offset(8, converted_frames(images), 8) <= u32::MAX
}

/// Serializes a complete icon set into the shell's container format, one
/// compressed frame per size in ascending-dimension order. An incomplete set
/// is rejected, never padded; succeeds on every complete set whose container
/// fits its 32-bit offsets.
#[verifier::loop_isolation(false)]
pub fn encode_ico(set: &WindowsIconSet) -> (r: Result<Vec<u8>, WindowsFolderSettingsError>)
    requires
        set.wf(),
    ensures
        r is Ok <==> set.complete_spec() && container_fits(*set),
        r matches Ok(b) ==> b@ == ico_bytes(*set),
        r matches Err(e) ==> match e {
            WindowsFolderSettingsError::Icon(ie) => ie is IncompleteSet && !set.complete_spec(),
            WindowsFolderSettingsError::ContainerTooLarge => set.complete_spec()
                && !container_fits(*set),
            _ => false,
        },
{
    if !set.is_complete() {
        return Err(WindowsFolderSettingsError::Icon(IconError::IncompleteSet));
    }
    let all = WindowsIconSize::all();
    let mut dims: Vec<u32> = Vec::new();
    let mut frames: Vec<Vec<u8>> = Vec::new();
    let mut k: usize = 0;
    while k < 8
        invariant
            k <= 8,
            dims@.len() == k,
            frames@.len() == k,
            forall|j: int|
                0 <= j < k ==> #[trigger] dims@[j]
                    == WindowsIconSize::all_spec()[j].dimension_spec(),
            forall|j: int| 0 <= j < k ==> (#[trigger] frames@[j])@ == frame_at(*set, j),
        decreases 8 - k,
    {
        let s = all[k];
        let d = s.dimension();
        match set.get_image(s) {
            Some(im) => {
                proof {
                    set.lemma_wf_get(s);
                }
                match encode_png_rgba(&im.image.data, d, d) {
                    Ok(p) => {
                        dims.push(d);
                        frames.push(p);
                    },
                    Err(e) => {
                        // Unreachable: the compressor succeeds on every
                        // nonzero-dimension buffer of matching length.
                        proof {
                            assert(false);
                        }
                        return Err(WindowsFolderSettingsError::Encode(e));
                    },
                }
            },
            None => {
                // Unreachable: completeness was checked above, so every size
                // has an image.
                proof {
                    assert(false);
                }
                return Err(WindowsFolderSettingsError::Icon(IconError::IncompleteSet));
            },
        }
        k = k + 1;
    }
    proof {
        assert(dims@ =~= canonical_dims());
        assert(frames@.map_values(|f: Vec<u8>| f@) =~= set_frames(*set));
    }
    match build_container(&dims, &frames) {
        Ok(b) => Ok(b),
        Err(e) => Err(e),
    }
}

/// Law: round trip. Reading the directory of the container an encoded
/// complete icon set produced yields exactly eight entries whose
/// (width, height) pairs are the eight canonical dimensions, each pair
/// square, in ascending-dimension order; and each size's compressed frame
/// lies in the container exactly at that entry's position.
pub proof fn lemma_encode_round_trip(set: WindowsIconSet, b: Seq<u8>)
    requires
        set.wf(),
        set.complete_spec(),
        b == ico_bytes(set),
    ensures
        dir_ok(b),
        crate::extract::le16_at(b, 4) == 8,
        forall|k: int|
            0 <= k < 8 ==> #[trigger] parsed_entry_dims(b, k) == (
                WindowsIconSize::all_spec()[k].dimension_spec(),
                WindowsIconSize::all_spec()[k].dimension_spec(),
            ),
        forall|k: int|
            0 <= k < 8 ==> b.subrange(
                frame_offset(8, set_frames(set), k),
                frame_offset(8, set_frames(set), k) + frame_at(set, k).len(),
            ) == #[trigger] frame_at(set, k),
{
    let dims = canonical_dims();
    let frames = set_frames(set);
    assert(dims.len() == 8);
    lemma_entries_len(dims, frames, 8);
    lemma_frames_concat_len(frames, 8);
    lemma_frames_prefix_len_mono(frames, 0, 8);
    assert(b.len() == 6 + 16 * 8 + frames_prefix_len(frames, 8));
    assert(b[0] == 0 && b[1] == 0 && b[2] == 1 && b[3] == 0 && b[4] == 8 && b[5] == 0);
    assert forall|k: int|
        0 <= k < 8 implies #[trigger] parsed_entry_dims(b, k) == (
        WindowsIconSize::all_spec()[k].dimension_spec(),
        WindowsIconSize::all_spec()[k].dimension_spec(),
    ) by {
        let d = dims[k];
        let entry = ico_dir_entry(d, frames[k].len() as int, frame_offset(8, frames, k));
        lemma_entries_index(dims, frames, 8, k, 0);
        lemma_entries_index(dims, frames, 8, k, 1);
        assert(b[6 + 16 * k] == entry[0]);
        assert(b[6 + 16 * k + 1] == entry[1]);
        assert(entry[0] == dim_byte(d) && entry[1] == dim_byte(d));
        assert(d == WindowsIconSize::all_spec()[k].dimension_spec());
        crate::icon_size::lemma_all_sizes_ascending();
        assert(16 <= d <= 256);
        assert(undim_byte(dim_byte(d)) == d);
    }
    assert forall|k: int|
        0 <= k < 8 implies b.subrange(
        frame_offset(8, frames, k),
        frame_offset(8, frames, k) + frame_at(set, k).len(),
    ) == #[trigger] frame_at(set, k) by {
        lemma_frames_prefix_len_mono(frames, 0, k);
        lemma_frames_prefix_len_mono(frames, k + 1, 8);
        assert(frames[k] == frame_at(set, k));
        let off = frame_offset(8, frames, k);
        let flen = frames[k].len() as int;
        assert forall|t: int| 0 <= t < flen implies b[off + t] == frames[k][t] by {
            lemma_frames_concat_index(frames, 8, k, t);
            assert(b[off + t] == frames_concat(frames, 8)[frames_prefix_len(frames, k) + t]);
        }
        assert(b.subrange(off, off + flen) =~= frame_at(set, k));
    }
}

} // verus!
