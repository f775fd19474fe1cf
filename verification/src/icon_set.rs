//! The validated icon set model: at most one image per canonical size, with
//! completeness and missing-size queries. The set is stored as one slot per
//! canonical size, in ascending-dimension order, so iteration over the slots
//! is iteration over the sizes in ascending order.

use vstd::prelude::*;

use crate::icon_error::IconError;
use crate::icon_size::WindowsIconSize;

verus! {

/// An individual image in a Windows icon: a size tag plus a pixel buffer
/// whose width and height both equal the tag's dimension.
#[derive(Debug)]
pub struct WindowsIconImage {
    /// The canonical size this image fills.
    pub size: WindowsIconSize,
    /// The pixel data, RGBA, 8 bits per channel.
    pub image: crate::api::IconImage,
}

impl WindowsIconImage {
    /// The image really is a square bitmap of the tag's dimension.
    pub open spec fn wf(self) -> bool {
        &&& self.image.width == self.size.dimension_spec()
        &&& self.image.height == self.size.dimension_spec()
        &&& self.image.wf()
    }
}

/// The position of a size's slot: its index in the ascending catalog order.
pub open spec fn size_index_spec(s: WindowsIconSize) -> int {
    match s {
        WindowsIconSize::Px16 => 0,
        WindowsIconSize::Px20 => 1,
        WindowsIconSize::Px24 => 2,
        WindowsIconSize::Px32 => 3,
        WindowsIconSize::Px40 => 4,
        WindowsIconSize::Px48 => 5,
        WindowsIconSize::Px64 => 6,
        WindowsIconSize::Px256 => 7,
    }
}

/// The slot index of a size, as executable code.
fn size_index(s: WindowsIconSize) -> (k: usize)
    ensures
        k == size_index_spec(s),
        k < 8,
{
    match s {
        WindowsIconSize::Px16 => 0,
        WindowsIconSize::Px20 => 1,
        WindowsIconSize::Px24 => 2,
        WindowsIconSize::Px32 => 3,
        WindowsIconSize::Px40 => 4,
        WindowsIconSize::Px48 => 5,
        WindowsIconSize::Px64 => 6,
        WindowsIconSize::Px256 => 7,
    }
}

/// Each size's slot index points back at that size in the catalog order.
proof fn lemma_size_index(s: WindowsIconSize, k: int)
    ensures
        0 <= size_index_spec(s) < 8,
        WindowsIconSize::all_spec()[size_index_spec(s)] == s,
        0 <= k < 8 ==> size_index_spec(WindowsIconSize::all_spec()[k]) == k,
{
}

/// Two images in a sequence claim the same size.
pub open spec fn has_duplicate_size(icons: Seq<WindowsIconImage>) -> bool {
    exists|i: int, j: int| 0 <= i < j < icons.len() && icons[i].size == icons[j].size
}

/// Two images in a sequence both claim the size `s`.
pub open spec fn duplicated_size(icons: Seq<WindowsIconImage>, s: WindowsIconSize) -> bool {
    exists|i: int, j: int| 0 <= i < j < icons.len() && icons[i].size == s && icons[j].size == s
}

/// The first image in the sequence tagged with size `s`, if any.
pub open spec fn first_icon_with_size(
    icons: Seq<WindowsIconImage>,
    s: WindowsIconSize,
) -> Option<WindowsIconImage>
    decreases icons.len(),
{
    if icons.len() == 0 {
        None
    } else if icons[0].size == s {
        Some(icons[0])
    } else {
        first_icon_with_size(icons.skip(1), s)
    }
}

/// A first image with size `s` exists exactly when some image has size `s`,
/// and it is one of the sequence's images.
pub proof fn lemma_first_icon_some(icons: Seq<WindowsIconImage>, s: WindowsIconSize)
    ensures
        first_icon_with_size(icons, s) matches Some(im) ==> im.size == s && exists|j: int|
            0 <= j < icons.len() && icons[j] == im,
        first_icon_with_size(icons, s) is Some <==> exists|j: int|
            0 <= j < icons.len() && #[trigger] icons[j].size == s,
    decreases icons.len(),
{
    if icons.len() > 0 {
        if icons[0].size == s {
            assert(icons[0].size == s);
        } else {
            lemma_first_icon_some(icons.skip(1), s);
            if first_icon_with_size(icons.skip(1), s) is Some {
                let im = first_icon_with_size(icons.skip(1), s)->Some_0;
                let j = choose|j: int| 0 <= j < icons.skip(1).len() && icons.skip(1)[j] == im;
                assert(icons[j + 1] == im);
            }
            if exists|j: int| 0 <= j < icons.len() && #[trigger] icons[j].size == s {
                let j = choose|j: int| 0 <= j < icons.len() && #[trigger] icons[j].size == s;
                assert(icons.skip(1)[j - 1].size == s);
            }
        }
    }
}

/// Appending an image changes the first image of a size only when that size
/// had no image yet and the appended one carries it.
proof fn lemma_first_icon_push(
    icons: Seq<WindowsIconImage>,
    x: WindowsIconImage,
    s: WindowsIconSize,
)
    ensures
        first_icon_with_size(icons.push(x), s) == (if first_icon_with_size(icons, s) is Some {
            first_icon_with_size(icons, s)
        } else if x.size == s {
            Some(x)
        } else {
            None::<WindowsIconImage>
        }),
    decreases icons.len(),
{
    if icons.len() == 0 {
        assert(icons.push(x)[0] == x);
        assert(icons.push(x).skip(1) =~= Seq::<WindowsIconImage>::empty());
        if x.size == s {
            assert(first_icon_with_size(icons.push(x), s) == Some(x));
        } else {
            assert(first_icon_with_size(icons.push(x), s) == first_icon_with_size(
                icons.push(x).skip(1),
                s,
            ));
        }
    } else {
        assert(icons.push(x)[0] == icons[0]);
        assert(icons.push(x).skip(1) =~= icons.skip(1).push(x));
        lemma_first_icon_push(icons.skip(1), x, s);
        if icons[0].size == s {
            assert(first_icon_with_size(icons, s) == Some(icons[0]));
            assert(first_icon_with_size(icons.push(x), s) == Some(icons[0]));
        } else {
            assert(first_icon_with_size(icons, s) == first_icon_with_size(icons.skip(1), s));
            assert(first_icon_with_size(icons.push(x), s) == first_icon_with_size(
                icons.skip(1).push(x),
                s,
            ));
        }
    }
}

impl WindowsIconImage {
    /// Validates one platform-agnostic image as a Windows icon image, deriving
    /// its size tag from the pixel width and taking ownership of the buffer.
    /// Succeeds exactly when the width is canonical, the image is square, and
    /// the buffer length matches.
    pub fn try_from(icon_image: crate::api::IconImage) -> (r: Result<WindowsIconImage, IconError>)
        ensures
            r is Ok <==> convertible_image(icon_image),
            r matches Ok(wim) ==> wim.wf() && wim == to_windows_image(icon_image),
            r matches Err(e) ==> match e {
                IconError::UnrecognizedDimension(d) => d == icon_image.width
                    && !WindowsIconSize::is_canonical_dimension(d),
                IconError::MalformedImage => WindowsIconSize::is_canonical_dimension(
                    icon_image.width,
                ) && (icon_image.height != icon_image.width || !icon_image.wf()),
                _ => false,
            },
    {
        match WindowsIconSize::from_dimension(icon_image.width) {
            None => Err(IconError::UnrecognizedDimension(icon_image.width)),
            Some(size) => {
                if icon_image.height != icon_image.width {
                    return Err(IconError::MalformedImage);
                }
                let w = icon_image.width as u64;
                if icon_image.data.len() as u64 != w * w * 4 {
                    return Err(IconError::MalformedImage);
                }
                Ok(WindowsIconImage { size, image: icon_image })
            },
        }
    }
}

/// A platform-agnostic image that converts to a Windows icon image: canonical
/// width, square, and a buffer of the right length.
pub open spec fn convertible_image(im: crate::api::IconImage) -> bool {
    &&& WindowsIconSize::is_canonical_dimension(im.width)
    &&& im.height == im.width
    &&& im.wf()
}

/// The Windows icon image a convertible platform-agnostic image becomes.
pub open spec fn to_windows_image(im: crate::api::IconImage) -> WindowsIconImage {
    WindowsIconImage { size: WindowsIconSize::from_dimension_spec(im.width)->Some_0, image: im }
}

/// Elementwise conversion of a sequence of platform-agnostic images.
pub open spec fn to_windows_seq(images: Seq<crate::api::IconImage>) -> Seq<WindowsIconImage> {
    images.map_values(|im: crate::api::IconImage| to_windows_image(im))
}

/// Some image of the sequence claims the size `s`.
pub open spec fn seq_has_size(icons: Seq<WindowsIconImage>, s: WindowsIconSize) -> bool {
    exists|i: int| 0 <= i < icons.len() && (#[trigger] icons[i]).size == s
}

/// Every canonical size is claimed by some image of the sequence.
pub open spec fn covers_all_sizes(icons: Seq<WindowsIconImage>) -> bool {
    forall|s: WindowsIconSize| #[trigger] seq_has_size(icons, s)
}

/// A Windows icon set composed of individual sizes: one optional image per
/// canonical size, kept in ascending-dimension slot order.
#[derive(Debug)]
pub struct WindowsIconSet {
    images: Vec<Option<WindowsIconImage>>,
}

impl WindowsIconSet {
    /// The image stored for a size, as a mapping from tag to optional image.
    pub closed spec fn spec_get(self, s: WindowsIconSize) -> Option<WindowsIconImage> {
        self.images@[size_index_spec(s)]
    }

    /// Well-formed: one slot per canonical size, and every stored image is a
    /// valid square bitmap of its slot's size.
    pub closed spec fn wf(self) -> bool {
        &&& self.images@.len() == 8
        &&& forall|s: WindowsIconSize|
            (#[trigger] self.spec_get(s)) matches Some(im) ==> im.size == s && im.wf()
    }

    /// A well-formed set stores under each size only a valid image of that size.
    pub proof fn lemma_wf_get(self, s: WindowsIconSize)
        requires
            self.wf(),
        ensures
            self.spec_get(s) matches Some(im) ==> im.size == s && im.wf(),
    {
    }

    /// Every canonical size has an image.
    pub open spec fn complete_spec(self) -> bool {
        forall|s: WindowsIconSize| (#[trigger] self.spec_get(s)) is Some
    }

    /// The canonical sizes with no image, in ascending-dimension order.
    pub open spec fn missing_spec(self) -> Seq<WindowsIconSize> {
        WindowsIconSize::all_spec().filter(|s: WindowsIconSize| self.spec_get(s) is None)
    }

    /// Constructor from icons; must contain no duplicates.
    ///
    /// Succeeds exactly when no two input images claim the same size; the set
    /// then maps each size to the input image carrying it. Fails with the
    /// duplicated size otherwise.
    #[verifier::loop_isolation(false)]
    #[verifier::rlimit(30)]
    pub fn from_icons(icons: Vec<WindowsIconImage>) -> (r: Result<WindowsIconSet, IconError>)
        requires
            forall|i: int| 0 <= i < icons@.len() ==> (#[trigger] icons@[i]).wf(),
        ensures
            r is Ok <==> !has_duplicate_size(icons@),
            r matches Ok(set) ==> set.wf() && forall|s: WindowsIconSize|
                #[trigger] set.spec_get(s) == first_icon_with_size(icons@, s),
            r matches Err(e) ==> (e matches IconError::DuplicateSize(s) && duplicated_size(
                icons@,
                s,
            )),
    {
        let ghost orig = icons@;
        let mut icons = icons;
        let mut slots: Vec<Option<WindowsIconImage>> = Vec::new();
        slots.push(None);
        slots.push(None);
        slots.push(None);
        slots.push(None);
        slots.push(None);
        slots.push(None);
        slots.push(None);
        slots.push(None);

        proof {
            assert forall|s: WindowsIconSize| #[trigger] slots@[size_index_spec(s)]
                == first_icon_with_size(orig.take(0), s) by {
                lemma_size_index(s, 0);
            }
        }

        let n = icons.len();
        let mut i: usize = 0;
        while i < n
            invariant
                n == orig.len(),
                i <= n,
                icons@ == orig.skip(i as int),
                slots@.len() == 8,
                forall|i0: int| 0 <= i0 < orig.len() ==> (#[trigger] orig[i0]).wf(),
                forall|s: WindowsIconSize| #[trigger] slots@[size_index_spec(s)]
                    == first_icon_with_size(orig.take(i as int), s),
                !has_duplicate_size(orig.take(i as int)),
            decreases n - i,
        {
            proof {
                assert(orig.skip(i as int)[0] == orig[i as int]);
            }
            let icon = icons.remove(0);
            proof {
                assert(icons@ =~= orig.skip(i as int + 1));
            }
            let k = size_index(icon.size);
            proof {
                lemma_size_index(icon.size, 0);
            }
            if slots[k].is_some() {
                proof {
                    let s = icon.size;
                    lemma_first_icon_some(orig.take(i as int), s);
                    let j = choose|j: int|
                        0 <= j < orig.take(i as int).len() && #[trigger] orig.take(
                            i as int,
                        )[j].size == s;
                    assert(orig[j].size == s && orig[i as int].size == s && j < i as int);
                    assert(duplicated_size(orig, s));
                    assert(has_duplicate_size(orig));
                }
                return Err(IconError::DuplicateSize(icon.size));
            }
            slots.set(k, Some(icon));
            i = i + 1;
            proof {
                let prev = orig.take(i as int - 1);
                assert(orig.take(i as int) =~= prev.push(orig[i as int - 1]));
                assert forall|s: WindowsIconSize| #[trigger] slots@[size_index_spec(s)]
                    == first_icon_with_size(orig.take(i as int), s) by {
                    lemma_size_index(s, 0);
                    lemma_size_index(icon.size, 0);
                    lemma_first_icon_push(prev, orig[i as int - 1], s);
                }
                assert forall|i0: int, j0: int|
                    0 <= i0 < j0 < orig.take(i as int).len() implies !(orig.take(i as int)[i0].size
                    == orig.take(i as int)[j0].size) by {
                    if j0 == i as int - 1 {
                        if orig[i0].size == orig[j0].size {
                            lemma_first_icon_some(prev, orig[j0].size);
                            assert(prev[i0].size == orig[j0].size);
                        }
                    }
                }
            }
        }
        proof {
            assert(orig.take(n as int) =~= orig);
            assert forall|s: WindowsIconSize|
                (#[trigger] slots@[size_index_spec(s)]) matches Some(im) ==> im.size == s
                    && im.wf() by {
                lemma_first_icon_some(orig, s);
            }
            let result_set = WindowsIconSet { images: slots };
            assert forall|s: WindowsIconSize|
                (#[trigger] result_set.spec_get(s)) matches Some(im) ==> im.size == s
                    && im.wf() by {
                assert(slots@[size_index_spec(s)] == result_set.spec_get(s));
            }
        }
        Ok(WindowsIconSet { images: slots })
    }

    /// Add or replace an image for a given size.
    pub fn add_image(&mut self, icon: WindowsIconImage)
        requires
            old(self).wf(),
            icon.wf(),
        ensures
            final(self).wf(),
            final(self).spec_get(icon.size) == Some(icon),
            forall|s: WindowsIconSize|
                s != icon.size ==> #[trigger] final(self).spec_get(s) == old(self).spec_get(s),
    {
        let k = size_index(icon.size);
        self.images.set(k, Some(icon));
        proof {
            assert forall|s: WindowsIconSize|
                s != icon.size implies #[trigger] self.spec_get(s) == old(self).spec_get(s) by {
                lemma_size_index(s, 0);
                lemma_size_index(icon.size, 0);
                assert(size_index_spec(s) != size_index_spec(icon.size));
            }
            assert forall|s: WindowsIconSize|
                (#[trigger] self.spec_get(s)) matches Some(im) ==> im.size == s && im.wf() by {
                if s != icon.size {
                    assert(self.spec_get(s) == old(self).spec_get(s));
                }
            }
        }
    }

    /// Provide a getter for the image stored under a size, if any.
    pub fn get_image(&self, size: WindowsIconSize) -> (r: Option<&WindowsIconImage>)
        requires
            self.wf(),
        ensures
            match r {
                Some(im) => self.spec_get(size) == Some(*im),
                None => self.spec_get(size) is None,
            },
    {
        let k = size_index(size);
        self.images[k].as_ref()
    }

    /// Returns a Vec of missing sizes, in ascending-dimension order.
    pub fn missing_sizes(&self) -> (r: Vec<WindowsIconSize>)
        requires
            self.wf(),
        ensures
            r@ == self.missing_spec(),
    {
        let all = WindowsIconSize::all();
        let mut r: Vec<WindowsIconSize> = Vec::new();
        let ghost pred = |s: WindowsIconSize| self.spec_get(s) is None;
        let mut k: usize = 0;
        while k < 8
            invariant
                self.wf(),
                all@ == WindowsIconSize::all_spec(),
                k <= 8,
                pred == (|s: WindowsIconSize| self.spec_get(s) is None),
                r@ == WindowsIconSize::all_spec().take(k as int).filter(pred),
            decreases 8 - k,
        {
            let s = all[k];
            proof {
                lemma_size_index(s, k as int);
            }
            if self.images[k].is_none() {
                r.push(s);
            }
            k = k + 1;
            proof {
                let prefix = WindowsIconSize::all_spec().take(k as int);
                assert(prefix.drop_last() =~= WindowsIconSize::all_spec().take(k as int - 1));
                assert(prefix.last() == s);
                reveal(Seq::filter);
            }
        }
        proof {
            assert(WindowsIconSize::all_spec().take(8) =~= WindowsIconSize::all_spec());
        }
        r
    }

    /// Returns true if all standard sizes are present.
    pub fn is_complete(&self) -> (r: bool)
        requires
            self.wf(),
        ensures
            r == self.complete_spec(),
            r <==> self.missing_spec().len() == 0,
    {
        let m = self.missing_sizes();
        let r = m.is_empty();
        proof {
            let all = WindowsIconSize::all_spec();
            let pred = |s: WindowsIconSize| self.spec_get(s) is None;
            if r {
                assert forall|s: WindowsIconSize| (#[trigger] self.spec_get(s)) is Some by {
                    if self.spec_get(s) is None {
                        crate::icon_size::lemma_all_sizes_ascending();
                        let j = choose|j: int| 0 <= j < all.len() && all[j] == s;
                        Seq::lemma_filter_contains(all, pred, j);
                    }
                }
            } else {
                Seq::lemma_filter_pred(all, pred, 0);
                assert(pred(m@[0]));
                assert(!self.complete_spec());
            }
        }
        r
    }

    /// A platform-agnostic set that converts to a Windows icon set: every
    /// image convertible, no size claimed twice, all eight sizes covered.
    pub open spec fn convertible_set(images: Seq<crate::api::IconImage>) -> bool {
        &&& forall|i: int|
            0 <= i < images.len() ==> convertible_image(#[trigger] images[i])
        &&& !has_duplicate_size(to_windows_seq(images))
        &&& covers_all_sizes(to_windows_seq(images))
    }

    /// What each error kind of the set conversion reports of the input.
    pub open spec fn conversion_error_cause(
        images: Seq<crate::api::IconImage>,
        e: IconError,
    ) -> bool {
        match e {
            IconError::UnrecognizedDimension(d) => exists|i: int|
                0 <= i < images.len() && (#[trigger] images[i]).width == d
                    && !WindowsIconSize::is_canonical_dimension(d),
            IconError::MalformedImage => exists|i: int|
                0 <= i < images.len() && !convertible_image(#[trigger] images[i]),
            IconError::DuplicateSize(s) => duplicated_size(to_windows_seq(images), s),
            IconError::IncompleteSet => !covers_all_sizes(to_windows_seq(images)),
        }
    }

    /// Conversion from the platform-agnostic set form: validates every image,
    /// rejects duplicate sizes, and requires the result to be complete.
    #[verifier::loop_isolation(false)]
    pub fn try_from(icon_set: crate::api::IconSet) -> (r: Result<WindowsIconSet, IconError>)
        ensures
            r is Ok <==> Self::convertible_set(icon_set.images@),
            r matches Ok(set) ==> set.wf() && set.complete_spec() && forall|s: WindowsIconSize|
                #[trigger] set.spec_get(s) == first_icon_with_size(
                    to_windows_seq(icon_set.images@),
                    s,
                ),
            r matches Err(e) ==> Self::conversion_error_cause(icon_set.images@, e),
    {
        let ghost imgs = icon_set.images@;
        let mut rest = icon_set.images;
        let n = rest.len();
        let mut icons: Vec<WindowsIconImage> = Vec::new();
        let mut i: usize = 0;
        while i < n
            invariant
                i <= n,
                rest@ == imgs.skip(i as int),
                icons@ == to_windows_seq(imgs.take(i as int)),
                forall|j: int| 0 <= j < i ==> convertible_image(#[trigger] imgs[j]),
            decreases n - i,
        {
            proof {
                assert(imgs.skip(i as int)[0] == imgs[i as int]);
            }
            let im = rest.remove(0);
            proof {
                assert(rest@ =~= imgs.skip(i as int + 1));
            }
            match WindowsIconImage::try_from(im) {
                Ok(wim) => {
                    icons.push(wim);
                    proof {
                        assert(imgs.take(i + 1 as int) =~= imgs.take(i as int).push(imgs[i as int]));
                        assert(icons@ =~= to_windows_seq(imgs.take(i + 1 as int)));
                    }
                },
                Err(e) => {
                    return Err(e);
                },
            }
            i = i + 1;
        }
        proof {
            assert(imgs.take(n as int) =~= imgs);
            assert forall|j: int|
                0 <= j < icons@.len() implies (#[trigger] icons@[j]).wf() by {
                assert(icons@[j] == to_windows_image(imgs[j]));
            }
        }
        let windows_icon_set = match WindowsIconSet::from_icons(icons) {
            Ok(set) => set,
            Err(e) => {
                return Err(e);
            },
        };
        let complete = windows_icon_set.is_complete();
        proof {
            let wseq = to_windows_seq(imgs);
            assert forall|s: WindowsIconSize| #[trigger] seq_has_size(wseq, s) <==> (
            windows_icon_set.spec_get(s)) is Some by {
                lemma_first_icon_some(wseq, s);
                if seq_has_size(wseq, s) {
                    let j = choose|j: int| 0 <= j < wseq.len() && (#[trigger] wseq[j]).size == s;
                    assert(wseq[j].size == s);
                }
                if windows_icon_set.spec_get(s) is Some {
                    let j = choose|j: int| 0 <= j < wseq.len() && (#[trigger] wseq[j]).size == s;
                    assert(wseq[j].size == s);
                }
            }
            if !complete {
                let s = choose|s: WindowsIconSize| (windows_icon_set.spec_get(s)) is None;
                assert(!seq_has_size(wseq, s));
            }
        }
        if complete {
            Ok(windows_icon_set)
        } else {
            Err(IconError::IncompleteSet)
        }
    }

    /// The images of the present slots, in ascending-dimension order.
    pub closed spec fn images_ascending(self) -> Seq<crate::api::IconImage> {
        self.images@.filter_map(
            |slot: Option<WindowsIconImage>|
                match slot {
                    Some(im) => Some(im.image),
                    None => None,
                },
        )
    }

    /// Conversion to the platform-agnostic set form: the present images, in
    /// ascending-dimension order.
    #[verifier::loop_isolation(false)]
    pub fn to_icon_set(self) -> (r: crate::api::IconSet)
        requires
            self.wf(),
        ensures
            r.images@ == self.images_ascending(),
    {
        let ghost slots = self.images@;
        let ghost f = |slot: Option<WindowsIconImage>|
            match slot {
                Some(im) => Some(im.image),
                None => None::<crate::api::IconImage>,
            };
        let mut rest = self.images;
        let mut images: Vec<crate::api::IconImage> = Vec::new();
        let mut k: usize = 0;
        while k < 8
            invariant
                k <= 8,
                rest@ == slots.skip(k as int),
                images@ == slots.take(k as int).filter_map(f),
            decreases 8 - k,
        {
            proof {
                assert(slots.skip(k as int)[0] == slots[k as int]);
            }
            let slot = rest.remove(0);
            proof {
                assert(rest@ =~= slots.skip(k as int + 1));
                let prefix = slots.take(k as int + 1);
                assert(prefix.drop_last() =~= slots.take(k as int));
                assert(prefix.last() == slots[k as int]);
            }
            match slot {
                Some(im) => {
                    images.push(im.image);
                },
                None => {},
            }
            k = k + 1;
        }
        proof {
            assert(slots.take(8) =~= slots);
        }
        crate::api::IconSet { images }
    }
}

/// Law: duplicate rejection does not depend on insertion order. Under any
/// rearrangement of the same images (given by an injective index map), a
/// duplicated size stays duplicated; since the map's inverse is again such a
/// rearrangement, two orders of the same images either both carry a
/// duplicate or neither does.
pub proof fn lemma_duplicate_order_independent(
    a: Seq<WindowsIconImage>,
    b: Seq<WindowsIconImage>,
    perm: Seq<int>,
)
    requires
        perm.len() == b.len(),
        a.len() == b.len(),
        forall|i: int| 0 <= i < perm.len() ==> 0 <= #[trigger] perm[i] < a.len(),
        forall|i: int, j: int| 0 <= i < j < perm.len() ==> perm[i] != perm[j],
        forall|i: int| 0 <= i < b.len() ==> #[trigger] b[i] == a[perm[i]],
    ensures
        has_duplicate_size(b) ==> has_duplicate_size(a),
{
    if has_duplicate_size(b) {
        let (i, j) = choose|i: int, j: int|
            0 <= i < j < b.len() && b[i].size == b[j].size;
        assert(perm[i] != perm[j]);
        if perm[i] < perm[j] {
            assert(a[perm[i]].size == a[perm[j]].size);
        } else {
            assert(a[perm[j]].size == a[perm[i]].size);
        }
    }
}

/// Law: building a set from images that claim every canonical size yields a
/// complete set with an empty missing-size list. The premises are exactly
/// what `from_icons` guarantees of a successful build.
pub proof fn lemma_build_set_complete(icons: Seq<WindowsIconImage>, set: WindowsIconSet)
    requires
        forall|s: WindowsIconSize| #[trigger] set.spec_get(s) == first_icon_with_size(icons, s),
        covers_all_sizes(icons),
    ensures
        set.complete_spec(),
        set.missing_spec() == Seq::<WindowsIconSize>::empty(),
{
    assert forall|s: WindowsIconSize| (#[trigger] set.spec_get(s)) is Some by {
        assert(seq_has_size(icons, s));
        let j = choose|j: int| 0 <= j < icons.len() && (#[trigger] icons[j]).size == s;
        lemma_first_icon_some(icons, s);
        assert(icons[j].size == s);
    }
    let pred = |s: WindowsIconSize| set.spec_get(s) is None;
    if set.missing_spec().len() > 0 {
        Seq::lemma_filter_pred(WindowsIconSize::all_spec(), pred, 0);
    }
    assert(set.missing_spec() =~= Seq::<WindowsIconSize>::empty());
}

} // verus!
