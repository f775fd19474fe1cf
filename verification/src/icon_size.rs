//! The catalog of canonical icon sizes: the eight fixed pixel dimensions a
//! Windows folder icon container must cover, with a total, bidirectional
//! mapping between symbolic tag and pixel dimension.

use vstd::prelude::*;

verus! {

/// Compatible image sizes for Windows icons (in pixels).
#[derive(Debug, Clone, Copy, PartialEq, Eq, Structural)]
pub enum WindowsIconSize {
    Px16,
    Px20,
    Px24,
    Px32,
    Px40,
    Px48,
    Px64,
    Px256,
}

impl WindowsIconSize {
    /// How many canonical sizes there are.
    pub const NUM_SIZES: usize = 8;

    /// The pixel dimension each tag stands for.
    pub open spec fn dimension_spec(self) -> u32 {
        match self {
            WindowsIconSize::Px16 => 16,
            WindowsIconSize::Px20 => 20,
            WindowsIconSize::Px24 => 24,
            WindowsIconSize::Px32 => 32,
            WindowsIconSize::Px40 => 40,
            WindowsIconSize::Px48 => 48,
            WindowsIconSize::Px64 => 64,
            WindowsIconSize::Px256 => 256,
        }
    }

    /// Returns the pixel dimension for this icon size.
    pub fn dimension(&self) -> (d: u32)
        ensures
            d == self.dimension_spec(),
    {
        match self {
            WindowsIconSize::Px16 => 16,
            WindowsIconSize::Px20 => 20,
            WindowsIconSize::Px24 => 24,
            WindowsIconSize::Px32 => 32,
            WindowsIconSize::Px40 => 40,
            WindowsIconSize::Px48 => 48,
            WindowsIconSize::Px64 => 64,
            WindowsIconSize::Px256 => 256,
        }
    }

    /// Whether a pixel dimension is one of the eight canonical values.
    pub open spec fn is_canonical_dimension(d: u32) -> bool {
        d == 16 || d == 20 || d == 24 || d == 32 || d == 40 || d == 48 || d == 64 || d == 256
    }

    /// The tag for a pixel dimension, none when the dimension is not canonical.
    pub open spec fn from_dimension_spec(d: u32) -> Option<WindowsIconSize> {
        if d == 16 {
            Some(WindowsIconSize::Px16)
        } else if d == 20 {
            Some(WindowsIconSize::Px20)
        } else if d == 24 {
            Some(WindowsIconSize::Px24)
        } else if d == 32 {
            Some(WindowsIconSize::Px32)
        } else if d == 40 {
            Some(WindowsIconSize::Px40)
        } else if d == 48 {
            Some(WindowsIconSize::Px48)
        } else if d == 64 {
            Some(WindowsIconSize::Px64)
        } else if d == 256 {
            Some(WindowsIconSize::Px256)
        } else {
            None
        }
    }

    /// Returns the WindowsIconSize for a given dimension, if valid.
    pub fn from_dimension(dimension: u32) -> (r: Option<Self>)
        ensures
            r == Self::from_dimension_spec(dimension),
            r is Some <==> Self::is_canonical_dimension(dimension),
            (r matches Some(s) ==> s.dimension_spec() == dimension),
    {
        match dimension {
            16 => Some(WindowsIconSize::Px16),
            20 => Some(WindowsIconSize::Px20),
            24 => Some(WindowsIconSize::Px24),
            32 => Some(WindowsIconSize::Px32),
            40 => Some(WindowsIconSize::Px40),
            48 => Some(WindowsIconSize::Px48),
            64 => Some(WindowsIconSize::Px64),
            256 => Some(WindowsIconSize::Px256),
            _ => None,
        }
    }

    /// All eight canonical tags, in ascending-dimension order.
    pub open spec fn all_spec() -> Seq<WindowsIconSize> {
        seq![
            WindowsIconSize::Px16,
            WindowsIconSize::Px20,
            WindowsIconSize::Px24,
            WindowsIconSize::Px32,
            WindowsIconSize::Px40,
            WindowsIconSize::Px48,
            WindowsIconSize::Px64,
            WindowsIconSize::Px256,
        ]
    }

    /// Returns all defined sizes, in ascending-dimension order.
    pub fn all() -> (r: Vec<WindowsIconSize>)
        ensures
            r@ == Self::all_spec(),
    {
        let mut v: Vec<WindowsIconSize> = Vec::new();
        v.push(WindowsIconSize::Px16);
        v.push(WindowsIconSize::Px20);
        v.push(WindowsIconSize::Px24);
        v.push(WindowsIconSize::Px32);
        v.push(WindowsIconSize::Px40);
        v.push(WindowsIconSize::Px48);
        v.push(WindowsIconSize::Px64);
        v.push(WindowsIconSize::Px256);
        proof {
            assert(v@ =~= Self::all_spec());
        }
        v
    }
}

/// Law: the dimension catalog is total and bidirectional. Every canonical
/// dimension maps to a tag whose dimension is that value, every other
/// dimension maps to none, and every tag is recovered from its own dimension.
pub proof fn lemma_dimension_catalog_bidirectional(d: u32, s: WindowsIconSize)
    ensures
        WindowsIconSize::is_canonical_dimension(d) ==> matches!(
            WindowsIconSize::from_dimension_spec(d), Some(t) if t.dimension_spec() == d),
        !WindowsIconSize::is_canonical_dimension(d) ==> WindowsIconSize::from_dimension_spec(
            d,
        ) is None,
        WindowsIconSize::from_dimension_spec(s.dimension_spec()) == Some(s),
{
}

/// Law: the catalog lists exactly the eight canonical sizes, in strictly
/// ascending dimension order, so each tag appears exactly once.
pub proof fn lemma_all_sizes_ascending()
    ensures
        WindowsIconSize::all_spec().len() == 8,
        forall|i: int, j: int|
            0 <= i < j < WindowsIconSize::all_spec().len()
                ==> (#[trigger] WindowsIconSize::all_spec()[i]).dimension_spec() < (
            #[trigger] WindowsIconSize::all_spec()[j]).dimension_spec(),
        forall|s: WindowsIconSize| WindowsIconSize::all_spec().contains(s),
{
    assert forall|s: WindowsIconSize| WindowsIconSize::all_spec().contains(s) by {
        let a = WindowsIconSize::all_spec();
        match s {
            WindowsIconSize::Px16 => assert(a[0] == s),
            WindowsIconSize::Px20 => assert(a[1] == s),
            WindowsIconSize::Px24 => assert(a[2] == s),
            WindowsIconSize::Px32 => assert(a[3] == s),
            WindowsIconSize::Px40 => assert(a[4] == s),
            WindowsIconSize::Px48 => assert(a[5] == s),
            WindowsIconSize::Px64 => assert(a[6] == s),
            WindowsIconSize::Px256 => assert(a[7] == s),
        }
    }
}

} // verus!
