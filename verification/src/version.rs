//! The capability descriptor: which API family and version a context speaks.

use std::cmp::Ordering;
use vstd::prelude::*;

verus! {

/// Family of the driver API.
#[derive(Clone, Copy, Debug, PartialEq, Eq, Structural)]
pub enum Api {
    /// The primary (desktop) API.
    Gl,
    /// The embedded API.
    GlEs,
}

/// An API family with a major and a minor version number, detected once when
/// a context is created and never changed afterwards.
///
/// Versions are totally ordered by family, then major, then minor number.
/// The embedded family ranks below the primary one, so an embedded context
/// never reaches a threshold that names a primary version.
#[derive(Clone, Copy, Debug, PartialEq, Eq, Structural)]
pub struct Version(pub Api, pub u8, pub u8);

impl Api {
    /// Position of the family in the order of versions.
    pub open spec fn rank(self) -> int {
        match self {
            Api::GlEs => 0,
            Api::Gl => 1,
        }
    }
}

impl Version {
    /// The place of a version on the number line: versions compare as their
    /// ordinals do.
    pub open spec fn ordinal(self) -> int {
        self.0.rank() * 0x1_0000 + self.1 * 0x100 + self.2
    }

    /// `self` is `min` or a later version.
    pub open spec fn spec_at_least(self, min: Version) -> bool {
        self.ordinal() >= min.ordinal()
    }

    /// How `self` stands to `other` in the order of versions.
    pub open spec fn order(self, other: Version) -> Ordering {
        if self.ordinal() < other.ordinal() {
            Ordering::Less
        } else if self.ordinal() == other.ordinal() {
            Ordering::Equal
        } else {
            Ordering::Greater
        }
    }

    /// Compares two versions by family, then major, then minor number.
    pub fn compare(self, other: Version) -> (r: Ordering)
        ensures
            r == self.order(other),
            r == Ordering::Equal <==> self == other,
    {
        let own: bool = self.0 == Api::Gl;
        let others: bool = other.0 == Api::Gl;
        if own != others {
            if own {
                Ordering::Greater
            } else {
                Ordering::Less
            }
        } else if self.1 != other.1 {
            if self.1 > other.1 {
                Ordering::Greater
            } else {
                Ordering::Less
            }
        } else if self.2 != other.2 {
            if self.2 > other.2 {
                Ordering::Greater
            } else {
                Ordering::Less
            }
        } else {
            Ordering::Equal
        }
    }

    /// Tells whether `self` is `min` or a later version.
    #[verifier::when_used_as_spec(spec_at_least)]
    pub fn at_least(self, min: Version) -> (r: bool)
        ensures
            r == self.spec_at_least(min),
    {
        match self.compare(min) {
            Ordering::Less => false,
            _ => true,
        }
    }
}

impl PartialOrd for Version {
    fn partial_cmp(&self, other: &Version) -> (r: Option<Ordering>) {
        Some(self.compare(*other))
    }
}

impl vstd::std_specs::cmp::PartialOrdSpecImpl for Version {
    open spec fn obeys_partial_cmp_spec() -> bool {
        true
    }

    open spec fn partial_cmp_spec(&self, other: &Version) -> Option<Ordering> {
        Some(self.order(*other))
    }
}

/// The order of versions is total: any two versions compare, only equal
/// versions compare equal, and the order is transitive.
pub proof fn lemma_versions_totally_ordered(a: Version, b: Version, c: Version)
    ensures
        a.at_least(a),
        a.at_least(b) || b.at_least(a),
        a.at_least(b) && b.at_least(a) ==> a == b,
        a.at_least(b) && b.at_least(c) ==> a.at_least(c),
{
}

/// No embedded version reaches a primary one, whatever their numbers.
pub proof fn lemma_embedded_below_primary(embedded: Version, primary: Version)
    requires
        embedded.0 == Api::GlEs,
        primary.0 == Api::Gl,
    ensures
        !embedded.at_least(primary),
        primary.at_least(embedded),
{
}

} // verus!
