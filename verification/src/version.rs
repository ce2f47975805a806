//! The version of the haptic data format

use vstd::prelude::*;
use vstd::std_specs::cmp::PartialOrdSpecImpl;
use core::cmp::Ordering;
use crate::text::decimal;
use crate::text::push_decimal;
use crate::text::string_push;

verus! {

/// The version used by `HapticData`
#[derive(Clone, Copy, Debug, PartialEq, Eq, Structural)]
pub struct Version {
    pub major: u32,
    pub minor: u32,
    pub patch: u32,
}

/// Three-way comparison of two integers
pub open spec fn compare_u32(a: u32, b: u32) -> Ordering {
    if a < b {
        Ordering::Less
    } else if a == b {
        Ordering::Equal
    } else {
        Ordering::Greater
    }
}

/// Versions are ordered lexicographically by major, minor, then patch
pub open spec fn version_order(a: Version, b: Version) -> Ordering {
    if a.major != b.major {
        compare_u32(a.major, b.major)
    } else if a.minor != b.minor {
        compare_u32(a.minor, b.minor)
    } else {
        compare_u32(a.patch, b.patch)
    }
}

/// The text form of a version, `major.minor.patch`
pub open spec fn version_text(v: Version) -> Seq<char> {
    decimal(v.major as nat) + seq!['.'] + decimal(v.minor as nat) + seq!['.'] + decimal(
        v.patch as nat,
    )
}

impl Version {
    /// Formats the version as `major.minor.patch`
    pub fn to_string(&self) -> (r: String)
        ensures
            r@ == version_text(*self),
    {
        let mut s = String::new();
        push_decimal(&mut s, self.major);
        string_push(&mut s, '.');
        push_decimal(&mut s, self.minor);
        string_push(&mut s, '.');
        push_decimal(&mut s, self.patch);
        proof {
            assert(s@ =~= version_text(*self));
        }
        s
    }

    /// Three-way comparison, lexicographic over major, minor, patch
    pub fn compare(&self, other: &Version) -> (r: Ordering)
        ensures
            r == version_order(*self, *other),
    {
        if self.major != other.major {
            if self.major < other.major { Ordering::Less } else { Ordering::Greater }
        } else if self.minor != other.minor {
            if self.minor < other.minor { Ordering::Less } else { Ordering::Greater }
        } else if self.patch < other.patch {
            Ordering::Less
        } else if self.patch == other.patch {
            Ordering::Equal
        } else {
            Ordering::Greater
        }
    }
}

impl Default for Version {
    fn default() -> (r: Self)
        ensures
            r == (Version { major: 1, minor: 0, patch: 0 }),
    {
        Version { major: 1, minor: 0, patch: 0 }
    }
}

impl PartialOrd for Version {
    fn partial_cmp(&self, other: &Self) -> (r: Option<Ordering>) {
        Some(self.compare(other))
    }
}

impl PartialOrdSpecImpl for Version {
    open spec fn obeys_partial_cmp_spec() -> bool {
        true
    }

    open spec fn partial_cmp_spec(&self, other: &Version) -> Option<Ordering> {
        Some(version_order(*self, *other))
    }
}

/// The version order is a total order that agrees with equality: two versions compare
/// `Equal` exactly when they are equal, and swapping the operands reverses the result.
pub proof fn version_order_is_total(a: Version, b: Version)
    ensures
        (version_order(a, b) == Ordering::Equal) <==> (a == b),
        version_order(a, b) == Ordering::Less <==> version_order(b, a) == Ordering::Greater,
{
}

/// The version order is transitive.
pub proof fn version_order_is_transitive(a: Version, b: Version, c: Version)
    requires
        version_order(a, b) == Ordering::Less,
        version_order(b, c) == Ordering::Less,
    ensures
        version_order(a, c) == Ordering::Less,
{
}


/// Versions compare lexicographically on (major, minor, patch): a smaller major number makes a
/// version smaller whatever the other numbers are; with equal major numbers a smaller minor
/// number does, whatever the patch numbers are; with equal major and minor numbers the patch
/// numbers decide; and versions with all three numbers equal compare `Equal`.
pub proof fn versions_compare_lexicographically(a: Version, b: Version)
    ensures
        a.major < b.major ==> version_order(a, b) == Ordering::Less,
        a.major > b.major ==> version_order(a, b) == Ordering::Greater,
        (a.major == b.major && a.minor < b.minor) ==> version_order(a, b) == Ordering::Less,
        (a.major == b.major && a.minor > b.minor) ==> version_order(a, b) == Ordering::Greater,
        (a.major == b.major && a.minor == b.minor && a.patch < b.patch) ==> version_order(a, b)
            == Ordering::Less,
        (a.major == b.major && a.minor == b.minor && a.patch > b.patch) ==> version_order(a, b)
            == Ordering::Greater,
        (a.major == b.major && a.minor == b.minor && a.patch == b.patch) ==> version_order(a, b)
            == Ordering::Equal,
{
}

} // verus!
