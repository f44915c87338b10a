//! The four coaching packages and their catalog display names.

use vstd::prelude::*;

verus! {

/// A purchasable coaching package: one, three, six or ten sessions.
#[derive(Clone, Copy, Debug, PartialEq, Eq, Structural)]
pub enum CoachingPackage {
    Single,
    Three,
    Six,
    Ten,
}

/// The display name under which a package's item variation is filed in
/// the remote catalog.
pub open spec fn spec_package_name(p: CoachingPackage) -> Seq<char> {
    match p {
        CoachingPackage::Single => "Single Session"@,
        CoachingPackage::Three => "Package of 3"@,
        CoachingPackage::Six => "Package of 6"@,
        CoachingPackage::Ten => "Package of 10"@,
    }
}

impl CoachingPackage {
    /// The package's catalog display name. Checkout resolves a package to
    /// its item variation by matching this name exactly.
    pub fn name(&self) -> (r: String)
        ensures
            r@ == spec_package_name(*self),
    {
        match self {
            CoachingPackage::Single => "Single Session".to_owned(),
            CoachingPackage::Three => "Package of 3".to_owned(),
            CoachingPackage::Six => "Package of 6".to_owned(),
            CoachingPackage::Ten => "Package of 10".to_owned(),
        }
    }
}

} // verus!
