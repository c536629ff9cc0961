//! The package catalogue: one entry per workspace package.
//!
//! The catalogue is a read-only `Vec<Package>` supplied by the caller; a
//! package's identifier is its position in that vector.

use vstd::prelude::*;

use crate::version::{Version, VersionView};

verus! {

/// Mathematical value of a [`Package`]: its name and optional recorded
/// version as plain values.
pub ghost struct PackageView {
    pub name: Seq<char>,
    pub version: Option<VersionView>,
}

/// A catalogue entry: a package name used for tag matching, and the version
/// the package's own manifest records, if any.
#[derive(Debug)]
pub struct Package {
    /// The package's name, matched against tag prefixes.
    pub name: String,
    /// The version the package's manifest declares, if any.
    pub version: Option<Version>,
}

impl View for Package {
    type V = PackageView;

    open spec fn view(&self) -> PackageView {
        PackageView { name: self.name@, version: self.version.deep_view() }
    }
}

impl DeepView for Package {
    type V = PackageView;

    open spec fn deep_view(&self) -> PackageView {
        self.view()
    }
}

impl Package {
    /// A catalogue entry with the given name and recorded version.
    pub fn new(name: String, version: Option<Version>) -> (p: Package)
        ensures
            p@ == (PackageView { name: name@, version: version.deep_view() }),
    {
        Package { name, version }
    }
}

} // verus!
