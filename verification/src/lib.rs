//! Tag-parsing for release announcements in a multi-package workspace.
//!
//! Given an optional release tag string and a catalogue of known packages,
//! decide what a release should announce: a single package, a unified
//! whole-workspace release, or nothing (tag absent).

use vstd::prelude::*;

pub mod errors;
pub mod laws;
pub mod matcher;
pub mod package;
pub mod parser;
pub mod version;

pub use matcher::strip_prefix_package;
pub use package::{Package, PackageView};
pub use parser::{parse_tag, AnnouncementView, PartialAnnouncementTag};
pub use version::{semver_parse, Version, VersionView};

verus! {

/// Identifier of a package within one catalogue: its position in the
/// catalogue's vector.
#[derive(Clone, Copy, PartialEq, Eq, Structural, Debug)]
pub struct PackageIdx(pub usize);

} // verus!
