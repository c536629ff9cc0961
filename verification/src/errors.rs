//! The parser's error taxonomy.
//!
//! Every failure is terminal for the call; each variant carries enough
//! context for the caller to render directly.

use vstd::prelude::*;

use crate::version::{Version, VersionView};

verus! {

/// Mathematical value of a [`TagError`]. The diagnostic text attached to a
/// parse failure is a rendering of the outside parser's error and carries
/// no specified content, so it has no place here.
pub ghost enum TagErrorView {
    /// The version portion of the tag is not a valid semantic version.
    TagVersionParse { tag: Seq<char> },
    /// The tag names a package whose recorded version disagrees with the
    /// version parsed from the tag.
    ContradictoryTagVersion {
        tag: Seq<char>,
        package_name: Seq<char>,
        tag_version: VersionView,
        real_version: VersionView,
    },
    /// The tag matches neither a package-prefixed form nor a bare version.
    NoTagMatch { tag: Seq<char> },
}

/// An error from tag parsing.
#[derive(Debug)]
pub enum TagError {
    /// The version portion of the tag is not syntactically a valid
    /// semantic version. Carries the raw tag and the parser's diagnostic.
    TagVersionParse {
        /// The tag that was being parsed.
        tag: String,
        /// The version parser's own diagnostic.
        details: String,
    },
    /// The tag names a specific package whose manifest-recorded version
    /// disagrees with the version parsed from the tag.
    ContradictoryTagVersion {
        /// The tag that was being parsed.
        tag: String,
        /// The named package.
        package_name: String,
        /// The version the tag claims.
        tag_version: Version,
        /// The version the package's manifest records.
        real_version: Version,
    },
    /// The tag is present but matches neither a known package-prefixed
    /// form nor a bare-version unified form.
    NoTagMatch {
        /// The tag that was being parsed.
        tag: String,
    },
}

impl View for TagError {
    type V = TagErrorView;

    open spec fn view(&self) -> TagErrorView {
        match self {
            TagError::TagVersionParse { tag, .. } => TagErrorView::TagVersionParse { tag: tag@ },
            TagError::ContradictoryTagVersion { tag, package_name, tag_version, real_version } => {
                TagErrorView::ContradictoryTagVersion {
                    tag: tag@,
                    package_name: package_name@,
                    tag_version: tag_version@,
                    real_version: real_version@,
                }
            },
            TagError::NoTagMatch { tag } => TagErrorView::NoTagMatch { tag: tag@ },
        }
    }
}

/// Result type of tag parsing.
pub type TagResult<T> = Result<T, TagError>;

} // verus!
