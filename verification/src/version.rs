//! The library's own model of a semantic version.
//!
//! Version syntax parsing is delegated to the `semver` crate; the parsed
//! components are carried in [`Version`], a plain-data type that contracts
//! can speak about. What the parser returns for a given string is named by
//! the uninterpreted function [`semver_parse`].

use vstd::prelude::*;

verus! {

/// Mathematical value of a [`Version`]: the five components as plain values.
pub ghost struct VersionView {
    pub major: u64,
    pub minor: u64,
    pub patch: u64,
    pub pre: Seq<char>,
    pub build: Seq<char>,
}

/// A parsed semantic version: numeric components plus the pre-release and
/// build-metadata identifiers (empty strings when absent).
#[derive(Debug)]
pub struct Version {
    /// Major version number.
    pub major: u64,
    /// Minor version number.
    pub minor: u64,
    /// Patch version number.
    pub patch: u64,
    /// Pre-release identifier (what follows `-`), empty if none.
    pub pre: String,
    /// Build metadata (what follows `+`), empty if none.
    pub build: String,
}

impl View for Version {
    type V = VersionView;

    open spec fn view(&self) -> VersionView {
        VersionView {
            major: self.major,
            minor: self.minor,
            patch: self.patch,
            pre: self.pre@,
            build: self.build@,
        }
    }
}

impl DeepView for Version {
    type V = VersionView;

    open spec fn deep_view(&self) -> VersionView {
        self.view()
    }
}

impl Version {
    /// A version with the given numeric components and no pre-release or
    /// build metadata.
    pub fn new(major: u64, minor: u64, patch: u64) -> (v: Version)
        ensures
            v@ == (VersionView { major, minor, patch, pre: Seq::<char>::empty(), build: Seq::<char>::empty() }),
    {
        let v = Version { major, minor, patch, pre: String::new(), build: String::new() };
        proof {
            assert(v@.pre =~= Seq::<char>::empty());
            assert(v@.build =~= Seq::<char>::empty());
        }
        v
    }

    /// Whether this version carries a pre-release component.
    pub fn is_prerelease(&self) -> (b: bool)
        ensures
            b == (self@.pre.len() > 0),
    {
        !self.pre.as_str().is_empty()
    }
}

impl Clone for Version {
    fn clone(&self) -> (r: Self)
        ensures
            r@ == self@,
    {
        Version {
            major: self.major,
            minor: self.minor,
            patch: self.patch,
            pre: self.pre.clone(),
            build: self.build.clone(),
        }
    }
}

impl PartialEq for Version {
    fn eq(&self, other: &Version) -> (r: bool) {
        self.major == other.major && self.minor == other.minor && self.patch == other.patch
            && self.pre == other.pre && self.build == other.build
    }
}

impl vstd::std_specs::cmp::PartialEqSpecImpl for Version {
    open spec fn obeys_eq_spec() -> bool {
        true
    }

    open spec fn eq_spec(&self, other: &Version) -> bool {
        self@ == other@
    }
}

/// What `semver`'s parser returns for a given string: `Some` exactly on the
/// strings that are syntactically valid semantic versions, with the parsed
/// components; `None` on all others. The outcome depends on the string alone.
pub uninterp spec fn semver_parse(s: Seq<char>) -> Option<VersionView>;

/// Relies on `semver::Version`'s `FromStr` impl: it parses a semantic
/// version into major/minor/patch numbers and pre-release and build
/// identifiers, or reports a diagnostic; the outcome is a function of the
/// input string alone.
#[verifier::external_body]
pub(crate) fn parse_semver_str(s: &str) -> (r: Result<Version, String>)
    ensures
        r is Ok <==> semver_parse(s@) is Some,
        r matches Ok(v) ==> semver_parse(s@) == Some(v@),
{
    match s.parse::<semver::Version>() {
        Ok(v) => Ok(Version {
            major: v.major,
            minor: v.minor,
            patch: v.patch,
            pre: v.pre.as_str().to_owned(),
            build: v.build.as_str().to_owned(),
        }),
        Err(e) => Err(e.to_string()),
    }
}

} // verus!
