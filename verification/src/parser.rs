//! The tag parser: from an optional tag string and the catalogue to an
//! announcement, or a typed error.
//!
//! A present tag is examined in one pass: a slash-delimited form first,
//! then a dash-delimited form, then a `v` prefix is stripped and the rest
//! is parsed as a semantic version. A package named by the tag must agree
//! with its recorded version, if it has one.

use vstd::prelude::*;

use crate::errors::{TagError, TagErrorView, TagResult};
use crate::matcher::{spec_strip_prefix, strip_prefix_package};
use crate::package::{Package, PackageView};
use crate::version::{semver_parse, Version, VersionView};
use crate::PackageIdx;

verus! {

/// Details on what is being announced (partially computed): the raw tag
/// echoed back, the unified version (when announcing the whole workspace),
/// the announcing package (when announcing a single package), and whether
/// the announcement is a prerelease. `version` and `package` are never
/// both set.
#[derive(Debug)]
pub struct PartialAnnouncementTag {
    /// The full tag, as given.
    pub tag: Option<String>,
    /// The version being announced, if doing a unified announcement.
    pub version: Option<Version>,
    /// The package being announced, if doing a single-package announcement.
    pub package: Option<PackageIdx>,
    /// Whether a prerelease is being announced.
    pub prerelease: bool,
}

/// Mathematical value of a [`PartialAnnouncementTag`].
pub ghost struct AnnouncementView {
    pub tag: Option<Seq<char>>,
    pub version: Option<VersionView>,
    pub package: Option<int>,
    pub prerelease: bool,
}

/// Mathematical value of an optional package identifier.
pub open spec fn idx_view(p: Option<PackageIdx>) -> Option<int> {
    match p {
        Some(idx) => Some(idx.0 as int),
        None => None,
    }
}

impl View for PartialAnnouncementTag {
    type V = AnnouncementView;

    open spec fn view(&self) -> AnnouncementView {
        AnnouncementView {
            tag: self.tag.deep_view(),
            version: self.version.deep_view(),
            package: idx_view(self.package),
            prerelease: self.prerelease,
        }
    }
}

/// The all-default announcement: what an absent tag produces.
pub open spec fn spec_default_announcement() -> AnnouncementView {
    AnnouncementView { tag: None, version: None, package: None, prerelease: false }
}

/// `i` is the position of the last occurrence of `c` in `s`.
pub open spec fn is_last_index_of(s: Seq<char>, c: char, i: int) -> bool {
    &&& 0 <= i < s.len()
    &&& s[i] == c
    &&& forall|j: int| i < j < s.len() ==> s[j] != c
}

/// The position of the last occurrence of `c` in `s`, if any.
pub open spec fn spec_last_index_of(s: Seq<char>, c: char) -> Option<int> {
    if exists|i: int| is_last_index_of(s, c, i) {
        Some(choose|i: int| is_last_index_of(s, c, i))
    } else {
        None
    }
}

pub(crate) proof fn lemma_last_index_of_some(s: Seq<char>, c: char, i: int)
    requires
        is_last_index_of(s, c, i),
    ensures
        spec_last_index_of(s, c) == Some(i),
{
    assert(exists|k: int| is_last_index_of(s, c, k));
    let k = choose|k: int| is_last_index_of(s, c, k);
    if k < i {
        assert(s[i] == c);
        assert(false);
    }
    if i < k {
        assert(s[k] == c);
        assert(false);
    }
}

pub(crate) proof fn lemma_last_index_of_none(s: Seq<char>, c: char)
    requires
        forall|j: int| 0 <= j < s.len() ==> s[j] != c,
    ensures
        spec_last_index_of(s, c) is None,
{
    if exists|k: int| is_last_index_of(s, c, k) {
        let k = choose|k: int| is_last_index_of(s, c, k);
        assert(s[k] == c);
        assert(false);
    }
}

/// Slash form: if the tag contains a `/`, split at the last one; the
/// candidate package-name segment is the component after the previous `/`
/// (or the whole prefix). The package is set only when its name consumes
/// the entire candidate segment. The suffix becomes the working remainder
/// either way.
pub open spec fn spec_slash_step(cat: Seq<PackageView>, t: Seq<char>) -> (Option<int>, Seq<char>) {
    match spec_last_index_of(t, '/') {
        Some(k) => {
            let prefix = t.take(k);
            let suffix = t.skip(k + 1);
            let cand = match spec_last_index_of(prefix, '/') {
                Some(j) => prefix.skip(j + 1),
                None => prefix,
            };
            let pkg = match spec_strip_prefix(cand, cat) {
                Some((i, rest)) => if rest.len() == 0 {
                    Some(i)
                } else {
                    None
                },
                None => None,
            };
            (pkg, suffix)
        },
        None => (None, t),
    }
}

/// Dash form: a matched package name must be followed by a dash; the text
/// after the dash becomes the working remainder.
pub open spec fn spec_dash_step(cat: Seq<PackageView>, work: Seq<char>) -> (
    Option<int>,
    Seq<char>,
) {
    match spec_strip_prefix(work, cat) {
        Some((i, rest)) => if rest.len() > 0 && rest[0] == '-' {
            (Some(i), rest.skip(1))
        } else {
            (None, work)
        },
        None => (None, work),
    }
}

/// Strip exactly one leading `v`, if present.
pub open spec fn spec_strip_v(work: Seq<char>) -> Seq<char> {
    if work.len() > 0 && work[0] == 'v' {
        work.skip(1)
    } else {
        work
    }
}

/// Consistency check for a package-scoped announcement: a recorded version
/// that differs from the version parsed out of the tag is a contradiction.
pub open spec fn spec_check_consistency(
    cat: Seq<PackageView>,
    t: Seq<char>,
    i: int,
    v: VersionView,
) -> Result<AnnouncementView, TagErrorView> {
    if cat[i].version is Some && cat[i].version.unwrap() != v {
        Err(
            TagErrorView::ContradictoryTagVersion {
                tag: t,
                package_name: cat[i].name,
                tag_version: v,
                real_version: cat[i].version.unwrap(),
            },
        )
    } else {
        Ok(
            AnnouncementView {
                tag: Some(t),
                version: None,
                package: Some(i),
                prerelease: v.pre.len() > 0,
            },
        )
    }
}

/// What parsing a present tag yields: the slash form, then (if no package
/// was found) the dash form, then the `v` strip, then the version parse,
/// then the consistency check.
pub open spec fn spec_parse_present_tag(cat: Seq<PackageView>, t: Seq<char>) -> Result<
    AnnouncementView,
    TagErrorView,
> {
    let step1 = spec_slash_step(cat, t);
    let step2 = if step1.0 is None {
        spec_dash_step(cat, step1.1)
    } else {
        step1
    };
    let work = spec_strip_v(step2.1);
    match semver_parse(work) {
        None => Err(TagErrorView::TagVersionParse { tag: t }),
        Some(v) => match step2.0 {
            Some(i) => spec_check_consistency(cat, t, i, v),
            None => Ok(
                AnnouncementView {
                    tag: Some(t),
                    version: Some(v),
                    package: None,
                    prerelease: v.pre.len() > 0,
                },
            ),
        },
    }
}

/// What tag parsing yields: an absent tag produces the all-default
/// announcement; a present one is parsed.
pub open spec fn spec_parse_tag(cat: Seq<PackageView>, tag: Option<Seq<char>>) -> Result<
    AnnouncementView,
    TagErrorView,
> {
    match tag {
        None => Ok(spec_default_announcement()),
        Some(t) => spec_parse_present_tag(cat, t),
    }
}

/// The position of the last occurrence of `c` in `s`, found by scanning.
pub(crate) fn find_last_char(s: &str, c: char) -> (r: Option<usize>)
    ensures
        spec_last_index_of(s@, c) == (match r {
            Some(i) => Some(i as int),
            None => None::<int>,
        }),
        r matches Some(i) ==> i < s@.len(),
{
    let n = s.unicode_len();
    let mut i: usize = 0;
    let mut last: Option<usize> = None;
    while i < n
        invariant
            i <= n,
            n == s@.len(),
            match last {
                Some(k) => k < i && s@[k as int] == c && (forall|j: int|
                    k < j < i ==> s@[j] != c),
                None => forall|j: int| 0 <= j < i ==> s@[j] != c,
            },
        decreases n - i,
    {
        if s.get_char(i) == c {
            last = Some(i);
        }
        i += 1;
    }
    proof {
        if let Some(k) = last {
            lemma_last_index_of_some(s@, c, k as int);
        } else {
            lemma_last_index_of_none(s@, c);
        }
    }
    last
}

/// Parse a release tag against the package catalogue.
///
/// An absent tag yields the default announcement, to be filled in by later
/// inference. A present tag yields either a single-package announcement or
/// a unified-version announcement, or fails with a typed error.
pub fn parse_tag(packages: &Vec<Package>, tag: Option<&str>) -> (r: TagResult<
    PartialAnnouncementTag,
>)
    ensures
        ({
            let m = spec_parse_tag(packages.deep_view(), tag.deep_view());
            match r {
                Ok(out) => m matches Ok(a) && out@ == a,
                Err(e) => m matches Err(ev) && e@ == ev,
            }
        }),
{
    match tag {
        None => Ok(
            PartialAnnouncementTag { tag: None, version: None, package: None, prerelease: false },
        ),
        Some(t) => parse_present_tag(packages, t),
    }
}

fn parse_present_tag(packages: &Vec<Package>, t: &str) -> (r: TagResult<PartialAnnouncementTag>)
    ensures
        ({
            let m = spec_parse_present_tag(packages.deep_view(), t@);
            match r {
                Ok(out) => m matches Ok(a) && out@ == a,
                Err(e) => m matches Err(ev) && e@ == ev,
            }
        }),
{
    let ghost cat = packages.deep_view();
    let ghost step1 = spec_slash_step(cat, t@);
    let tlen = t.unicode_len();
    let mut announcing_package: Option<PackageIdx> = None;
    let mut tag_suffix: &str = t;

    // Slash form: split at the last `/`, try the component before it as a
    // package name, and carry the suffix on as the working remainder.
    match find_last_char(t, '/') {
        Some(k) => {
            let prefix = t.substring_char(0, k);
            let suffix = t.substring_char(k + 1, tlen);
            let plen = prefix.unicode_len();
            let cand = match find_last_char(prefix, '/') {
                Some(j) => prefix.substring_char(j + 1, plen),
                None => prefix,
            };
            match strip_prefix_package(cand, packages) {
                Some((idx, rest)) => {
                    if rest.unicode_len() == 0 {
                        announcing_package = Some(idx);
                        proof {
                            crate::matcher::lemma_strip_prefix_longest(cand@, cat);
                        }
                    }
                },
                None => {},
            }
            tag_suffix = suffix;
        },
        None => {},
    }
    proof {
        assert(idx_view(announcing_package) == step1.0);
        assert(tag_suffix@ == step1.1);
        assert(announcing_package matches Some(idx) ==> (idx.0 as int) < cat.len());
    }

    // Dash form: only when the slash form named no package. The matched
    // name must be followed by a dash.
    let ghost step2 = if step1.0 is None {
        spec_dash_step(cat, step1.1)
    } else {
        step1
    };
    if announcing_package.is_none() {
        match strip_prefix_package(tag_suffix, packages) {
            Some((idx, rest)) => {
                let rlen = rest.unicode_len();
                if rlen > 0 && rest.get_char(0) == '-' {
                    tag_suffix = rest.substring_char(1, rlen);
                    announcing_package = Some(idx);
                    proof {
                        crate::matcher::lemma_strip_prefix_longest(step1.1, cat);
                    }
                }
            },
            None => {},
        }
    }
    proof {
        assert(idx_view(announcing_package) == step2.0);
        assert(tag_suffix@ == step2.1);
        assert(announcing_package matches Some(idx) ==> (idx.0 as int) < cat.len());
    }

    // Strip exactly one leading `v` off the working remainder.
    let slen = tag_suffix.unicode_len();
    if slen > 0 && tag_suffix.get_char(0) == 'v' {
        tag_suffix = tag_suffix.substring_char(1, slen);
    }
    proof {
        assert(tag_suffix@ == spec_strip_v(step2.1));
    }

    // Parse the working remainder as a semantic version.
    let version = match crate::version::parse_semver_str(tag_suffix) {
        Ok(version) => version,
        Err(details) => {
            return Err(TagError::TagVersionParse { tag: t.to_owned(), details });
        },
    };
    let announcing_prerelease = version.is_prerelease();
    let mut announcing_version: Option<Version> = None;

    match announcing_package {
        Some(idx) => {
            // The tag names a package: its recorded version, if any, must
            // agree with the version parsed from the tag.
            let package = &packages[idx.0];
            if let Some(real_version) = &package.version {
                if !(*real_version == version) {
                    return Err(
                        TagError::ContradictoryTagVersion {
                            tag: t.to_owned(),
                            package_name: package.name.clone(),
                            tag_version: version,
                            real_version: real_version.clone(),
                        },
                    );
                }
            }
        },
        None => {
            // No package named: this is a unified release.
            announcing_version = Some(version);
        },
    }

    // Defensive guard: with a tag present, one of the two must be set.
    if announcing_package.is_none() && announcing_version.is_none() {
        return Err(TagError::NoTagMatch { tag: t.to_owned() });
    }
    Ok(
        PartialAnnouncementTag {
            tag: Some(t.to_owned()),
            prerelease: announcing_prerelease,
            version: announcing_version,
            package: announcing_package,
        },
    )
}

} // verus!
