//! Laws of the tag parser, proved once and for all inputs.
//!
//! The longest-prefix law of the matcher is stated beside the matcher
//! itself, as [`crate::matcher::lemma_strip_prefix_longest`].

use vstd::prelude::*;

use crate::errors::TagErrorView;
use crate::package::PackageView;
use crate::parser::{
    lemma_last_index_of_none, spec_default_announcement, spec_parse_tag, AnnouncementView,
};
use crate::version::{semver_parse, VersionView};

verus! {

/// An absent tag yields the all-default announcement — no echoed tag, no
/// version, no package, not a prerelease — whatever the catalogue holds.
pub proof fn lemma_absent_tag_default(cat: Seq<PackageView>)
    ensures
        spec_parse_tag(cat, None) == Ok::<AnnouncementView, TagErrorView>(
            spec_default_announcement(),
        ),
{
}

/// With an empty catalogue, a tag made of `v` followed by a valid semantic
/// version announces that version as a unified release: it names no
/// package, echoes the tag, and flags a prerelease exactly when the
/// version carries a pre-release component.
///
/// A valid semantic version is made of ASCII alphanumerics, `-`, `+` and
/// `.` alone, so the hypothesis that the version string contains no `/`
/// excludes nothing.
pub proof fn lemma_bare_version_tag(cat: Seq<PackageView>, s: Seq<char>, v: VersionView)
    requires
        cat.len() == 0,
        semver_parse(s) == Some(v),
        !s.contains('/'),
    ensures
        spec_parse_tag(cat, Some(seq!['v'].add(s))) == Ok::<AnnouncementView, TagErrorView>(
            AnnouncementView {
                tag: Some(seq!['v'].add(s)),
                version: Some(v),
                package: None,
                prerelease: v.pre.len() > 0,
            },
        ),
{
    let t = seq!['v'].add(s);
    assert forall|j: int| 0 <= j < t.len() implies t[j] != '/' by {
        if j == 0 {
            assert(t[0] == 'v');
        } else {
            assert(t[j] == s[j - 1]);
            if s[j - 1] == '/' {
                assert(s.contains('/'));
            }
        }
    }
    lemma_last_index_of_none(t, '/');
    assert(crate::matcher::spec_strip_prefix(t, cat) is None);
    assert(t.skip(1) =~= s);
}

/// Parsing is a pure function of the tag and the catalogue: any two
/// results that parsing may produce for the same inputs are identical.
pub proof fn lemma_parse_tag_deterministic(
    cat: Seq<PackageView>,
    tag: Option<Seq<char>>,
    r1: Result<AnnouncementView, TagErrorView>,
    r2: Result<AnnouncementView, TagErrorView>,
)
    requires
        r1 == spec_parse_tag(cat, tag),
        r2 == spec_parse_tag(cat, tag),
    ensures
        r1 == r2,
{
}

/// A successful parse never sets both the announcing package and the
/// unified version; with a tag present, it sets exactly one of them; and
/// it always echoes the tag it was given.
pub proof fn lemma_package_version_exclusive(cat: Seq<PackageView>, tag: Option<Seq<char>>)
    ensures
        spec_parse_tag(cat, tag) matches Ok(a) ==> !(a.package is Some && a.version is Some),
        tag is Some ==> (spec_parse_tag(cat, tag) matches Ok(a) ==> (a.package is Some
            <==> a.version is None)),
        spec_parse_tag(cat, tag) matches Ok(a) ==> a.tag == tag,
{
}

/// The no-match error is a defensive guard only: parsing never actually
/// produces it. A present tag either fails the version parse, fails the
/// consistency check, or announces something.
pub proof fn lemma_no_tag_match_unreachable(cat: Seq<PackageView>, tag: Option<Seq<char>>)
    ensures
        !(spec_parse_tag(cat, tag) matches Err(e) && e is NoTagMatch),
{
}

} // verus!
