//! Longest-prefix package-name matching.
//!
//! Given a candidate string and the catalogue, find the package whose name
//! is a prefix of the candidate, preferring the one that leaves the
//! shortest remainder (equivalently, the longest matching name). Among
//! names of equal length the entry with the smallest index wins.

use vstd::prelude::*;

use crate::package::{Package, PackageView};
use crate::PackageIdx;

verus! {

/// `p` is a prefix of `s`.
pub open spec fn is_prefix_of(p: Seq<char>, s: Seq<char>) -> bool {
    p.len() <= s.len() && p == s.take(p.len() as int)
}

/// Running state of the matching scan: the best match over catalogue
/// entries `0..i`, as (index, remainder after the name).
pub open spec fn match_from(
    input: Seq<char>,
    cat: Seq<PackageView>,
    i: int,
    best: Option<(int, Seq<char>)>,
) -> Option<(int, Seq<char>)>
    decreases cat.len() - i,
{
    if i < 0 || i >= cat.len() {
        best
    } else {
        let next = if is_prefix_of(cat[i].name, input) {
            let rest = input.skip(cat[i].name.len() as int);
            match best {
                Some((b_idx, b_rest)) => if b_rest.len() <= rest.len() {
                    best
                } else {
                    Some((i, rest))
                },
                None => Some((i, rest)),
            }
        } else {
            best
        };
        match_from(input, cat, i + 1, next)
    }
}

/// The longest-prefix match of `input` against the whole catalogue.
pub open spec fn spec_strip_prefix(input: Seq<char>, cat: Seq<PackageView>) -> Option<
    (int, Seq<char>),
> {
    match_from(input, cat, 0, None)
}

/// What a correct best-so-far over entries `0..i` looks like: the match is
/// real, its remainder is what follows the name, no entry below `i` has a
/// longer matching name, and no entry below the match has one as long.
pub open spec fn match_state_ok(
    input: Seq<char>,
    cat: Seq<PackageView>,
    i: int,
    best: Option<(int, Seq<char>)>,
) -> bool {
    match best {
        Some((b, rest)) => {
            &&& 0 <= b < i
            &&& is_prefix_of(cat[b].name, input)
            &&& rest == input.skip(cat[b].name.len() as int)
            &&& forall|j: int|
                0 <= j < i && #[trigger] is_prefix_of(cat[j].name, input) ==> cat[j].name.len()
                    <= cat[b].name.len()
            &&& forall|j: int|
                0 <= j < b && #[trigger] is_prefix_of(cat[j].name, input) ==> cat[j].name.len()
                    < cat[b].name.len()
        },
        None => forall|j: int| 0 <= j < i ==> !(#[trigger] is_prefix_of(cat[j].name, input)),
    }
}

proof fn lemma_match_from_preserves(
    input: Seq<char>,
    cat: Seq<PackageView>,
    i: int,
    best: Option<(int, Seq<char>)>,
)
    requires
        0 <= i <= cat.len(),
        match_state_ok(input, cat, i, best),
    ensures
        match_state_ok(input, cat, cat.len() as int, match_from(input, cat, i, best)),
    decreases cat.len() - i,
{
    if i < cat.len() {
        let next = if is_prefix_of(cat[i].name, input) {
            let rest = input.skip(cat[i].name.len() as int);
            match best {
                Some((b_idx, b_rest)) => if b_rest.len() <= rest.len() {
                    best
                } else {
                    Some((i, rest))
                },
                None => Some((i, rest)),
            }
        } else {
            best
        };
        assert(match_state_ok(input, cat, i + 1, next));
        lemma_match_from_preserves(input, cat, i + 1, next);
    }
}

/// The longest-prefix law: when the matcher returns a match, its name is a
/// prefix of the input, the remainder is exactly what follows that name, no
/// catalogue entry has a strictly longer matching name, and the match is
/// the first entry whose name reaches that length. When it returns nothing,
/// no catalogue entry's name is a prefix of the input.
pub proof fn lemma_strip_prefix_longest(input: Seq<char>, cat: Seq<PackageView>)
    ensures
        match spec_strip_prefix(input, cat) {
            Some((b, rest)) => {
                &&& 0 <= b < cat.len()
                &&& is_prefix_of(cat[b].name, input)
                &&& rest == input.skip(cat[b].name.len() as int)
                &&& forall|j: int|
                    0 <= j < cat.len() && #[trigger] is_prefix_of(cat[j].name, input)
                        ==> cat[j].name.len() <= cat[b].name.len()
                &&& forall|j: int|
                    0 <= j < b && #[trigger] is_prefix_of(cat[j].name, input) ==> cat[j].name.len()
                        < cat[b].name.len()
            },
            None => forall|j: int|
                0 <= j < cat.len() ==> !(#[trigger] is_prefix_of(cat[j].name, input)),
        },
{
    lemma_match_from_preserves(input, cat, 0, None);
}

/// Mathematical value of an in-progress match result.
pub open spec fn match_result_view(r: Option<(PackageIdx, &str)>) -> Option<(int, Seq<char>)> {
    match r {
        Some((idx, rest)) => Some((idx.0 as int, rest@)),
        None => None,
    }
}

/// `p` is a prefix of `s`, decided character by character.
pub(crate) fn str_is_prefix(p: &str, s: &str) -> (b: bool)
    ensures
        b == is_prefix_of(p@, s@),
{
    let pl = p.unicode_len();
    let sl = s.unicode_len();
    if pl > sl {
        return false;
    }
    let mut i: usize = 0;
    while i < pl
        invariant
            i <= pl,
            pl == p@.len(),
            sl == s@.len(),
            pl <= sl,
            forall|j: int| 0 <= j < i ==> p@[j] == s@[j],
        decreases pl - i,
    {
        if p.get_char(i) != s.get_char(i) {
            proof {
                assert(!is_prefix_of(p@, s@)) by {
                    if is_prefix_of(p@, s@) {
                        assert(p@[i as int] == s@.take(pl as int)[i as int]);
                    }
                }
            }
            return false;
        }
        i += 1;
    }
    proof {
        assert(p@ =~= s@.take(pl as int));
    }
    true
}

/// Try to strip a package name off the front of `input`, preferring the
/// longest matching name (so that `my-app-helper` wins over `my-app`
/// against `my-app-helper-v2.0.0`). On a match, returns the package's
/// identifier and the rest of the input after the name.
pub fn strip_prefix_package<'a>(input: &'a str, packages: &Vec<Package>) -> (r: Option<
    (PackageIdx, &'a str),
>)
    ensures
        match_result_view(r) == spec_strip_prefix(input@, packages.deep_view()),
{
    let ghost cat = packages.deep_view();
    let mut result: Option<(PackageIdx, &'a str)> = None;
    let n = packages.len();
    let mut i: usize = 0;
    while i < n
        invariant
            i <= n,
            n == packages.len(),
            cat == packages.deep_view(),
            match_from(input@, cat, i as int, match_result_view(result)) == spec_strip_prefix(
                input@,
                cat,
            ),
        decreases n - i,
    {
        proof {
            assert(cat[i as int] == packages@[i as int].deep_view());
        }
        let package = &packages[i];
        if str_is_prefix(package.name.as_str(), input) {
            let name_len = package.name.as_str().unicode_len();
            let ilen = input.unicode_len();
            let rest = input.substring_char(name_len, ilen);
            proof {
                assert(rest@ == input@.skip(cat[i as int].name.len() as int));
            }
            let replace = match &result {
                Some((_, best_rest)) => best_rest.unicode_len() > rest.unicode_len(),
                None => true,
            };
            if replace {
                result = Some((PackageIdx(i), rest));
            }
        }
        i += 1;
    }
    result
}

} // verus!
