use axotag::errors::TagError;
use axotag::{parse_tag, Package, PackageIdx, PartialAnnouncementTag, Version};

fn pkg(name: &str) -> Package {
    Package { name: name.to_string(), version: None }
}

fn pkg_with_version(name: &str, major: u64, minor: u64, patch: u64) -> Package {
    Package { name: name.to_string(), version: Some(Version::new(major, minor, patch)) }
}

fn assert_same_outcome(
    a: &Result<PartialAnnouncementTag, TagError>,
    b: &Result<PartialAnnouncementTag, TagError>,
) {
    match (a, b) {
        (Ok(x), Ok(y)) => {
            assert_eq!(x.tag, y.tag);
            assert_eq!(x.version, y.version);
            assert_eq!(x.package, y.package);
            assert_eq!(x.prerelease, y.prerelease);
        }
        (Err(TagError::TagVersionParse { tag: t1, .. }), Err(TagError::TagVersionParse { tag: t2, .. })) => {
            assert_eq!(t1, t2);
        }
        (
            Err(TagError::ContradictoryTagVersion {
                tag: t1,
                package_name: n1,
                tag_version: tv1,
                real_version: rv1,
            }),
            Err(TagError::ContradictoryTagVersion {
                tag: t2,
                package_name: n2,
                tag_version: tv2,
                real_version: rv2,
            }),
        ) => {
            assert_eq!(t1, t2);
            assert_eq!(n1, n2);
            assert_eq!(tv1, tv2);
            assert_eq!(rv1, rv2);
        }
        (Err(TagError::NoTagMatch { tag: t1 }), Err(TagError::NoTagMatch { tag: t2 })) => {
            assert_eq!(t1, t2);
        }
        _ => panic!("outcomes differ in kind"),
    }
}

#[test]
fn absent_tag_yields_default() {
    let empty: Vec<Package> = vec![];
    let out = parse_tag(&empty, None).unwrap();
    assert_eq!(out.tag, None);
    assert_eq!(out.version, None);
    assert_eq!(out.package, None);
    assert!(!out.prerelease);

    let catalogue = vec![pkg("my-app"), pkg_with_version("other", 3, 2, 1)];
    let out = parse_tag(&catalogue, None).unwrap();
    assert_eq!(out.tag, None);
    assert_eq!(out.version, None);
    assert_eq!(out.package, None);
    assert!(!out.prerelease);
}

#[test]
fn bare_version_with_v_prefix() {
    let empty: Vec<Package> = vec![];
    let out = parse_tag(&empty, Some("v1.2.3")).unwrap();
    assert_eq!(out.tag, Some("v1.2.3".to_string()));
    assert_eq!(out.version, Some(Version::new(1, 2, 3)));
    assert_eq!(out.package, None);
    assert!(!out.prerelease);
}

#[test]
fn bare_version_prerelease_flag() {
    let empty: Vec<Package> = vec![];
    let out = parse_tag(&empty, Some("v1.2.3-beta.1")).unwrap();
    let version = out.version.unwrap();
    assert_eq!(version.major, 1);
    assert_eq!(version.minor, 2);
    assert_eq!(version.patch, 3);
    assert_eq!(version.pre, "beta.1");
    assert_eq!(out.package, None);
    assert!(out.prerelease);
}

#[test]
fn numeric_components_parsed_exactly() {
    let empty: Vec<Package> = vec![];
    let out = parse_tag(&empty, Some("10.20.30+build.5")).unwrap();
    let version = out.version.unwrap();
    assert_eq!(version.major, 10);
    assert_eq!(version.minor, 20);
    assert_eq!(version.patch, 30);
    assert_eq!(version.pre, "");
    assert_eq!(version.build, "build.5");
    assert!(!out.prerelease);
}

#[test]
fn longest_prefix_wins() {
    let catalogue = vec![pkg("my-app"), pkg("my-app-helper")];
    let out = parse_tag(&catalogue, Some("my-app-helper-v2.0.0")).unwrap();
    assert_eq!(out.package, Some(PackageIdx(1)));
    assert_eq!(out.version, None);
    assert_eq!(out.tag, Some("my-app-helper-v2.0.0".to_string()));
    assert!(!out.prerelease);
}

#[test]
fn package_with_matching_recorded_version() {
    let catalogue = vec![pkg_with_version("my-app", 1, 0, 0)];
    let out = parse_tag(&catalogue, Some("my-app-v1.0.0")).unwrap();
    assert_eq!(out.package, Some(PackageIdx(0)));
    assert_eq!(out.version, None);
    assert!(!out.prerelease);
}

#[test]
fn contradictory_tag_version() {
    let catalogue = vec![pkg_with_version("my-app", 1, 0, 0)];
    let err = parse_tag(&catalogue, Some("my-app-v2.0.0")).unwrap_err();
    match err {
        TagError::ContradictoryTagVersion { tag, package_name, tag_version, real_version } => {
            assert_eq!(tag, "my-app-v2.0.0");
            assert_eq!(package_name, "my-app");
            assert_eq!(tag_version, Version::new(2, 0, 0));
            assert_eq!(real_version, Version::new(1, 0, 0));
        }
        other => panic!("expected ContradictoryTagVersion, got {:?}", other),
    }
}

#[test]
fn slash_form_resolves_middle_component() {
    let catalogue = vec![pkg_with_version("my-app", 1, 0, 0)];
    let out = parse_tag(&catalogue, Some("release/my-app/v1.0.0")).unwrap();
    assert_eq!(out.package, Some(PackageIdx(0)));
    assert_eq!(out.version, None);
    assert_eq!(out.tag, Some("release/my-app/v1.0.0".to_string()));
    assert!(!out.prerelease);
}

#[test]
fn slash_form_with_unknown_prefix_is_unified() {
    let empty: Vec<Package> = vec![];
    let out = parse_tag(&empty, Some("foo/v1.0.0")).unwrap();
    assert_eq!(out.package, None);
    assert_eq!(out.version, Some(Version::new(1, 0, 0)));
}

#[test]
fn slash_form_partial_match_falls_through() {
    let catalogue = vec![pkg("my-app")];
    let out = parse_tag(&catalogue, Some("releases/my-app-extra/v3.0.0")).unwrap();
    assert_eq!(out.package, None);
    assert_eq!(out.version, Some(Version::new(3, 0, 0)));
}

#[test]
fn dash_form_without_v_prefix() {
    let catalogue = vec![pkg("my-app")];
    let out = parse_tag(&catalogue, Some("my-app-1.2.3")).unwrap();
    assert_eq!(out.package, Some(PackageIdx(0)));
    assert_eq!(out.version, None);
}

#[test]
fn package_name_not_followed_by_dash_is_not_a_match() {
    let catalogue = vec![pkg("my-app")];
    let err = parse_tag(&catalogue, Some("my-appv1.2.3")).unwrap_err();
    match err {
        TagError::TagVersionParse { tag, .. } => assert_eq!(tag, "my-appv1.2.3"),
        other => panic!("expected TagVersionParse, got {:?}", other),
    }
}

#[test]
fn prerelease_recorded_version_agrees() {
    let recorded = Version {
        major: 1,
        minor: 0,
        patch: 0,
        pre: "rc.1".to_string(),
        build: String::new(),
    };
    let catalogue = vec![Package { name: "my-app".to_string(), version: Some(recorded) }];
    let out = parse_tag(&catalogue, Some("my-app-v1.0.0-rc.1")).unwrap();
    assert_eq!(out.package, Some(PackageIdx(0)));
    assert!(out.prerelease);
}

#[test]
fn version_parse_error() {
    let empty: Vec<Package> = vec![];
    let err = parse_tag(&empty, Some("not-a-version")).unwrap_err();
    match err {
        TagError::TagVersionParse { tag, .. } => assert_eq!(tag, "not-a-version"),
        other => panic!("expected TagVersionParse, got {:?}", other),
    }
}

#[test]
fn empty_present_tag_is_a_parse_error() {
    let empty: Vec<Package> = vec![];
    let err = parse_tag(&empty, Some("")).unwrap_err();
    match err {
        TagError::TagVersionParse { tag, .. } => assert_eq!(tag, ""),
        other => panic!("expected TagVersionParse, got {:?}", other),
    }
}

#[test]
fn rerun_is_idempotent_on_success() {
    let catalogue = vec![pkg("my-app"), pkg_with_version("my-app-helper", 2, 0, 0)];
    let first = parse_tag(&catalogue, Some("my-app-helper-v2.0.0"));
    let second = parse_tag(&catalogue, Some("my-app-helper-v2.0.0"));
    assert_same_outcome(&first, &second);
}

#[test]
fn rerun_is_idempotent_on_error() {
    let catalogue = vec![pkg_with_version("my-app", 1, 0, 0)];
    let first = parse_tag(&catalogue, Some("my-app-v2.0.0"));
    let second = parse_tag(&catalogue, Some("my-app-v2.0.0"));
    assert_same_outcome(&first, &second);
}

#[test]
fn matcher_returns_longest_name_and_remainder() {
    let catalogue = vec![pkg("my-app"), pkg("my-app-helper")];
    let (idx, rest) = axotag::strip_prefix_package("my-app-helper-v2.0.0", &catalogue).unwrap();
    assert_eq!(idx, PackageIdx(1));
    assert_eq!(rest, "-v2.0.0");

    let (idx, rest) = axotag::strip_prefix_package("my-app-v2.0.0", &catalogue).unwrap();
    assert_eq!(idx, PackageIdx(0));
    assert_eq!(rest, "-v2.0.0");

    assert!(axotag::strip_prefix_package("other-v1.0.0", &catalogue).is_none());
}

#[test]
fn matcher_tie_break_takes_first_entry() {
    let catalogue = vec![pkg("aa"), pkg("ab"), pkg("aa")];
    let (idx, rest) = axotag::strip_prefix_package("aa-v1.0.0", &catalogue).unwrap();
    assert_eq!(idx, PackageIdx(0));
    assert_eq!(rest, "-v1.0.0");
}

#[test]
fn unknown_package_prefix_falls_to_parse_error() {
    let empty: Vec<Package> = vec![];
    let err = parse_tag(&empty, Some("my-app-v1.0.0")).unwrap_err();
    match err {
        TagError::TagVersionParse { tag, .. } => assert_eq!(tag, "my-app-v1.0.0"),
        other => panic!("expected TagVersionParse, got {:?}", other),
    }
}
