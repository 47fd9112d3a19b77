use release::error::ResolveError;
use release::tags::{
    latest_semver_tag, pick_from_listing, version_of_tag, without_leading_v, TagListing,
};
use release::version::{Precedence, TagVersion};

fn names(list: &[&str]) -> Vec<Option<String>> {
    list.iter().map(|n| Some(n.to_string())).collect()
}

fn precedence(a: &str, b: &str) -> Precedence {
    TagVersion::parse(a).unwrap().precedence(&TagVersion::parse(b).unwrap())
}

#[test]
fn picks_the_highest_version() {
    let pick = latest_semver_tag(&names(&["1.0.0", "1.19.0", "1.5.0"])).unwrap();
    assert_eq!(pick.index, 1);
    assert_eq!(pick.name, "1.19.0");
    assert_eq!(pick.version.major, 1);
    assert_eq!(pick.version.minor, 19);
    assert_eq!(pick.version.patch, 0);
}

#[test]
fn names_that_are_no_versions_are_passed_over() {
    let pick = latest_semver_tag(&names(&["latest", "v0.3.1", "alpha", "0.2.9"])).unwrap();
    assert_eq!(pick.index, 1);
    assert_eq!(pick.version.patch, 1);
    let same = latest_semver_tag(&names(&["v0.3.1", "0.2.9"])).unwrap();
    assert_eq!(same.index, 0);
    assert_eq!(same.version.patch, 1);
}

#[test]
fn a_tag_without_a_short_name_is_passed_over() {
    let list = vec![None, Some("1.0.0".to_string()), None];
    assert_eq!(latest_semver_tag(&list).unwrap().index, 1);
    assert!(latest_semver_tag(&vec![None, None]).is_none());
}

#[test]
fn no_version_among_the_names() {
    assert!(latest_semver_tag(&names(&["latest", "alpha", "1.0"])).is_none());
    assert!(latest_semver_tag(&Vec::new()).is_none());
}

fn listed(list: &[&str], broke_off: Option<&str>) -> TagListing {
    TagListing::Listed { names: names(list), broke_off: broke_off.map(|c| c.to_string()) }
}

#[test]
fn a_listing_without_versions_gives_no_matching_tags() {
    assert!(matches!(pick_from_listing(listed(&[], None)), Err(ResolveError::NoMatchingTags)));
    assert!(matches!(
        pick_from_listing(listed(&["latest"], None)),
        Err(ResolveError::NoMatchingTags)
    ));
}

#[test]
fn a_listing_gives_its_latest_tag() {
    let pick = pick_from_listing(listed(&["latest", "3.0.0", "v3.0.1-rc.1"], None)).unwrap();
    assert_eq!(pick.index, 2);
    assert_eq!(pick.name, "v3.0.1-rc.1");
    assert_eq!((pick.version.major, pick.version.minor, pick.version.patch), (3, 0, 1));
    assert_eq!(pick.version.pre, "rc.1");
}

#[test]
fn a_listing_that_failed_gives_its_failure() {
    match pick_from_listing(TagListing::Unavailable { cause: "no repository".to_string() }) {
        Err(ResolveError::TagsUnavailable { cause }) => assert_eq!(cause, "no repository"),
        _ => panic!("a listing that could not be started gave something else"),
    }
    // What was listed before the failure does not count.
    match pick_from_listing(listed(&["1.0.0", "2.0.0"], Some("corrupt reference"))) {
        Err(ResolveError::TagUnreadable { cause }) => assert_eq!(cause, "corrupt reference"),
        _ => panic!("a listing that broke off gave something else"),
    }
}

#[test]
fn leading_v_makes_no_difference() {
    let plain = version_of_tag("1.2.3").unwrap();
    let prefixed = version_of_tag("v1.2.3").unwrap();
    assert_eq!(plain.precedence(&prefixed), Precedence::Equal);
    assert_eq!(prefixed.precedence(&plain), Precedence::Equal);
    assert_eq!((prefixed.major, prefixed.minor, prefixed.patch), (1, 2, 3));
    assert_eq!(without_leading_v("v1.2.3"), "1.2.3");
    assert_eq!(without_leading_v("1.2.3"), "1.2.3");
    assert_eq!(without_leading_v("vv1"), "v1");
    assert_eq!(without_leading_v(""), "");
    assert_eq!(without_leading_v("V1.2.3"), "V1.2.3");
    assert!(version_of_tag("vv1.2.3").is_none());
    assert!(version_of_tag("V1.2.3").is_none());
}

#[test]
fn among_equals_the_first_is_chosen() {
    assert_eq!(latest_semver_tag(&names(&["1.2.3", "v1.2.3"])).unwrap().index, 0);
    assert_eq!(latest_semver_tag(&names(&["v1.2.3", "1.2.3"])).unwrap().index, 0);
    // Build metadata plays no part in the order.
    let pick = latest_semver_tag(&names(&["0.1.0", "1.0.0+b", "1.0.0+a", "1.0.0"])).unwrap();
    assert_eq!(pick.index, 1);
    assert_eq!(pick.version.build, "b");
}

#[test]
fn a_release_stands_above_its_pre_releases() {
    let pick = latest_semver_tag(&names(&["1.0.0-rc.1", "1.0.0", "1.0.0-beta"])).unwrap();
    assert_eq!(pick.index, 1);
    let pick = latest_semver_tag(&names(&["1.0.0-alpha", "1.0.0-alpha.1", "0.9.9"])).unwrap();
    assert_eq!(pick.index, 1);
    assert_eq!(pick.version.pre, "alpha.1");
}

#[test]
fn parsing_reads_all_five_parts() {
    let v = TagVersion::parse("1.2.3-rc.1+build.5").unwrap();
    assert_eq!((v.major, v.minor, v.patch), (1, 2, 3));
    assert_eq!(v.pre, "rc.1");
    assert_eq!(v.build, "build.5");
    let plain = TagVersion::parse("10.20.30").unwrap();
    assert_eq!((plain.major, plain.minor, plain.patch), (10, 20, 30));
    assert_eq!(plain.pre, "");
    assert_eq!(plain.build, "");
}

#[test]
fn parsing_is_strict() {
    for text in ["", "1", "1.0", "1.0.01", "1.0.unknown", "1.0.0-", "1.0.0+", "1.0.0-alpha_123",
        "23456789999999999999.0.0", " 1.0.0", "1.0.0 ", "v1.0.0", "1.0.0-01"]
    {
        assert!(TagVersion::parse(text).is_none(), "{text:?} was read as a version");
    }
    assert_eq!(TagVersion::parse("18446744073709551615.0.0").unwrap().major, u64::MAX);
}

#[test]
fn numbers_are_compared_as_numbers() {
    assert_eq!(precedence("1.5.0", "1.19.0"), Precedence::Lower);
    assert_eq!(precedence("1.19.0", "1.5.0"), Precedence::Higher);
    assert_eq!(precedence("2.0.0", "1.99.99"), Precedence::Higher);
    assert_eq!(precedence("1.2.3", "1.2.4"), Precedence::Lower);
    assert_eq!(precedence("1.2.3", "1.2.3"), Precedence::Equal);
}

#[test]
fn pre_releases_are_compared_field_by_field() {
    let rising = ["1.0.0-alpha", "1.0.0-alpha.1", "1.0.0-alpha.beta", "1.0.0-beta",
        "1.0.0-beta.2", "1.0.0-beta.11", "1.0.0-rc.1", "1.0.0"];
    for i in 0..rising.len() {
        for j in 0..rising.len() {
            let expected = if i < j {
                Precedence::Lower
            } else if i == j {
                Precedence::Equal
            } else {
                Precedence::Higher
            };
            assert_eq!(precedence(rising[i], rising[j]), expected, "{} against {}", rising[i], rising[j]);
        }
    }
    assert_eq!(precedence("1.0.0-pre.8", "1.0.0-pre.12"), Precedence::Lower);
    assert_eq!(precedence("1.0.0-pre12", "1.0.0-pre8"), Precedence::Lower);
    assert_eq!(precedence("1.0.0-pre.1", "1.0.0-pre.x"), Precedence::Lower);
}

#[test]
fn build_metadata_is_ignored_in_the_order() {
    assert_eq!(precedence("1.20.0+c144a98", "1.20.0+bc17664"), Precedence::Equal);
    assert_eq!(precedence("1.20.0+c144a98", "1.20.0"), Precedence::Equal);
    assert_eq!(precedence("1.20.0-rc.1+x", "1.20.0-rc.1+y"), Precedence::Equal);
}
