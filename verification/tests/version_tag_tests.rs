use cargo_semantic_release::commit::Commit;
use cargo_semantic_release::repo::commits_until;
use cargo_semantic_release::version_tag::{
    TagRef, Version, is_valid_version_tag, latest_version_tag, parse_version_tag,
};

#[test]
fn parsing_valid_tag_names() {
    assert_eq!(parse_version_tag("v1.0.0"), Some(Version::new(1, 0, 0)));
    assert_eq!(parse_version_tag("v2.0.0"), Some(Version::new(2, 0, 0)));
    assert_eq!(parse_version_tag("v1.1.0"), Some(Version::new(1, 1, 0)));
    assert_eq!(parse_version_tag("v12.34.56"), Some(Version::new(12, 34, 56)));
    assert_eq!(parse_version_tag("v007.08.09"), Some(Version::new(7, 8, 9)));
}

#[test]
fn parsing_malformed_tag_names() {
    assert_eq!(parse_version_tag(""), None);
    assert_eq!(parse_version_tag("1.0.0"), None);
    assert_eq!(parse_version_tag("v1.0"), None);
    assert_eq!(parse_version_tag("v1.0.0.0"), None);
    assert_eq!(parse_version_tag("v1.0.0-rc1"), None);
    assert_eq!(parse_version_tag("va.b.c"), None);
    assert_eq!(parse_version_tag("v1..0"), None);
    assert_eq!(parse_version_tag("tag_1"), None);
    assert_eq!(parse_version_tag("v1.0.0 "), None);
}

#[test]
fn parsing_numbers_too_large_for_u64() {
    // The name matches the grammar, but the number exceeds `u64`.
    let name = "v99999999999999999999.0.0";
    assert!(is_valid_version_tag(name));
    assert_eq!(parse_version_tag(name), None);
    assert_eq!(
        parse_version_tag("v18446744073709551615.0.0"),
        Some(Version::new(u64::MAX, 0, 0))
    );
    assert_eq!(parse_version_tag("v18446744073709551616.0.0"), None);
}

#[test]
fn validity_check_matches_the_grammar() {
    assert!(is_valid_version_tag("v0.0.0"));
    assert!(is_valid_version_tag("v10.20.30"));
    assert!(!is_valid_version_tag("v1.2"));
    assert!(!is_valid_version_tag("x1.2.3"));
    assert!(!is_valid_version_tag("v1.2.3x"));
}

#[test]
fn annotated_and_lightweight_tags_parse_alike() {
    // The same name and target resolve identically under both encodings.
    let annotated = vec![TagRef::Annotated {
        name: "v1.2.3".to_string(),
        target: "c1".to_string(),
    }];
    let lightweight = vec![TagRef::Lightweight {
        name: "v1.2.3".to_string(),
        target: "c1".to_string(),
    }];

    let from_annotated = latest_version_tag(&annotated).unwrap();
    let from_lightweight = latest_version_tag(&lightweight).unwrap();

    assert_eq!(from_annotated.version, from_lightweight.version);
    assert_eq!(from_annotated.commit_oid, from_lightweight.commit_oid);
    assert_eq!(from_annotated.version, Version::new(1, 2, 3));
}

#[test]
fn resolution_returns_the_greatest_version() {
    let tags = vec![
        TagRef::Annotated { name: "v1.0.0".to_string(), target: "c1".to_string() },
        TagRef::Lightweight { name: "v2.0.0".to_string(), target: "c3".to_string() },
        TagRef::Annotated { name: "v1.1.0".to_string(), target: "c2".to_string() },
        TagRef::Lightweight { name: "not-a-version".to_string(), target: "c4".to_string() },
    ];

    let result = latest_version_tag(&tags).unwrap();

    assert_eq!(result.version, Version::new(2, 0, 0));
    assert_eq!(result.commit_oid, "c3");
}

#[test]
fn resolution_skips_malformed_names_silently() {
    let tags = vec![
        TagRef::Lightweight { name: "tag_1".to_string(), target: "c1".to_string() },
        TagRef::Annotated { name: "release".to_string(), target: "c2".to_string() },
    ];
    assert!(latest_version_tag(&tags).is_none());
}

#[test]
fn resolution_of_no_tags_is_none() {
    let tags: Vec<TagRef> = Vec::new();
    assert!(latest_version_tag(&tags).is_none());
}

#[test]
fn range_stops_at_the_boundary_commit() {
    // Commits newest first, tagged v1.0.0 at c1 and v2.0.0 at c3: the
    // fetched range is exactly the commits strictly after c3.
    let tags = vec![
        TagRef::Annotated { name: "v1.0.0".to_string(), target: "c1".to_string() },
        TagRef::Annotated { name: "v2.0.0".to_string(), target: "c3".to_string() },
    ];
    let boundary = latest_version_tag(&tags).unwrap();
    assert_eq!(boundary.version, Version::new(2, 0, 0));
    assert_eq!(boundary.commit_oid, "c3");

    let walked = vec![
        Commit::new("m4".to_string(), "c4".to_string()),
        Commit::new("m3".to_string(), "c3".to_string()),
        Commit::new("m2".to_string(), "c2".to_string()),
        Commit::new("m1".to_string(), "c1".to_string()),
    ];
    let range = commits_until(walked, &boundary.commit_oid);
    assert_eq!(range.len(), 1);
    assert_eq!(range[0], Commit::new("m4".to_string(), "c4".to_string()));
}

#[test]
fn range_without_boundary_keeps_everything() {
    let walked = vec![
        Commit::new("m2".to_string(), "c2".to_string()),
        Commit::new("m1".to_string(), "c1".to_string()),
    ];
    let range = commits_until(walked, "missing");
    assert_eq!(range.len(), 2);
}
