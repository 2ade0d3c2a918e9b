use grammar_fixtures::refs::{FixtureRef, LocalRefState, RefKind};

#[test]
fn branch_overrides_tag() {
    let target = FixtureRef::new("v2.0.0", Some("main"));
    assert_eq!(target, FixtureRef::Branch("main"));
    assert_eq!(target.to_string(), "main");
    assert_eq!(target.name(), "main");
    assert_eq!(target.ref_type(), "branch");
    assert_eq!(target.kind(), RefKind::Branch);
}

#[test]
fn tag_without_branch() {
    let target = FixtureRef::new("v1.0.0", None);
    assert_eq!(target, FixtureRef::Tag("v1.0.0"));
    assert_eq!(target.to_string(), "v1.0.0");
    assert_eq!(target.name(), "v1.0.0");
    assert_eq!(target.ref_type(), "tag");
    assert_eq!(target.kind(), RefKind::Tag);
}

#[test]
fn branch_wins_whatever_the_tag() {
    for tag in ["", "v0.0.1", "main", "anything at all"] {
        let target = FixtureRef::new(tag, Some("release"));
        assert_eq!(target.to_string(), "release");
        assert_eq!(target.ref_type(), "branch");
    }
}

#[test]
fn empty_names_are_kept_as_given() {
    assert_eq!(FixtureRef::new("", None), FixtureRef::Tag(""));
    assert_eq!(FixtureRef::new("v1", Some("")), FixtureRef::Branch(""));
    assert_eq!(FixtureRef::new("", None).to_string(), "");
}

#[test]
fn kind_labels() {
    assert_eq!(RefKind::Tag.label(), "tag");
    assert_eq!(RefKind::Branch.label(), "branch");
}

#[test]
fn local_state_kind_labels() {
    let on_tag = LocalRefState { name: "v1.0.0".to_string(), kind: Some(RefKind::Tag) };
    let on_branch = LocalRefState { name: "main".to_string(), kind: Some(RefKind::Branch) };
    let lost = LocalRefState { name: "<unknown>".to_string(), kind: None };
    assert_eq!(on_tag.kind_label(), "tag");
    assert_eq!(on_branch.kind_label(), "branch");
    assert_eq!(lost.kind_label(), "<unknown>");
}
