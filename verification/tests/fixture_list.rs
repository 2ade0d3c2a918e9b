use grammar_fixtures::fixture_list::load_fixtures;
use grammar_fixtures::sync::FixtureSpec;

fn fixture(name: &str, tag: &str, branch: Option<&str>) -> FixtureSpec {
    FixtureSpec {
        grammar_name: name.to_string(),
        tag: tag.to_string(),
        branch: branch.map(|b| b.to_string()),
    }
}

#[test]
fn list_of_one_tagged_fixture() {
    assert_eq!(
        load_fixtures(r#"[["json", "v1.0.0", null]]"#),
        Ok(vec![fixture("json", "v1.0.0", None)])
    );
}

#[test]
fn list_of_one_branch_fixture() {
    assert_eq!(
        load_fixtures(r#"[["php", "v2.0.0", "main"]]"#),
        Ok(vec![fixture("php", "v2.0.0", Some("main"))])
    );
}

#[test]
fn fixtures_keep_the_order_of_the_list() {
    let text = r#"[
        ["bash", "v0.25.0", null],
        ["php", "v0.24.2", "master"],
        ["c", "v0.24.1", null]
    ]"#;
    assert_eq!(
        load_fixtures(text),
        Ok(vec![
            fixture("bash", "v0.25.0", None),
            fixture("php", "v0.24.2", Some("master")),
            fixture("c", "v0.24.1", None),
        ])
    );
}

#[test]
fn empty_list() {
    assert_eq!(load_fixtures("[]"), Ok(Vec::new()));
}

#[test]
fn malformed_lists_are_refused() {
    let malformed = [
        "",
        "{}",
        "[",
        r#"["json", "v1.0.0", null]"#,
        r#"[["json", "v1.0.0"]]"#,
        r#"[["json", "v1.0.0", null, null]]"#,
        r#"[["json", 1, null]]"#,
        r#"[["json", "v1.0.0", 3]]"#,
        r#"[{"name": "json", "tag": "v1.0.0", "branch": null}]"#,
    ];
    for text in malformed {
        let error = load_fixtures(text).unwrap_err();
        assert!(!error.reason.is_empty());
    }
}
