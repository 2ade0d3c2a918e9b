use grammar_fixtures::binding_tests::{BindingError, SINGLE_TEMPLATE};
use grammar_fixtures::manifest::ManifestError;
use grammar_fixtures::patcher::{metadata_tasks, rewrite, FileTask, FileWork, Skip};

fn concat_lines(lines: &[&str]) -> String {
    lines.iter().map(|line| format!("{line}\n")).collect()
}

fn task(directory: Option<usize>, path: &[&str], work: FileWork) -> FileTask {
    FileTask { directory, path: path.iter().map(|c| c.to_string()).collect(), work }
}

#[test]
fn fixture_without_directories_has_three_tasks() {
    assert_eq!(
        metadata_tasks(0),
        vec![
            task(None, &["package.json"], FileWork::PatchManifest),
            task(None, &["bindings", "node", "binding_test.js"], FileWork::RewriteBindingTest),
            task(None, &["package-lock.json"], FileWork::Remove),
        ]
    );
}

#[test]
fn each_directory_adds_a_manifest_and_a_lockfile() {
    assert_eq!(
        metadata_tasks(2),
        vec![
            task(None, &["package.json"], FileWork::PatchManifest),
            task(None, &["bindings", "node", "binding_test.js"], FileWork::RewriteBindingTest),
            task(None, &["package-lock.json"], FileWork::Remove),
            task(Some(0), &["package.json"], FileWork::PatchPrivateManifest),
            task(Some(0), &["package-lock.json"], FileWork::Remove),
            task(Some(1), &["package.json"], FileWork::PatchPrivateManifest),
            task(Some(1), &["package-lock.json"], FileWork::Remove),
        ]
    );
}

#[test]
fn directories_keep_their_order() {
    let tasks = metadata_tasks(3);
    assert_eq!(tasks.len(), 9);
    for (place, pair) in tasks[3..].chunks(2).enumerate() {
        assert_eq!(pair[0].directory, Some(place));
        assert_eq!(pair[1].directory, Some(place));
    }
}

#[test]
fn no_task_reaches_below_a_bundled_directory() {
    for task in &metadata_tasks(5)[3..] {
        assert_eq!(task.path.len(), 1);
    }
}

#[test]
fn root_manifest_task_patches_any_object() {
    let written = rewrite(FileWork::PatchManifest, "{}").unwrap();
    assert_eq!(
        written,
        "{\n  \"engines\": {\n    \"bun\": \">=1.3.9\"\n  },\n  \"type\": \"module\"\n}\n"
    );
}

#[test]
fn bundled_manifest_task_patches_private_packages_only() {
    assert_eq!(
        rewrite(FileWork::PatchPrivateManifest, "{}"),
        Err(Skip::Manifest(ManifestError::NotPrivate))
    );
    assert_eq!(
        rewrite(FileWork::PatchPrivateManifest, r#"{"private": true}"#),
        Ok(concat_lines(&[
            "{",
            "  \"engines\": {",
            "    \"bun\": \">=1.3.9\"",
            "  },",
            "  \"private\": true,",
            "  \"type\": \"module\"",
            "}",
        ]))
    );
}

#[test]
fn malformed_manifest_is_skipped() {
    assert_eq!(
        rewrite(FileWork::PatchManifest, "{ not json"),
        Err(Skip::Manifest(ManifestError::NotJson))
    );
    assert_eq!(
        rewrite(FileWork::PatchManifest, "[]"),
        Err(Skip::Manifest(ManifestError::NotAnObject))
    );
    assert_eq!(
        rewrite(FileWork::PatchPrivateManifest, "oops"),
        Err(Skip::Manifest(ManifestError::NotJson))
    );
}

#[test]
fn binding_test_task_rewrites_or_skips() {
    assert_eq!(
        rewrite(FileWork::RewriteBindingTest, "require(\"node:test\")"),
        Ok(SINGLE_TEMPLATE.to_string())
    );
    assert_eq!(
        rewrite(FileWork::RewriteBindingTest, SINGLE_TEMPLATE),
        Err(Skip::BindingTest(BindingError::AlreadyRewritten))
    );
    assert_eq!(
        rewrite(FileWork::RewriteBindingTest, "{}"),
        Err(Skip::BindingTest(BindingError::NotLegacy))
    );
}

#[test]
fn removal_writes_nothing() {
    assert_eq!(rewrite(FileWork::Remove, "{}"), Err(Skip::NothingToWrite));
    assert_eq!(rewrite(FileWork::Remove, ""), Err(Skip::NothingToWrite));
}
