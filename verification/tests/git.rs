use grammar_fixtures::command::Command;
use grammar_fixtures::git::{
    checkout_command, clone_command, fetch_branch_command, fetch_tag_command, probe_args,
    pull_command, repository_url, reset_command, set_upstream_command, switch_command,
    update_commands,
};
use grammar_fixtures::refs::{FixtureRef, RefKind};

fn git(args: &[&str], in_fixture_dir: bool, failure: &str) -> Command {
    Command {
        program: "git".to_string(),
        args: args.iter().map(|a| a.to_string()).collect(),
        in_fixture_dir,
        failure: failure.to_string(),
    }
}

#[test]
fn repository_url_of_a_grammar() {
    assert_eq!(repository_url("json"), "https://github.com/tree-sitter/tree-sitter-json");
    assert_eq!(repository_url(""), "https://github.com/tree-sitter/tree-sitter-");
}

#[test]
fn clone_is_shallow_and_pinned() {
    let target = FixtureRef::new("v1.0.0", None);
    assert_eq!(
        clone_command("json", &target, "test/fixtures/grammars/json"),
        git(
            &[
                "clone",
                "--depth",
                "1",
                "--branch",
                "v1.0.0",
                "https://github.com/tree-sitter/tree-sitter-json",
                "test/fixtures/grammars/json",
            ],
            false,
            "Failed to clone the json grammar",
        )
    );
}

#[test]
fn clone_takes_a_branch_the_same_way() {
    let target = FixtureRef::new("v2.0.0", Some("main"));
    let command = clone_command("php", &target, "/tmp/php");
    assert_eq!(command.args[3], "--branch");
    assert_eq!(command.args[4], "main");
    assert_eq!(command.failure, "Failed to clone the php grammar");
    assert!(!command.in_fixture_dir);
}

#[test]
fn branch_fetch_goes_to_the_remote_tracking_ref() {
    assert_eq!(
        fetch_branch_command("main"),
        git(
            &["fetch", "--update-shallow", "origin", "+refs/heads/main:refs/remotes/origin/main"],
            true,
            "Failed to fetch branch main",
        )
    );
}

#[test]
fn branch_switch() {
    assert_eq!(
        switch_command("main"),
        git(&["switch", "main"], true, "Failed to checkout branch main")
    );
}

#[test]
fn branch_upstream() {
    assert_eq!(
        set_upstream_command("main"),
        git(
            &["branch", "--set-upstream-to", "origin/main", "main"],
            true,
            "Failed to set upstream for branch main",
        )
    );
}

#[test]
fn branch_pull() {
    assert_eq!(
        pull_command("main"),
        git(&["pull", "origin", "main"], true, "Failed to pull latest from branch main")
    );
}

#[test]
fn tag_fetch_names_the_one_tag() {
    assert_eq!(
        fetch_tag_command("json", "v1.0.0"),
        git(
            &["fetch", "origin", "refs/tags/v1.0.0:refs/tags/v1.0.0"],
            true,
            "Failed to fetch tag v1.0.0 for json grammar",
        )
    );
}

#[test]
fn hard_reset() {
    assert_eq!(
        reset_command("json"),
        git(&["reset", "--hard", "HEAD"], true, "Failed to reset json grammar working tree")
    );
}

#[test]
fn checkout_by_name() {
    let tag = FixtureRef::new("v1.0.0", None);
    assert_eq!(
        checkout_command("json", &tag),
        git(&["checkout", "v1.0.0"], true, "Failed to checkout tag v1.0.0 for json grammar")
    );
    let branch = FixtureRef::new("v1.0.0", Some("main"));
    assert_eq!(
        checkout_command("php", &branch),
        git(&["checkout", "main"], true, "Failed to checkout branch main for php grammar")
    );
}

#[test]
fn update_of_a_branch_is_six_commands() {
    let target = FixtureRef::new("v2.0.0", Some("main"));
    let commands = update_commands("php", &target);
    assert_eq!(
        commands,
        vec![
            fetch_branch_command("main"),
            switch_command("main"),
            set_upstream_command("main"),
            pull_command("main"),
            reset_command("php"),
            checkout_command("php", &target),
        ]
    );
}

#[test]
fn update_of_a_tag_is_three_commands() {
    let target = FixtureRef::new("v1.0.0", None);
    let commands = update_commands("json", &target);
    assert_eq!(
        commands,
        vec![
            fetch_tag_command("json", "v1.0.0"),
            reset_command("json"),
            checkout_command("json", &target),
        ]
    );
}

#[test]
fn update_commands_run_in_the_fixture_directory() {
    for target in [FixtureRef::new("v1", None), FixtureRef::new("v1", Some("b"))] {
        for command in update_commands("g", &target) {
            assert!(command.in_fixture_dir);
            assert_eq!(command.program, "git");
        }
    }
}

#[test]
fn probe_arguments() {
    assert_eq!(probe_args(RefKind::Tag), vec!["describe", "--tags", "--exact-match", "HEAD"]);
    assert_eq!(probe_args(RefKind::Branch), vec!["rev-parse", "--abbrev-ref", "HEAD"]);
}
