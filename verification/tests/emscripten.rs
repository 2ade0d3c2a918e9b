use grammar_fixtures::command::Command;
use grammar_fixtures::emscripten::{
    installer_command, sdk_clone_command, ProvisionAction, ProvisionEvent, ProvisionPhase,
    SdkProvision,
};

fn command(program: &str, args: &[&str], failure: &str) -> Command {
    Command {
        program: program.to_string(),
        args: args.iter().map(|a| a.to_string()).collect(),
        in_fixture_dir: false,
        failure: failure.to_string(),
    }
}

fn provision(windows: bool) -> SdkProvision {
    SdkProvision::new("target/emsdk".to_string(), windows, "4.0.15".to_string())
}

#[test]
fn sdk_clone() {
    assert_eq!(
        sdk_clone_command("target/emsdk"),
        command(
            "git",
            &["clone", "https://github.com/emscripten-core/emsdk.git", "target/emsdk"],
            "Failed to clone the Emscripten SDK",
        )
    );
}

#[test]
fn installer_by_platform() {
    assert_eq!(
        installer_command(false, "install", "4.0.15", "Failed to install Emscripten"),
        command("./emsdk", &["install", "4.0.15"], "Failed to install Emscripten")
    );
    assert_eq!(
        installer_command(true, "activate", "4.0.15", "Failed to activate Emscripten"),
        command("emsdk.bat", &["activate", "4.0.15"], "Failed to activate Emscripten")
    );
}

#[test]
fn present_sdk_is_left_alone() {
    let mut sdk = provision(false);
    assert_eq!(sdk.phase(), ProvisionPhase::Locate);
    assert_eq!(sdk.action(), ProvisionAction::CheckDirectory);
    assert_eq!(
        sdk.handle(ProvisionEvent::DirectoryExists(true)),
        Some("Emscripten SDK already exists")
    );
    assert_eq!(sdk.phase(), ProvisionPhase::Done);
    assert_eq!(sdk.action(), ProvisionAction::Finish);
}

#[test]
fn absent_sdk_is_cloned_installed_and_activated() {
    let mut sdk = provision(false);
    assert_eq!(
        sdk.handle(ProvisionEvent::DirectoryExists(false)),
        Some("Cloning the Emscripten SDK...")
    );
    assert_eq!(sdk.action(), ProvisionAction::Run(&sdk_clone_command("target/emsdk")));
    assert_eq!(sdk.handle(ProvisionEvent::Exited(true)), None);
    assert_eq!(sdk.action(), ProvisionAction::EnterDirectory);
    assert_eq!(sdk.handle(ProvisionEvent::Entered), None);
    assert_eq!(
        sdk.action(),
        ProvisionAction::Run(&command(
            "./emsdk",
            &["install", "4.0.15"],
            "Failed to install Emscripten"
        ))
    );
    assert_eq!(sdk.handle(ProvisionEvent::Exited(true)), None);
    assert_eq!(
        sdk.action(),
        ProvisionAction::Run(&command(
            "./emsdk",
            &["activate", "4.0.15"],
            "Failed to activate Emscripten"
        ))
    );
    assert_eq!(sdk.handle(ProvisionEvent::Exited(true)), None);
    assert_eq!(sdk.phase(), ProvisionPhase::Done);
    assert_eq!(sdk.action(), ProvisionAction::Finish);
}

#[test]
fn windows_runs_the_batch_installer() {
    let mut sdk = provision(true);
    sdk.handle(ProvisionEvent::DirectoryExists(false));
    sdk.handle(ProvisionEvent::Exited(true));
    sdk.handle(ProvisionEvent::Entered);
    match sdk.action() {
        ProvisionAction::Run(command) => assert_eq!(command.program, "emsdk.bat"),
        other => panic!("expected the installer, got {other:?}"),
    }
}

#[test]
fn each_provision_step_fails_with_its_own_message() {
    let cases = [
        (0, "Failed to clone the Emscripten SDK"),
        (1, "Failed to install Emscripten"),
        (2, "Failed to activate Emscripten"),
    ];
    for (failing, message) in cases {
        let mut sdk = provision(false);
        sdk.handle(ProvisionEvent::DirectoryExists(false));
        let mut commands = 0;
        for _ in 0..16 {
            let event = match sdk.action() {
                ProvisionAction::Run(_) => {
                    commands += 1;
                    ProvisionEvent::Exited(commands - 1 != failing)
                }
                ProvisionAction::EnterDirectory => ProvisionEvent::Entered,
                _ => break,
            };
            sdk.handle(event);
        }
        assert_eq!(sdk.phase(), ProvisionPhase::Failed);
        assert_eq!(sdk.action(), ProvisionAction::Abort(message));
        assert_eq!(commands, failing + 1);
        sdk.handle(ProvisionEvent::Exited(true));
        sdk.handle(ProvisionEvent::Entered);
        assert_eq!(sdk.action(), ProvisionAction::Abort(message));
    }
}

#[test]
fn provision_events_out_of_turn_change_nothing() {
    let mut sdk = provision(false);
    assert_eq!(sdk.handle(ProvisionEvent::Exited(true)), None);
    assert_eq!(sdk.handle(ProvisionEvent::Entered), None);
    assert_eq!(sdk.phase(), ProvisionPhase::Locate);
    sdk.handle(ProvisionEvent::DirectoryExists(false));
    // The clone is running: entering the directory is not its answer.
    assert_eq!(sdk.handle(ProvisionEvent::Entered), None);
    assert_eq!(sdk.action(), ProvisionAction::Run(&sdk_clone_command("target/emsdk")));
    sdk.handle(ProvisionEvent::Exited(true));
    // The directory is being entered: an exit is not its answer.
    assert_eq!(sdk.handle(ProvisionEvent::Exited(false)), None);
    assert_eq!(sdk.action(), ProvisionAction::EnterDirectory);
}
