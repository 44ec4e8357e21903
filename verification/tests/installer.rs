use mdview::assoc::ProcessOutput;
use mdview::install::{
    elevation_script, install_cli, outcome_of_elevation, outcome_without_executable, Elevation,
    InstallAction, InstallEvent, InstallOutcome, InstallState, TargetProbe, CLI_TARGET,
    NO_REASON_GIVEN, USER_CANCEL_MARK,
};
use mdview::router::install_notification;
use mdview::text::contains;

fn prompt_output(success: bool, stderr: &str) -> ProcessOutput {
    ProcessOutput { success, stdout: Vec::new(), stderr: stderr.as_bytes().to_vec() }
}

const EXE: &str = "/Applications/mdview.app/Contents/MacOS/mdview";

fn begin() -> InstallState {
    let (state, action) = install_cli(InstallState::Start, InstallEvent::Begin, EXE);
    assert!(matches!(action, InstallAction::ProbeTarget));
    assert_eq!(state, InstallState::Probing);
    state
}

#[test]
fn install_on_a_free_target_links_without_removal() {
    let state = begin();
    let (state, action) = install_cli(state, InstallEvent::Probed(TargetProbe::Absent), EXE);
    assert_eq!(state, InstallState::Linking);
    assert!(matches!(action, InstallAction::CreateSymlink));
    let (state, action) = install_cli(state, InstallEvent::Linked(true), EXE);
    assert_eq!(state, InstallState::Done);
    assert!(matches!(action, InstallAction::Report(InstallOutcome::Installed)));
}

#[test]
fn install_twice_reports_already_installed_and_changes_nothing() {
    let state = begin();
    let (state, _) = install_cli(state, InstallEvent::Probed(TargetProbe::Absent), EXE);
    let (_, first) = install_cli(state, InstallEvent::Linked(true), EXE);
    assert!(matches!(first, InstallAction::Report(InstallOutcome::Installed)));
    let state = begin();
    let probed = InstallEvent::Probed(TargetProbe::Symlink(Some(EXE.to_string())));
    let (state, second) = install_cli(state, probed, EXE);
    assert_eq!(state, InstallState::Done);
    assert!(matches!(second, InstallAction::Report(InstallOutcome::AlreadyInstalled)));
}

#[test]
fn install_removes_what_is_in_the_way() {
    for probe in [
        TargetProbe::Other,
        TargetProbe::Symlink(None),
        TargetProbe::Symlink(Some("/old/mdview".to_string())),
    ] {
        let (state, action) = install_cli(begin(), InstallEvent::Probed(probe), EXE);
        assert_eq!(state, InstallState::Removing);
        assert!(matches!(action, InstallAction::RemoveTarget));
        let (state, action) = install_cli(state, InstallEvent::Removed, EXE);
        assert_eq!(state, InstallState::Linking);
        assert!(matches!(action, InstallAction::CreateSymlink));
    }
}

#[test]
fn install_asks_for_privilege_after_the_link_failed() {
    let (state, action) = install_cli(InstallState::Linking, InstallEvent::Linked(false), EXE);
    assert_eq!(state, InstallState::Elevating);
    match action {
        InstallAction::Elevate(script) => assert_eq!(
            script,
            "do shell script \"ln -sf '/Applications/mdview.app/Contents/MacOS/mdview' '/usr/local/bin/mdview'\" with administrator privileges"
        ),
        _ => panic!("privilege must be asked for"),
    }
}

#[test]
fn elevation_decides_the_outcome() {
    let (state, action) =
        install_cli(InstallState::Elevating, InstallEvent::Elevated(Elevation::Approved), EXE);
    assert_eq!(state, InstallState::Done);
    assert!(matches!(action, InstallAction::Report(InstallOutcome::Installed)));
    let (_, action) =
        install_cli(InstallState::Elevating, InstallEvent::Elevated(Elevation::Declined), EXE);
    assert!(matches!(action, InstallAction::Report(InstallOutcome::Cancelled)));
    let failed = Elevation::CommandFailed("ln: not permitted".to_string());
    let (_, action) = install_cli(InstallState::Elevating, InstallEvent::Elevated(failed), EXE);
    assert!(matches!(action, InstallAction::Report(InstallOutcome::Failed(_))));
    let unavailable = Elevation::Unavailable("osascript: not found".to_string());
    let (_, action) = install_cli(InstallState::Elevating, InstallEvent::Elevated(unavailable), EXE);
    match action {
        InstallAction::Report(InstallOutcome::Failed(reason)) => {
            assert_eq!(reason, "osascript: not found")
        }
        _ => panic!("the failure must be reported"),
    }
    assert!(matches!(outcome_of_elevation(Elevation::Declined), InstallOutcome::Cancelled));
}

#[test]
fn events_out_of_turn_change_nothing() {
    let (state, action) = install_cli(InstallState::Start, InstallEvent::Linked(true), EXE);
    assert_eq!(state, InstallState::Start);
    assert!(matches!(action, InstallAction::Nothing));
    let (state, action) = install_cli(InstallState::Done, InstallEvent::Begin, EXE);
    assert_eq!(state, InstallState::Done);
    assert!(matches!(action, InstallAction::Nothing));
    let (state, action) = install_cli(InstallState::Probing, InstallEvent::Removed, EXE);
    assert_eq!(state, InstallState::Probing);
    assert!(matches!(action, InstallAction::Nothing));
}

#[test]
fn outcome_payloads() {
    assert_eq!(InstallOutcome::AlreadyInstalled.payload(), "already-installed");
    assert_eq!(InstallOutcome::Installed.payload(), "ok");
    assert_eq!(InstallOutcome::Cancelled.payload(), "cancelled");
    assert_eq!(InstallOutcome::Failed("no prompt".to_string()).payload(), "Failed: no prompt");
    let notice = install_notification(&InstallOutcome::Cancelled);
    assert_eq!(notice.event, "cli-install-result");
    assert_eq!(notice.payload, "cancelled");
}

#[test]
fn elevation_script_quotes_both_paths() {
    assert_eq!(CLI_TARGET, "/usr/local/bin/mdview");
    assert_eq!(
        elevation_script("/a b/mdview"),
        "do shell script \"ln -sf '/a b/mdview' '/usr/local/bin/mdview'\" with administrator privileges"
    );
}

#[test]
fn target_probe_from_what_the_disk_says() {
    assert!(matches!(TargetProbe::from_disk(false, None, false), TargetProbe::Absent));
    assert!(matches!(TargetProbe::from_disk(false, None, true), TargetProbe::Other));
    assert!(matches!(TargetProbe::from_disk(true, None, false), TargetProbe::Symlink(None)));
    match TargetProbe::from_disk(true, Some("/x".to_string()), true) {
        TargetProbe::Symlink(Some(to)) => assert_eq!(to, "/x"),
        _ => panic!("a link is expected"),
    }
}

#[test]
fn elevation_from_what_the_prompt_returned() {
    assert!(matches!(Elevation::from_status(Ok(prompt_output(true, ""))), Elevation::Approved));
    assert!(matches!(
        Elevation::from_status(Ok(prompt_output(true, "warning (-128)"))),
        Elevation::Approved
    ));
    let cancelled = prompt_output(false, "0:50: execution error: User canceled. (-128)\n");
    assert!(matches!(Elevation::from_status(Ok(cancelled)), Elevation::Declined));
    match Elevation::from_status(Err("no prompt".to_string())) {
        Elevation::Unavailable(reason) => assert_eq!(reason, "no prompt"),
        _ => panic!("the prompt did not start"),
    }
}

#[test]
fn a_failed_privileged_command_is_no_cancel() {
    let failed = prompt_output(false, "0:50: execution error: ln: /usr/local/bin: No such file or directory (1)\n");
    match Elevation::from_status(Ok(failed)) {
        Elevation::CommandFailed(reason) => assert_eq!(
            reason,
            "0:50: execution error: ln: /usr/local/bin: No such file or directory (1)"
        ),
        _ => panic!("the command failed"),
    }
    match Elevation::from_status(Ok(prompt_output(false, " \n"))) {
        Elevation::CommandFailed(reason) => {
            assert_eq!(reason, "the privileged command exited without success");
            assert_eq!(reason, NO_REASON_GIVEN);
        }
        _ => panic!("the command failed"),
    }
    let elevated = InstallEvent::Elevated(Elevation::from_status(Ok(prompt_output(false, "boom"))));
    let (state, action) = install_cli(InstallState::Elevating, elevated, EXE);
    assert_eq!(state, InstallState::Done);
    match action {
        InstallAction::Report(outcome) => {
            assert!(matches!(outcome, InstallOutcome::Failed(_)));
            assert_eq!(install_notification(&outcome).payload, "Failed: boom");
        }
        _ => panic!("the failure must be reported"),
    }
}

#[test]
fn a_declined_prompt_is_reported_as_cancelled() {
    let declined = Elevation::from_exit(false, "execution error: User canceled. (-128)".to_string());
    let (state, action) = install_cli(InstallState::Elevating, InstallEvent::Elevated(declined), EXE);
    assert_eq!(state, InstallState::Done);
    match action {
        InstallAction::Report(outcome) => {
            assert_eq!(install_notification(&outcome).payload, "cancelled")
        }
        _ => panic!("the cancel must be reported"),
    }
    assert_eq!(USER_CANCEL_MARK, "(-128)");
    assert!(matches!(Elevation::from_exit(false, "(-128)".to_string()), Elevation::Declined));
    assert!(matches!(
        Elevation::from_exit(false, "-128".to_string()),
        Elevation::CommandFailed(_)
    ));
    assert!(matches!(Elevation::from_exit(true, String::new()), Elevation::Approved));
}

#[test]
fn an_executable_that_cannot_be_located_fails_at_once() {
    let unlocated = InstallEvent::Unlocated("permission denied".to_string());
    let (state, action) = install_cli(InstallState::Start, unlocated, "");
    assert_eq!(state, InstallState::Done);
    match action {
        InstallAction::Report(outcome) => {
            let notice = install_notification(&outcome);
            assert_eq!(notice.event, "cli-install-result");
            assert_eq!(notice.payload, "Failed: cannot locate binary: permission denied");
        }
        _ => panic!("the failure must be reported"),
    }
    match outcome_without_executable("gone") {
        InstallOutcome::Failed(reason) => assert_eq!(reason, "cannot locate binary: gone"),
        _ => panic!("a failure is expected"),
    }
    let late = InstallEvent::Unlocated("x".to_string());
    let (state, action) = install_cli(InstallState::Probing, late, EXE);
    assert_eq!(state, InstallState::Probing);
    assert!(matches!(action, InstallAction::Nothing));
}

#[test]
fn contains_finds_a_text_anywhere() {
    assert!(contains("abc", ""));
    assert!(contains("", ""));
    assert!(!contains("", "a"));
    assert!(contains("abc", "abc"));
    assert!(contains("abc", "a"));
    assert!(contains("abc", "bc"));
    assert!(contains("a\u{2192}bc", "\u{2192}b"));
    assert!(!contains("abc", "abcd"));
    assert!(!contains("abc", "ac"));
    assert!(!contains("abab", "bb"));
}

#[test]
fn a_dangling_link_to_the_executable_counts_as_installed() {
    let probe = TargetProbe::from_disk(true, Some(EXE.to_string()), false);
    let (state, action) = install_cli(begin(), InstallEvent::Probed(probe), EXE);
    assert_eq!(state, InstallState::Done);
    assert!(matches!(action, InstallAction::Report(InstallOutcome::AlreadyInstalled)));
}
