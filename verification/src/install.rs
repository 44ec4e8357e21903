//! The installer of the command-line launcher: a symbolic link to the
//! running executable at a fixed place. The decisions are a state machine;
//! the caller touches the disk and asks for privilege, and hands back what
//! happened.

use vstd::prelude::*;
use vstd::string::*;
use crate::assoc::{spawn_view, written_text, OutputModel, ProcessOutput};
use crate::text::{contains, from_utf8_lossy, is_infix_of, text_eq, text_of, trim};

verus! {

/// Where the launcher is installed.
pub const CLI_TARGET: &'static str = "/usr/local/bin/mdview";

/// The error number by which the elevation prompt reports on standard
/// error that the user cancelled it.
pub const USER_CANCEL_MARK: &'static str = "(-128)";

/// The reason that is reported where the privileged command failed and
/// wrote nothing to standard error.
pub const NO_REASON_GIVEN: &'static str = "the privileged command exited without success";

/// How an installation ended.
pub enum InstallOutcome {
    /// The link was there already and points at the executable.
    AlreadyInstalled,
    /// The link was created.
    Installed,
    /// The user declined the request for privilege.
    Cancelled,
    /// The installation failed: the executable could not be located, the
    /// prompt for privilege could not be started, or the privileged command
    /// ended without success; the text is the reason.
    Failed(String),
}

/// What an `InstallOutcome` is.
pub enum OutcomeModel {
    AlreadyInstalled,
    Installed,
    Cancelled,
    Failed(Seq<char>),
}

impl View for InstallOutcome {
    type V = OutcomeModel;

    open spec fn view(&self) -> OutcomeModel {
        match self {
            InstallOutcome::AlreadyInstalled => OutcomeModel::AlreadyInstalled,
            InstallOutcome::Installed => OutcomeModel::Installed,
            InstallOutcome::Cancelled => OutcomeModel::Cancelled,
            InstallOutcome::Failed(reason) => OutcomeModel::Failed(reason@),
        }
    }
}

/// What is found at the place of the launcher.
pub enum TargetProbe {
    /// Nothing.
    Absent,
    /// A symbolic link, with what it points at where that could be read.
    Symlink(Option<String>),
    /// Something that is no symbolic link.
    Other,
}

/// What a `TargetProbe` is.
pub enum TargetModel {
    Absent,
    Symlink(Option<Seq<char>>),
    Other,
}

impl View for TargetProbe {
    type V = TargetModel;

    open spec fn view(&self) -> TargetModel {
        match self {
            TargetProbe::Absent => TargetModel::Absent,
            TargetProbe::Symlink(Some(to)) => TargetModel::Symlink(Some(to@)),
            TargetProbe::Symlink(None) => TargetModel::Symlink(None),
            TargetProbe::Other => TargetModel::Other,
        }
    }
}

/// How the request for administrator privilege ended.
pub enum Elevation {
    /// The user approved and the command exited with success.
    Approved,
    /// The user declined the prompt.
    Declined,
    /// The prompt ran and ended without success for another reason than a
    /// decline; the text is the reason.
    CommandFailed(String),
    /// The prompt could not be started; the text is the reason.
    Unavailable(String),
}

/// What an `Elevation` is.
pub enum ElevationModel {
    Approved,
    Declined,
    CommandFailed(Seq<char>),
    Unavailable(Seq<char>),
}

impl View for Elevation {
    type V = ElevationModel;

    open spec fn view(&self) -> ElevationModel {
        match self {
            Elevation::Approved => ElevationModel::Approved,
            Elevation::Declined => ElevationModel::Declined,
            Elevation::CommandFailed(reason) => ElevationModel::CommandFailed(reason@),
            Elevation::Unavailable(reason) => ElevationModel::Unavailable(reason@),
        }
    }
}

/// Where an installation stands.
#[derive(Clone, Copy, PartialEq, Eq, Structural, Debug)]
pub enum InstallState {
    /// Not begun.
    Start,
    /// Waiting for what is found at the target.
    Probing,
    /// Waiting for the removal of what was found.
    Removing,
    /// Waiting for the attempt to create the link without privilege.
    Linking,
    /// Waiting for the answer to the request for privilege.
    Elevating,
    /// Ended; the outcome was reported.
    Done,
}

/// What happened outside, as the caller reports it.
pub enum InstallEvent {
    /// The user asked for the installation.
    Begin,
    /// The user asked for the installation and the running executable
    /// cannot be located; the text is the reason.
    Unlocated(String),
    /// The target was looked at.
    Probed(TargetProbe),
    /// The removal was attempted; its result does not matter.
    Removed,
    /// The link was attempted without privilege; `true` where it succeeded.
    Linked(bool),
    /// The request for privilege ended.
    Elevated(Elevation),
}

/// What an `InstallEvent` is.
pub enum EventModel {
    Begin,
    Unlocated(Seq<char>),
    Probed(TargetModel),
    Removed,
    Linked(bool),
    Elevated(ElevationModel),
}

impl View for InstallEvent {
    type V = EventModel;

    open spec fn view(&self) -> EventModel {
        match self {
            InstallEvent::Begin => EventModel::Begin,
            InstallEvent::Unlocated(reason) => EventModel::Unlocated(reason@),
            InstallEvent::Probed(p) => EventModel::Probed(p@),
            InstallEvent::Removed => EventModel::Removed,
            InstallEvent::Linked(ok) => EventModel::Linked(*ok),
            InstallEvent::Elevated(e) => EventModel::Elevated(e@),
        }
    }
}

/// What the caller is to do next.
pub enum InstallAction {
    /// Look at the target and report `Probed`.
    ProbeTarget,
    /// Remove what is at the target and report `Removed`.
    RemoveTarget,
    /// Create the link without privilege and report `Linked`.
    CreateSymlink,
    /// Run this script at the elevation prompt and report `Elevated`.
    Elevate(String),
    /// Tell the presentation layer how the installation ended.
    Report(InstallOutcome),
    /// Nothing: the event does not belong to the state.
    Nothing,
}

/// What an `InstallAction` is.
pub enum ActionModel {
    ProbeTarget,
    RemoveTarget,
    CreateSymlink,
    Elevate(Seq<char>),
    Report(OutcomeModel),
    Nothing,
}

impl View for InstallAction {
    type V = ActionModel;

    open spec fn view(&self) -> ActionModel {
        match self {
            InstallAction::ProbeTarget => ActionModel::ProbeTarget,
            InstallAction::RemoveTarget => ActionModel::RemoveTarget,
            InstallAction::CreateSymlink => ActionModel::CreateSymlink,
            InstallAction::Elevate(script) => ActionModel::Elevate(script@),
            InstallAction::Report(outcome) => ActionModel::Report(outcome@),
            InstallAction::Nothing => ActionModel::Nothing,
        }
    }
}

impl ActionModel {
    /// The action changes the disk, or may.
    pub open spec fn mutates(self) -> bool {
        self is RemoveTarget || self is CreateSymlink || self is Elevate
    }
}

/// The one shell command that is run with privilege: it creates the link,
/// replacing what is there.
pub open spec fn elevation_script_text(exe_path: Seq<char>) -> Seq<char> {
    "do shell script \"ln -sf '"@ + exe_path + "' '"@ + CLI_TARGET@
        + "'\" with administrator privileges"@
}

/// What the presentation layer is told of an outcome.
pub open spec fn payload_text(outcome: OutcomeModel) -> Seq<char> {
    match outcome {
        OutcomeModel::AlreadyInstalled => "already-installed"@,
        OutcomeModel::Installed => "ok"@,
        OutcomeModel::Cancelled => "cancelled"@,
        OutcomeModel::Failed(reason) => "Failed: "@ + reason,
    }
}

/// How the request for privilege decides the outcome.
pub open spec fn elevation_outcome(e: ElevationModel) -> OutcomeModel {
    match e {
        ElevationModel::Approved => OutcomeModel::Installed,
        ElevationModel::Declined => OutcomeModel::Cancelled,
        ElevationModel::CommandFailed(reason) => OutcomeModel::Failed(reason),
        ElevationModel::Unavailable(reason) => OutcomeModel::Failed(reason),
    }
}

/// The installer's transition: from a state and an event to the next state
/// and the action to perform. An event that does not belong to the state
/// changes nothing.
pub open spec fn install_transition(state: InstallState, event: EventModel, exe_path: Seq<char>) -> (
    InstallState,
    ActionModel,
) {
    match (state, event) {
        (InstallState::Start, EventModel::Begin) => (InstallState::Probing, ActionModel::ProbeTarget),
        (InstallState::Start, EventModel::Unlocated(reason)) => (
            InstallState::Done,
            ActionModel::Report(unlocated_outcome(reason)),
        ),
        (InstallState::Probing, EventModel::Probed(target)) => if target == TargetModel::Symlink(
            Some(exe_path),
        ) {
            (InstallState::Done, ActionModel::Report(OutcomeModel::AlreadyInstalled))
        } else if target is Absent {
            (InstallState::Linking, ActionModel::CreateSymlink)
        } else {
            (InstallState::Removing, ActionModel::RemoveTarget)
        },
        (InstallState::Removing, EventModel::Removed) => (
            InstallState::Linking,
            ActionModel::CreateSymlink,
        ),
        (InstallState::Linking, EventModel::Linked(ok)) => if ok {
            (InstallState::Done, ActionModel::Report(OutcomeModel::Installed))
        } else {
            (InstallState::Elevating, ActionModel::Elevate(elevation_script_text(exe_path)))
        },
        (InstallState::Elevating, EventModel::Elevated(e)) => (
            InstallState::Done,
            ActionModel::Report(elevation_outcome(e)),
        ),
        _ => (state, ActionModel::Nothing),
    }
}

/// The outcome of a whole installation, given what the disk and the user
/// answer along the way: what is at the target, whether the link can be
/// created without privilege, and how the request for privilege ends.
pub open spec fn install_outcome(
    exe_path: Seq<char>,
    target: TargetModel,
    link_ok: bool,
    elevation: ElevationModel,
) -> OutcomeModel {
    if target == TargetModel::Symlink(Some(exe_path)) {
        OutcomeModel::AlreadyInstalled
    } else if link_ok {
        OutcomeModel::Installed
    } else {
        elevation_outcome(elevation)
    }
}

/// What is at the target after an action: a removal leaves nothing, a link
/// that was created points at the executable, and every other action, and
/// every action that failed, leaves what was there.
pub open spec fn target_after(
    action: ActionModel,
    done: bool,
    before: TargetModel,
    exe_path: Seq<char>,
) -> TargetModel {
    match action {
        ActionModel::RemoveTarget => if done {
            TargetModel::Absent
        } else {
            before
        },
        ActionModel::CreateSymlink => if done {
            TargetModel::Symlink(Some(exe_path))
        } else {
            before
        },
        ActionModel::Elevate(_) => if done {
            TargetModel::Symlink(Some(exe_path))
        } else {
            before
        },
        _ => before,
    }
}

/// What is at the target, from what the disk says of it: whether it is a
/// symbolic link, what the link points at where that could be read, and
/// whether anything is there at all.
pub open spec fn probe_of(is_symlink: bool, link: Option<Seq<char>>, exists: bool) -> TargetModel {
    if is_symlink {
        TargetModel::Symlink(link)
    } else if exists {
        TargetModel::Other
    } else {
        TargetModel::Absent
    }
}

/// How the request for privilege ended, given whether the prompt exited
/// with success and what it wrote to standard error: approved on success;
/// declined where the error output holds the number of the user's cancel;
/// in every other case failed, with the error output as the reason, or a
/// fixed text where there is none.
pub open spec fn exit_verdict(success: bool, stderr: Seq<char>) -> ElevationModel {
    if success {
        ElevationModel::Approved
    } else if is_infix_of(USER_CANCEL_MARK@, stderr) {
        ElevationModel::Declined
    } else if stderr.len() == 0 {
        ElevationModel::CommandFailed(NO_REASON_GIVEN@)
    } else {
        ElevationModel::CommandFailed(stderr)
    }
}

/// How the request for privilege ended, from what the prompt left behind:
/// its exit and output, or the reason why it did not start.
pub open spec fn elevation_of(prompt: Result<OutputModel, Seq<char>>) -> ElevationModel {
    match prompt {
        Ok(o) => exit_verdict(o.success, written_text(o.stderr)),
        Err(reason) => ElevationModel::Unavailable(reason),
    }
}

/// The outcome where the running executable cannot be located: a failure
/// that says so, with the reason that the system gave.
pub open spec fn unlocated_outcome(reason: Seq<char>) -> OutcomeModel {
    OutcomeModel::Failed("cannot locate binary: "@ + reason)
}

/// The script that is run at the elevation prompt.
pub fn elevation_script(exe_path: &str) -> (r: String)
    ensures
        r@ == elevation_script_text(exe_path@),
{
    let mut r = String::from_str("do shell script \"ln -sf '");
    r.append(exe_path);
    r.append("' '");
    r.append(CLI_TARGET);
    r.append("'\" with administrator privileges");
    r
}

/// The outcome that an answer to the request for privilege decides.
pub fn outcome_of_elevation(e: Elevation) -> (r: InstallOutcome)
    ensures
        r@ == elevation_outcome(e@),
{
    match e {
        Elevation::Approved => InstallOutcome::Installed,
        Elevation::Declined => InstallOutcome::Cancelled,
        Elevation::CommandFailed(reason) => InstallOutcome::Failed(reason),
        Elevation::Unavailable(reason) => InstallOutcome::Failed(reason),
    }
}

/// One step of the installer: the next state and the action to perform.
pub fn install_cli(state: InstallState, event: InstallEvent, exe_path: &str) -> (r: (
    InstallState,
    InstallAction,
))
    ensures
        (r.0, r.1@) == install_transition(state, event@, exe_path@),
{
    match (state, event) {
        (InstallState::Start, InstallEvent::Begin) => (InstallState::Probing, InstallAction::ProbeTarget),
        (InstallState::Start, InstallEvent::Unlocated(reason)) => (
            InstallState::Done,
            InstallAction::Report(outcome_without_executable(reason.as_str())),
        ),
        (InstallState::Probing, InstallEvent::Probed(target)) => {
            match target {
                TargetProbe::Absent => (InstallState::Linking, InstallAction::CreateSymlink),
                TargetProbe::Symlink(Some(to)) => {
                    if text_eq(to.as_str(), exe_path) {
                        (InstallState::Done, InstallAction::Report(InstallOutcome::AlreadyInstalled))
                    } else {
                        (InstallState::Removing, InstallAction::RemoveTarget)
                    }
                },
                _ => (InstallState::Removing, InstallAction::RemoveTarget),
            }
        },
        (InstallState::Removing, InstallEvent::Removed) => (
            InstallState::Linking,
            InstallAction::CreateSymlink,
        ),
        (InstallState::Linking, InstallEvent::Linked(ok)) => {
            if ok {
                (InstallState::Done, InstallAction::Report(InstallOutcome::Installed))
            } else {
                (InstallState::Elevating, InstallAction::Elevate(elevation_script(exe_path)))
            }
        },
        (InstallState::Elevating, InstallEvent::Elevated(e)) => (
            InstallState::Done,
            InstallAction::Report(outcome_of_elevation(e)),
        ),
        (state, _) => (state, InstallAction::Nothing),
    }
}

impl TargetProbe {
    /// What is at the target, from what the disk says of it.
    pub fn from_disk(is_symlink: bool, link: Option<String>, exists: bool) -> (r: TargetProbe)
        ensures
            r@ == probe_of(is_symlink, text_of(link), exists),
    {
        if is_symlink {
            TargetProbe::Symlink(link)
        } else if exists {
            TargetProbe::Other
        } else {
            TargetProbe::Absent
        }
    }
}

impl Elevation {
    /// How the request for privilege ended, given whether the prompt exited
    /// with success and the text that it wrote to standard error.
    pub fn from_exit(success: bool, stderr: String) -> (r: Elevation)
        ensures
            r@ == exit_verdict(success, stderr@),
    {
        if success {
            Elevation::Approved
        } else if contains(stderr.as_str(), USER_CANCEL_MARK) {
            Elevation::Declined
        } else if stderr.as_str().is_empty() {
            Elevation::CommandFailed(String::from_str(NO_REASON_GIVEN))
        } else {
            Elevation::CommandFailed(stderr)
        }
    }

    /// How the request for privilege ended, from what the prompt left
    /// behind: its exit and output, or the reason why it did not start.
    pub fn from_status(prompt: Result<ProcessOutput, String>) -> (r: Elevation)
        ensures
            r@ == elevation_of(spawn_view(prompt)),
    {
        match prompt {
            Ok(o) => {
                let err = from_utf8_lossy(&o.stderr);
                let stderr = trim(err.as_str());
                Elevation::from_exit(o.success, stderr)
            },
            Err(reason) => Elevation::Unavailable(reason),
        }
    }
}

/// The outcome where the running executable cannot be located.
pub fn outcome_without_executable(reason: &str) -> (r: InstallOutcome)
    ensures
        r@ == unlocated_outcome(reason@),
{
    let mut message = String::from_str("cannot locate binary: ");
    message.append(reason);
    InstallOutcome::Failed(message)
}

impl InstallOutcome {
    /// What the presentation layer is told of the outcome.
    pub fn payload(&self) -> (r: String)
        ensures
            r@ == payload_text(self@),
    {
        match self {
            InstallOutcome::AlreadyInstalled => String::from_str("already-installed"),
            InstallOutcome::Installed => String::from_str("ok"),
            InstallOutcome::Cancelled => String::from_str("cancelled"),
            InstallOutcome::Failed(reason) => {
                let mut r = String::from_str("Failed: ");
                r.append(reason.as_str());
                r
            },
        }
    }
}

/// The actions that the machine asks for in the course of one installation,
/// in order, when the disk and the user answer as given: `target` is found
/// at the target, the link succeeds without privilege or not (`link_ok`),
/// and the request for privilege ends as `elevation` says.
pub open spec fn install_run(
    exe_path: Seq<char>,
    target: TargetModel,
    link_ok: bool,
    elevation: ElevationModel,
) -> Seq<ActionModel> {
    let (s1, a1) = install_transition(InstallState::Start, EventModel::Begin, exe_path);
    let (s2, a2) = install_transition(s1, EventModel::Probed(target), exe_path);
    if a2 is Report {
        seq![a1, a2]
    } else {
        let (s3, a3) = install_transition(s2, EventModel::Removed, exe_path);
        let (s, asked) = if a2 is RemoveTarget {
            (s3, seq![a1, a2, a3])
        } else {
            (s2, seq![a1, a2])
        };
        let (s4, a4) = install_transition(s, EventModel::Linked(link_ok), exe_path);
        let (s5, a5) = install_transition(s4, EventModel::Elevated(elevation), exe_path);
        if a4 is Report {
            asked.push(a4)
        } else {
            asked.push(a4).push(a5)
        }
    }
}

/// What is at the target after the actions of `run` were performed, in
/// order, each with the success that `done` gives for its position.
pub open spec fn target_after_run(
    run: Seq<ActionModel>,
    done: Seq<bool>,
    before: TargetModel,
    exe_path: Seq<char>,
) -> TargetModel
    decreases run.len(),
{
    if run.len() == 0 || done.len() != run.len() {
        before
    } else {
        target_after(
            run.last(),
            done.last(),
            target_after_run(run.drop_last(), done.drop_last(), before, exe_path),
            exe_path,
        )
    }
}

/// The state machine carries out the installation as a whole: its last
/// action reports the outcome of the whole installation; it looks before
/// it changes anything, removes only what is in the way, and asks for
/// privilege only after the link failed without.
pub proof fn lemma_machine_reports_outcome(
    exe_path: Seq<char>,
    target: TargetModel,
    link_ok: bool,
    elevation: ElevationModel,
)
    ensures
        ({
            let run = install_run(exe_path, target, link_ok, elevation);
            let installed = target == TargetModel::Symlink(Some(exe_path));
            &&& run.len() >= 2
            &&& run[0] is ProbeTarget
            &&& run.last() == ActionModel::Report(install_outcome(exe_path, target, link_ok, elevation))
            &&& run.contains(ActionModel::RemoveTarget) <==> !installed && !(target is Absent)
            &&& run.contains(ActionModel::CreateSymlink) <==> !installed
            &&& run.contains(ActionModel::Elevate(elevation_script_text(exe_path))) <==> !installed
                && !link_ok
            &&& forall|i: int| 0 <= i < run.len() - 1 ==> !(#[trigger] run[i] is Report)
        }),
{
    let run = install_run(exe_path, target, link_ok, elevation);
    if target != TargetModel::Symlink(Some(exe_path)) {
        let link_at: int = if target is Absent {
            1
        } else {
            2
        };
        assert(run[link_at] == ActionModel::CreateSymlink);
        if !(target is Absent) {
            assert(run[1] == ActionModel::RemoveTarget);
        }
        if !link_ok {
            assert(run[link_at + 1] == ActionModel::Elevate(elevation_script_text(exe_path)));
        }
    }
}

/// Installing twice: where the first installation can create the link
/// without privilege, it leaves a link to the executable at the target,
/// and the second installation reports `AlreadyInstalled` at once, asks
/// for no action that changes the disk, and leaves the target as it is.
pub proof fn lemma_second_install_changes_nothing(
    exe_path: Seq<char>,
    target: TargetModel,
    first_elevation: ElevationModel,
    second_link_ok: bool,
    second_elevation: ElevationModel,
)
    ensures
        ({
            let first = install_run(exe_path, target, true, first_elevation);
            let left = target_after_run(
                first,
                Seq::new(first.len(), |i: int| true),
                target,
                exe_path,
            );
            let second = install_run(exe_path, left, second_link_ok, second_elevation);
            &&& left == TargetModel::Symlink(Some(exe_path))
            &&& second == seq![
                ActionModel::ProbeTarget,
                ActionModel::Report(OutcomeModel::AlreadyInstalled),
            ]
            &&& forall|i: int| 0 <= i < second.len() ==> !(#[trigger] second[i]).mutates()
            &&& forall|done: Seq<bool>|
                target_after_run(second, done, left, exe_path) == left
        }),
{
    let first = install_run(exe_path, target, true, first_elevation);
    let all = Seq::new(first.len(), |i: int| true);
    let linked = TargetModel::Symlink(Some(exe_path));
    lemma_machine_reports_outcome(exe_path, target, true, first_elevation);
    if target == linked {
        lemma_harmless_run_keeps_target(first, all, target, exe_path);
    } else {
        assert(first.drop_last().last() == ActionModel::CreateSymlink);
        assert(all.drop_last().last());
        assert(target_after_run(first.drop_last(), all.drop_last(), target, exe_path) == linked);
    }
    let left = target_after_run(first, all, target, exe_path);
    let second = install_run(exe_path, left, second_link_ok, second_elevation);
    assert forall|done: Seq<bool>| target_after_run(second, done, left, exe_path) == left by {
        lemma_harmless_run_keeps_target(second, done, left, exe_path);
    }
}

/// Actions that do not change the disk leave the target as it is.
pub proof fn lemma_harmless_run_keeps_target(
    run: Seq<ActionModel>,
    done: Seq<bool>,
    before: TargetModel,
    exe_path: Seq<char>,
)
    requires
        forall|i: int| 0 <= i < run.len() ==> !(#[trigger] run[i]).mutates(),
    ensures
        target_after_run(run, done, before, exe_path) == before,
    decreases run.len(),
{
    if run.len() > 0 && done.len() == run.len() {
        lemma_harmless_run_keeps_target(run.drop_last(), done.drop_last(), before, exe_path);
    }
}

/// Once an installation is done, no event starts another action.
pub proof fn lemma_done_is_final(event: EventModel, exe_path: Seq<char>)
    ensures
        install_transition(InstallState::Done, event, exe_path) == (
            InstallState::Done,
            ActionModel::Nothing,
        ),
{
}

/// `Cancelled` is reported for a declined prompt and for nothing else: a
/// prompt that ends without success and without the mark of the user's
/// cancel, or that does not start, is reported as `Failed`.
pub proof fn lemma_cancelled_means_declined(prompt: Result<OutputModel, Seq<char>>)
    ensures
        elevation_outcome(elevation_of(prompt)) is Cancelled <==> (prompt matches Ok(o) && !o.success
            && is_infix_of(USER_CANCEL_MARK@, written_text(o.stderr))),
        elevation_outcome(elevation_of(prompt)) is Installed <==> (prompt matches Ok(o)
            && o.success),
        !(elevation_outcome(elevation_of(prompt)) is AlreadyInstalled),
{
}

/// Where the running executable cannot be located, the installation ends
/// at once: the failure is reported with the reason, and no action is
/// asked for that looks at the disk, changes it, or asks for privilege.
pub proof fn lemma_unlocated_touches_nothing(reason: Seq<char>, exe_path: Seq<char>)
    ensures
        install_transition(InstallState::Start, EventModel::Unlocated(reason), exe_path) == (
            InstallState::Done,
            ActionModel::Report(OutcomeModel::Failed("cannot locate binary: "@ + reason)),
        ),
{
}

} // verus!
