//! The install executor as a step machine. The caller performs each action
//! (create the workspace, unpack, look for the package, run the installer,
//! remove the workspace) and hands back what happened; the machine decides the
//! next action and, at the end, the outcome. Every path that created the
//! workspace removes it before the attempt finishes.

use vstd::prelude::*;
use crate::outcome::{installer_outcome, run_outcome, InstallError, InstallOutcome};

verus! {

/// Where an install attempt stands.
#[derive(Debug, PartialEq, Eq)]
pub enum InstallStage {
    /// The workspace is being created.
    Creating,
    /// The archive is being unpacked into the workspace.
    Unpacking,
    /// The workspace is being searched for the package.
    Checking,
    /// The installer is running.
    Running,
    /// The workspace is being removed; the outcome is already decided.
    Removing(InstallOutcome),
    /// The attempt is over.
    Finished,
}

/// What happened when the caller performed the last action.
#[derive(Debug, PartialEq, Eq)]
pub enum InstallEvent {
    WorkspaceCreated,
    WorkspaceFailed,
    Unpacked,
    UnpackFailed,
    /// Whether the package was found at its fixed name in the workspace.
    PackageChecked(bool),
    /// The installer ran to its end; `exit_code` is `None` when it was
    /// terminated abnormally.
    InstallerExited { exit_code: Option<i32>, stdout: Vec<u8>, stderr: Vec<u8> },
    SpawnFailed,
    WorkspaceRemoved,
}

/// What the caller is to do next.
#[derive(Debug, PartialEq, Eq)]
pub enum InstallAction {
    CreateWorkspace,
    Unpack,
    CheckPackage,
    RunInstaller,
    RemoveWorkspace,
    /// The attempt is over, with this outcome.
    Finish(InstallOutcome),
    /// The event does not belong to this stage: nothing to do.
    Wait,
}

/// The stages in which the workspace exists.
pub open spec fn workspace_held(stage: InstallStage) -> bool {
    match stage {
        InstallStage::Unpacking | InstallStage::Checking | InstallStage::Running
        | InstallStage::Removing(_) => true,
        _ => false,
    }
}

/// Failure before the workspace is removed: remove it, keep the failure.
pub open spec fn release_with(r: (InstallStage, InstallAction), e: InstallError) -> bool {
    r == (InstallStage::Removing(Err(e)), InstallAction::RemoveWorkspace)
}

/// One step of the executor: from `stage`, on `event`, the result `r`.
pub open spec fn install_transition(
    stage: InstallStage,
    event: InstallEvent,
    r: (InstallStage, InstallAction),
) -> bool {
    match (stage, event) {
        (InstallStage::Creating, InstallEvent::WorkspaceCreated) => r == (
        InstallStage::Unpacking,
        InstallAction::Unpack,
        ),
        (InstallStage::Creating, InstallEvent::WorkspaceFailed) => r == (
        InstallStage::Finished,
        InstallAction::Finish(Err(InstallError::WorkspaceUnavailable)),
        ),
        (InstallStage::Unpacking, InstallEvent::Unpacked) => r == (
        InstallStage::Checking,
        InstallAction::CheckPackage,
        ),
        (InstallStage::Unpacking, InstallEvent::UnpackFailed) => release_with(
            r,
            InstallError::ArchiveCorrupt,
        ),
        (InstallStage::Checking, InstallEvent::PackageChecked(found)) => if found {
            r == (InstallStage::Running, InstallAction::RunInstaller)
        } else {
            release_with(r, InstallError::PackageMissing)
        },
        (
            InstallStage::Running,
            InstallEvent::InstallerExited { exit_code, stdout, stderr },
        ) => r.1 == InstallAction::RemoveWorkspace && (r.0 matches InstallStage::Removing(o)
            && run_outcome(exit_code, stdout@, stderr@, o)),
        (InstallStage::Running, InstallEvent::SpawnFailed) => release_with(
            r,
            InstallError::SpawnFailed,
        ),
        (InstallStage::Removing(o), InstallEvent::WorkspaceRemoved) => r == (
        InstallStage::Finished,
        InstallAction::Finish(o),
        ),
        (s, _) => r == (s, InstallAction::Wait),
    }
}

/// Starts an install attempt: its first action creates the workspace.
pub fn begin_install() -> (r: (InstallStage, InstallAction))
    ensures
        r == (InstallStage::Creating, InstallAction::CreateWorkspace),
{
    (InstallStage::Creating, InstallAction::CreateWorkspace)
}

/// Advances an install attempt by one event.
pub fn install_step(stage: InstallStage, event: InstallEvent) -> (r: (InstallStage, InstallAction))
    ensures
        install_transition(stage, event, r),
{
    match stage {
        InstallStage::Creating => match event {
            InstallEvent::WorkspaceCreated => (InstallStage::Unpacking, InstallAction::Unpack),
            InstallEvent::WorkspaceFailed => (
                InstallStage::Finished,
                InstallAction::Finish(Err(InstallError::WorkspaceUnavailable)),
            ),
            _ => (InstallStage::Creating, InstallAction::Wait),
        },
        InstallStage::Unpacking => match event {
            InstallEvent::Unpacked => (InstallStage::Checking, InstallAction::CheckPackage),
            InstallEvent::UnpackFailed => (
                InstallStage::Removing(Err(InstallError::ArchiveCorrupt)),
                InstallAction::RemoveWorkspace,
            ),
            _ => (InstallStage::Unpacking, InstallAction::Wait),
        },
        InstallStage::Checking => match event {
            InstallEvent::PackageChecked(found) => {
                if found {
                    (InstallStage::Running, InstallAction::RunInstaller)
                } else {
                    (
                        InstallStage::Removing(Err(InstallError::PackageMissing)),
                        InstallAction::RemoveWorkspace,
                    )
                }
            },
            _ => (InstallStage::Checking, InstallAction::Wait),
        },
        InstallStage::Running => match event {
            InstallEvent::InstallerExited { exit_code, stdout, stderr } => {
                let o = installer_outcome(exit_code, stdout.as_slice(), stderr.as_slice());
                (InstallStage::Removing(o), InstallAction::RemoveWorkspace)
            },
            InstallEvent::SpawnFailed => (
                InstallStage::Removing(Err(InstallError::SpawnFailed)),
                InstallAction::RemoveWorkspace,
            ),
            _ => (InstallStage::Running, InstallAction::Wait),
        },
        InstallStage::Removing(o) => match event {
            InstallEvent::WorkspaceRemoved => (InstallStage::Finished, InstallAction::Finish(o)),
            _ => (InstallStage::Removing(o), InstallAction::Wait),
        },
        InstallStage::Finished => (InstallStage::Finished, InstallAction::Wait),
    }
}

/// The workspace never outlives an attempt: an attempt finishes only where no
/// workspace was created or right after it was removed, and a step that leaves
/// the stages holding the workspace is its removal.
pub proof fn lemma_workspace_released(
    stage: InstallStage,
    event: InstallEvent,
    r: (InstallStage, InstallAction),
)
    requires
        install_transition(stage, event, r),
    ensures
        r.1 is Finish ==> !workspace_held(r.0) && r.0 == InstallStage::Finished,
        r.1 is Finish && workspace_held(stage) ==> event == InstallEvent::WorkspaceRemoved,
        workspace_held(stage) && !workspace_held(r.0) ==> event == InstallEvent::WorkspaceRemoved
            && r.1 is Finish,
{
}

/// `stages`, `events` and `actions` record a run of the executor: it starts by
/// creating the workspace, and each step goes from `stages[i]` on `events[i]` to
/// `stages[i + 1]` with action `actions[i]`.
pub open spec fn install_run(
    stages: Seq<InstallStage>,
    events: Seq<InstallEvent>,
    actions: Seq<InstallAction>,
) -> bool {
    &&& stages.len() == events.len() + 1
    &&& actions.len() == events.len()
    &&& stages[0] == InstallStage::Creating
    &&& forall|i: int|
        0 <= i < events.len() ==> #[trigger] install_transition(
            stages[i],
            events[i],
            (stages[i + 1], actions[i]),
        )
}

/// Once the workspace is held at step `j`, each later stage still holds it or
/// the run has finished.
proof fn lemma_held_until_finished(
    stages: Seq<InstallStage>,
    events: Seq<InstallEvent>,
    actions: Seq<InstallAction>,
    j: int,
    k: int,
)
    requires
        install_run(stages, events, actions),
        0 <= j <= k < stages.len(),
        workspace_held(stages[j]),
    ensures
        workspace_held(stages[k]) || stages[k] == InstallStage::Finished,
    decreases k - j,
{
    if k > j {
        lemma_held_until_finished(stages, events, actions, j, k - 1);
        let i = k - 1;
        assert(install_transition(stages[i], events[i], (stages[i + 1], actions[i])));
    }
}

/// A run reaches the removal stage only through a `RemoveWorkspace` action.
proof fn lemma_removal_was_requested(
    stages: Seq<InstallStage>,
    events: Seq<InstallEvent>,
    actions: Seq<InstallAction>,
    k: int,
)
    requires
        install_run(stages, events, actions),
        0 <= k < stages.len(),
        stages[k] is Removing,
    ensures
        exists|m: int| 0 <= m < k && actions[m] == InstallAction::RemoveWorkspace,
    decreases k,
{
    let i = k - 1;
    assert(install_transition(stages[i], events[i], (stages[i + 1], actions[i])));
    if stages[i] is Removing {
        lemma_removal_was_requested(stages, events, actions, i);
    } else {
        assert(actions[i] == InstallAction::RemoveWorkspace);
    }
}

/// Over a whole run: an attempt that created its workspace finishes only on
/// the event that reports the workspace removed, after the machine asked for
/// that removal; and no attempt finishes while its workspace exists.
pub proof fn lemma_run_releases_workspace(
    stages: Seq<InstallStage>,
    events: Seq<InstallEvent>,
    actions: Seq<InstallAction>,
    j: int,
    k: int,
)
    requires
        install_run(stages, events, actions),
        0 <= j <= k < actions.len(),
        workspace_held(stages[j]),
        actions[k] is Finish,
    ensures
        !workspace_held(stages[k + 1]),
        events[k] == InstallEvent::WorkspaceRemoved,
        exists|m: int| 0 <= m < k && actions[m] == InstallAction::RemoveWorkspace,
{
    lemma_held_until_finished(stages, events, actions, j, k);
    assert(install_transition(stages[k], events[k], (stages[k + 1], actions[k])));
    lemma_removal_was_requested(stages, events, actions, k);
}

} // verus!
