use ez_cd::install::{begin_install, install_step, InstallAction, InstallEvent, InstallStage};
use ez_cd::outcome::{failure_message, InstallError};

fn run(events: Vec<InstallEvent>) -> Vec<InstallAction> {
    let (mut stage, first) = begin_install();
    let mut actions = vec![first];
    for e in events {
        let (next, action) = install_step(stage, e);
        stage = next;
        actions.push(action);
    }
    actions
}

#[test]
fn successful_install_removes_workspace_then_finishes() {
    let actions = run(vec![
        InstallEvent::WorkspaceCreated,
        InstallEvent::Unpacked,
        InstallEvent::PackageChecked(true),
        InstallEvent::InstallerExited {
            exit_code: Some(0),
            stdout: b"Setting up pkg (1.0) ...".to_vec(),
            stderr: Vec::new(),
        },
        InstallEvent::WorkspaceRemoved,
    ]);
    assert_eq!(
        actions,
        vec![
            InstallAction::CreateWorkspace,
            InstallAction::Unpack,
            InstallAction::CheckPackage,
            InstallAction::RunInstaller,
            InstallAction::RemoveWorkspace,
            InstallAction::Finish(Ok("Setting up pkg (1.0) ...".to_string())),
        ]
    );
}

#[test]
fn missing_package_still_removes_workspace() {
    let actions = run(vec![
        InstallEvent::WorkspaceCreated,
        InstallEvent::Unpacked,
        InstallEvent::PackageChecked(false),
        InstallEvent::WorkspaceRemoved,
    ]);
    assert_eq!(actions[3], InstallAction::RemoveWorkspace);
    assert_eq!(actions[4], InstallAction::Finish(Err(InstallError::PackageMissing)));
    assert_eq!(failure_message(&InstallError::PackageMissing), "Package not found in archive");
}

#[test]
fn corrupt_archive_and_spawn_failure_remove_workspace() {
    let a = run(vec![
        InstallEvent::WorkspaceCreated,
        InstallEvent::UnpackFailed,
        InstallEvent::WorkspaceRemoved,
    ]);
    assert_eq!(a[2], InstallAction::RemoveWorkspace);
    assert_eq!(a[3], InstallAction::Finish(Err(InstallError::ArchiveCorrupt)));
    let b = run(vec![
        InstallEvent::WorkspaceCreated,
        InstallEvent::Unpacked,
        InstallEvent::PackageChecked(true),
        InstallEvent::SpawnFailed,
        InstallEvent::WorkspaceRemoved,
    ]);
    assert_eq!(b[4], InstallAction::RemoveWorkspace);
    assert_eq!(b[5], InstallAction::Finish(Err(InstallError::SpawnFailed)));
}

#[test]
fn installer_failure_is_reported_after_removal() {
    let a = run(vec![
        InstallEvent::WorkspaceCreated,
        InstallEvent::Unpacked,
        InstallEvent::PackageChecked(true),
        InstallEvent::InstallerExited {
            exit_code: Some(1),
            stdout: Vec::new(),
            stderr: b"dpkg: error: ...".to_vec(),
        },
        InstallEvent::WorkspaceRemoved,
    ]);
    assert_eq!(a[4], InstallAction::RemoveWorkspace);
    assert_eq!(
        a[5],
        InstallAction::Finish(Err(InstallError::InstallerFailed {
            stdout: String::new(),
            stderr: "dpkg: error: ...".to_string(),
            exit_code: Some(1),
        }))
    );
}

#[test]
fn workspace_failure_finishes_without_removal() {
    let a = run(vec![InstallEvent::WorkspaceFailed]);
    assert_eq!(a[1], InstallAction::Finish(Err(InstallError::WorkspaceUnavailable)));
}

#[test]
fn out_of_order_events_are_ignored() {
    let (stage, action) = install_step(InstallStage::Running, InstallEvent::WorkspaceRemoved);
    assert_eq!(stage, InstallStage::Running);
    assert_eq!(action, InstallAction::Wait);
    let (stage, action) = install_step(InstallStage::Finished, InstallEvent::WorkspaceCreated);
    assert_eq!(stage, InstallStage::Finished);
    assert_eq!(action, InstallAction::Wait);
    let (stage, action) = install_step(
        InstallStage::Removing(Ok("x".to_string())),
        InstallEvent::Unpacked,
    );
    assert_eq!(stage, InstallStage::Removing(Ok("x".to_string())));
    assert_eq!(action, InstallAction::Wait);
}
