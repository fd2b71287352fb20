use hyperpm::installer::InstallerExit;
use hyperpm::registry::{MetadataLookup, VersionInfo, VersionSource};
use hyperpm::status::{failure_line, fetching_line, installing_line, success_line, StatusLine};
use hyperpm::task::{InstallTask, Phase, TaskAction, TaskEvent, TaskOutcome};

fn response(body: &str) -> TaskEvent {
    TaskEvent::Metadata(MetadataLookup::Response(body.as_bytes().to_vec()))
}

fn exited(success: bool, stderr: &str) -> TaskEvent {
    TaskEvent::InstallerExited(InstallerExit { success, stderr: stderr.as_bytes().to_vec() })
}

fn version(label: &str, source: VersionSource) -> VersionInfo {
    VersionInfo { label: String::from(label), source }
}

fn run_installer(spec: &str) -> Option<TaskAction> {
    Some(TaskAction::RunInstaller {
        program: String::from("npm"),
        arguments: vec![String::from("install"), String::from(spec)],
    })
}

#[test]
fn new_task_is_created_with_a_fresh_handle() {
    let task = InstallTask::new(String::from("foo"));
    assert_eq!(task.target(), "foo");
    assert_eq!(*task.phase(), Phase::Created);
    assert_eq!(task.handle().updates(), 0);
    assert!(!task.handle().is_finalized());
    assert_eq!(*task.handle().line(), StatusLine::empty());
    assert!(!task.is_terminal());
    assert_eq!(task.outcome(), None);
}

#[test]
fn launch_asks_for_the_metadata() {
    let mut task = InstallTask::new(String::from("foo"));
    let action = task.step(TaskEvent::Launch);
    assert_eq!(
        action,
        Some(TaskAction::FetchMetadata { url: String::from("https://registry.npmjs.org/foo") })
    );
    assert_eq!(*task.phase(), Phase::Fetching);
    assert_eq!(*task.handle().line(), fetching_line("foo"));
    assert_eq!(task.handle().updates(), 1);
    assert!(!task.handle().is_finalized());
    assert_eq!(task.outcome(), None);
}

#[test]
fn metadata_asks_for_the_installer() {
    let mut task = InstallTask::new(String::from("foo"));
    task.step(TaskEvent::Launch);
    let action = task.step(response(r#"{"dist-tags":{"latest":"2.1.0"}}"#));
    assert_eq!(action, run_installer("foo@2.1.0"));
    assert_eq!(*task.phase(), Phase::Installing { version: version("2.1.0", VersionSource::DistTag) });
    assert_eq!(*task.handle().line(), installing_line("foo", "2.1.0"));
    assert_eq!(task.handle().line().plain_text(), "Installing foo (v2.1.0)");
    assert_eq!(task.handle().updates(), 2);
    assert!(!task.is_terminal());
}

#[test]
fn successful_install_finishes_the_task() {
    let mut task = InstallTask::new(String::from("foo"));
    task.step(TaskEvent::Launch);
    task.step(response(r#"{"dist-tags":{"latest":"2.1.0"}}"#));
    let action = task.step(exited(true, "npm WARN deprecated"));
    assert_eq!(action, Some(TaskAction::Conclude { diagnostic: None }));
    assert_eq!(*task.phase(), Phase::Finished { version: version("2.1.0", VersionSource::DistTag) });
    assert!(task.is_terminal());
    assert_eq!(task.outcome(), Some(TaskOutcome::Success(String::from("2.1.0"))));
    assert_eq!(*task.handle().line(), success_line("foo", "2.1.0"));
    assert_eq!(task.handle().line().plain_text(), "foo installed successfully! (v2.1.0)");
    assert_eq!(task.handle().updates(), 3);
    assert!(task.handle().is_finalized());
}

#[test]
fn failed_install_fails_the_task_and_hands_out_stderr() {
    let mut task = InstallTask::new(String::from("bar"));
    task.step(TaskEvent::Launch);
    task.step(response(r#"{"dist-tags":{"latest":"0.3.0"}}"#));
    let action = task.step(exited(false, "npm ERR! code E404\n"));
    assert_eq!(
        action,
        Some(TaskAction::Conclude { diagnostic: Some(String::from("npm ERR! code E404\n")) })
    );
    assert_eq!(
        *task.phase(),
        Phase::Failed {
            version: version("0.3.0", VersionSource::DistTag),
            reason: String::from("npm ERR! code E404\n"),
        }
    );
    assert!(task.is_terminal());
    assert_eq!(task.outcome(), Some(TaskOutcome::Failure(String::from("npm ERR! code E404\n"))));
    assert_eq!(*task.handle().line(), failure_line("bar"));
    assert_eq!(task.handle().line().plain_text(), "Failed to install bar");
    assert_eq!(task.handle().updates(), 3);
    assert!(task.handle().is_finalized());
}

#[test]
fn failed_install_with_empty_stderr_is_still_flagged() {
    let mut task = InstallTask::new(String::from("bar"));
    task.step(TaskEvent::Launch);
    task.step(TaskEvent::Metadata(MetadataLookup::Unavailable));
    let action = task.step(exited(false, ""));
    assert_eq!(action, Some(TaskAction::Conclude { diagnostic: Some(String::new()) }));
    assert_eq!(task.outcome(), Some(TaskOutcome::Failure(String::new())));
    assert_eq!(task.handle().line().plain_text(), "Failed to install bar");
}

#[test]
fn failed_lookup_installs_latest() {
    let mut task = InstallTask::new(String::from("bar"));
    task.step(TaskEvent::Launch);
    let action = task.step(TaskEvent::Metadata(MetadataLookup::Unavailable));
    assert_eq!(action, run_installer("bar@latest"));
    assert_eq!(
        *task.phase(),
        Phase::Installing { version: version("latest", VersionSource::LookupFailed) }
    );
    assert_eq!(task.handle().line().plain_text(), "Installing bar (vlatest)");
    assert!(!task.is_terminal());
    let action = task.step(exited(true, ""));
    assert_eq!(action, Some(TaskAction::Conclude { diagnostic: None }));
    assert_eq!(task.outcome(), Some(TaskOutcome::Success(String::from("latest"))));
    assert_eq!(task.handle().line().plain_text(), "bar installed successfully! (vlatest)");
}

#[test]
fn malformed_metadata_installs_latest() {
    let mut task = InstallTask::new(String::from("bar"));
    task.step(TaskEvent::Launch);
    let action = task.step(response("<html>oops</html>"));
    assert_eq!(action, run_installer("bar@latest"));
    assert_eq!(
        *task.phase(),
        Phase::Installing { version: version("latest", VersionSource::LookupFailed) }
    );
}

#[test]
fn metadata_without_tag_installs_latest() {
    let mut task = InstallTask::new(String::from("bar"));
    task.step(TaskEvent::Launch);
    let action = task.step(response(r#"{"name":"bar"}"#));
    assert_eq!(action, run_installer("bar@latest"));
    assert_eq!(
        *task.phase(),
        Phase::Installing { version: version("latest", VersionSource::NoTagPublished) }
    );
}

#[test]
fn events_out_of_turn_change_nothing() {
    let mut task = InstallTask::new(String::from("foo"));
    assert_eq!(task.step(TaskEvent::Metadata(MetadataLookup::Unavailable)), None);
    assert_eq!(task.step(exited(true, "")), None);
    assert_eq!(*task.phase(), Phase::Created);
    assert_eq!(task.handle().updates(), 0);

    task.step(TaskEvent::Launch);
    assert_eq!(task.step(TaskEvent::Launch), None);
    assert_eq!(task.step(exited(false, "early")), None);
    assert_eq!(*task.phase(), Phase::Fetching);
    assert_eq!(task.handle().updates(), 1);
    assert_eq!(*task.handle().line(), fetching_line("foo"));

    task.step(TaskEvent::Metadata(MetadataLookup::Unavailable));
    assert_eq!(task.step(TaskEvent::Launch), None);
    assert_eq!(task.step(response(r#"{"dist-tags":{"latest":"5.0.0"}}"#)), None);
    assert_eq!(
        *task.phase(),
        Phase::Installing { version: version("latest", VersionSource::LookupFailed) }
    );
    assert_eq!(task.handle().updates(), 2);
}

#[test]
fn ended_task_takes_no_further_event() {
    let mut finished = InstallTask::new(String::from("foo"));
    finished.step(TaskEvent::Launch);
    finished.step(response(r#"{"dist-tags":{"latest":"2.1.0"}}"#));
    finished.step(exited(true, ""));
    assert_eq!(finished.step(TaskEvent::Launch), None);
    assert_eq!(finished.step(TaskEvent::Metadata(MetadataLookup::Unavailable)), None);
    assert_eq!(finished.step(exited(false, "late")), None);
    assert_eq!(finished.outcome(), Some(TaskOutcome::Success(String::from("2.1.0"))));
    assert_eq!(finished.handle().updates(), 3);
    assert_eq!(*finished.handle().line(), success_line("foo", "2.1.0"));

    let mut failed = InstallTask::new(String::from("bar"));
    failed.step(TaskEvent::Launch);
    failed.step(TaskEvent::Metadata(MetadataLookup::Unavailable));
    failed.step(exited(false, "boom"));
    assert_eq!(failed.step(TaskEvent::Launch), None);
    assert_eq!(failed.step(exited(true, "")), None);
    assert_eq!(failed.outcome(), Some(TaskOutcome::Failure(String::from("boom"))));
    assert_eq!(failed.handle().updates(), 3);
    assert_eq!(*failed.handle().line(), failure_line("bar"));
}

#[test]
fn handle_is_written_three_times_on_either_path() {
    for success in [true, false] {
        let mut task = InstallTask::new(String::from("foo"));
        assert_eq!(task.handle().updates(), 0);
        task.step(TaskEvent::Launch);
        assert_eq!(task.handle().updates(), 1);
        task.step(TaskEvent::Metadata(MetadataLookup::Unavailable));
        assert_eq!(task.handle().updates(), 2);
        assert!(!task.handle().is_finalized());
        task.step(exited(success, ""));
        assert_eq!(task.handle().updates(), 3);
        assert!(task.handle().is_finalized());
    }
}

#[test]
fn stderr_that_is_not_utf8_is_read_lossily() {
    let mut task = InstallTask::new(String::from("foo"));
    task.step(TaskEvent::Launch);
    task.step(TaskEvent::Metadata(MetadataLookup::Unavailable));
    let exit = InstallerExit { success: false, stderr: vec![b'e', b'r', b'r', 0xff] };
    let action = task.step(TaskEvent::InstallerExited(exit));
    assert_eq!(
        action,
        Some(TaskAction::Conclude { diagnostic: Some(String::from("err\u{fffd}")) })
    );
}

#[test]
fn launch_install_conclude_take_plain_values() {
    let mut task = InstallTask::new(String::from("foo"));
    assert_eq!(
        task.launch(),
        Some(TaskAction::FetchMetadata { url: String::from("https://registry.npmjs.org/foo") })
    );
    assert_eq!(task.install(version("7.0.1", VersionSource::DistTag)), run_installer("foo@7.0.1"));
    assert_eq!(*task.phase(), Phase::Installing { version: version("7.0.1", VersionSource::DistTag) });
    assert_eq!(
        task.conclude(false, String::from("exit 1")),
        Some(TaskAction::Conclude { diagnostic: Some(String::from("exit 1")) })
    );
    assert_eq!(
        *task.phase(),
        Phase::Failed {
            version: version("7.0.1", VersionSource::DistTag),
            reason: String::from("exit 1"),
        }
    );
}

#[test]
fn conclude_in_success_drops_the_stderr_text() {
    let mut task = InstallTask::new(String::from("foo"));
    task.launch();
    task.install(version("1.0.0", VersionSource::DistTag));
    assert_eq!(
        task.conclude(true, String::from("npm WARN old lockfile")),
        Some(TaskAction::Conclude { diagnostic: None })
    );
    assert_eq!(task.outcome(), Some(TaskOutcome::Success(String::from("1.0.0"))));
}

#[test]
fn parts_of_a_step_out_of_turn_change_nothing() {
    let mut task = InstallTask::new(String::from("foo"));
    assert_eq!(task.install(version("1.0.0", VersionSource::DistTag)), None);
    assert_eq!(task.conclude(true, String::new()), None);
    assert_eq!(*task.phase(), Phase::Created);
    task.launch();
    assert_eq!(task.launch(), None);
    assert_eq!(task.conclude(false, String::from("x")), None);
    assert_eq!(*task.phase(), Phase::Fetching);
    task.install(version("1.0.0", VersionSource::DistTag));
    assert_eq!(task.launch(), None);
    assert_eq!(task.install(version("2.0.0", VersionSource::DistTag)), None);
    assert_eq!(*task.phase(), Phase::Installing { version: version("1.0.0", VersionSource::DistTag) });
    task.conclude(true, String::new());
    assert_eq!(task.launch(), None);
    assert_eq!(task.install(version("3.0.0", VersionSource::DistTag)), None);
    assert_eq!(task.conclude(false, String::from("late")), None);
    assert_eq!(task.outcome(), Some(TaskOutcome::Success(String::from("1.0.0"))));
    assert_eq!(task.handle().updates(), 3);
}

#[test]
fn installer_that_cannot_be_run_fails_the_task() {
    let mut task = InstallTask::new(String::from("foo"));
    task.step(TaskEvent::Launch);
    task.step(response(r#"{"dist-tags":{"latest":"2.1.0"}}"#));
    let action = task.step(TaskEvent::InstallerNotStarted {
        reason: String::from("No such file or directory (os error 2)"),
    });
    assert_eq!(
        action,
        Some(TaskAction::Conclude {
            diagnostic: Some(String::from("No such file or directory (os error 2)")),
        })
    );
    assert_eq!(
        *task.phase(),
        Phase::Failed {
            version: version("2.1.0", VersionSource::DistTag),
            reason: String::from("No such file or directory (os error 2)"),
        }
    );
    assert_eq!(
        task.outcome(),
        Some(TaskOutcome::Failure(String::from("No such file or directory (os error 2)")))
    );
    assert_eq!(task.handle().line().plain_text(), "Failed to install foo");
    assert_eq!(task.handle().updates(), 3);
    assert!(task.handle().is_finalized());
}

#[test]
fn installer_not_started_takes_the_reason_as_it_is() {
    let mut task = InstallTask::new(String::from("foo"));
    task.launch();
    task.install(version("1.0.0", VersionSource::DistTag));
    assert_eq!(
        task.installer_not_started(String::from("permission denied")),
        Some(TaskAction::Conclude { diagnostic: Some(String::from("permission denied")) })
    );
    assert_eq!(task.outcome(), Some(TaskOutcome::Failure(String::from("permission denied"))));
}

#[test]
fn installer_not_started_out_of_turn_changes_nothing() {
    let mut task = InstallTask::new(String::from("foo"));
    assert_eq!(task.installer_not_started(String::from("x")), None);
    assert_eq!(*task.phase(), Phase::Created);
    task.launch();
    assert_eq!(task.step(TaskEvent::InstallerNotStarted { reason: String::from("x") }), None);
    assert_eq!(*task.phase(), Phase::Fetching);
    task.install(version("1.0.0", VersionSource::DistTag));
    task.conclude(true, String::new());
    assert_eq!(task.installer_not_started(String::from("late")), None);
    assert_eq!(task.outcome(), Some(TaskOutcome::Success(String::from("1.0.0"))));
    assert_eq!(task.handle().updates(), 3);
}
