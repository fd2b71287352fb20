use hyperpm::initializer::{InitAction, InitError, InitEvent, InitPhase, ProjectInit};
use hyperpm::status::created_line;

fn refused(reason: &str) -> InitEvent {
    InitEvent::DirectoryRefused { reason: String::from(reason) }
}

fn is_scaffold(action: &Option<InitAction>) -> bool {
    matches!(action, Some(InitAction::RunScaffold { .. }))
}

#[test]
fn new_creation_has_done_nothing() {
    let init = ProjectInit::new(String::from("demo"));
    assert_eq!(init.name(), "demo");
    assert_eq!(*init.phase(), InitPhase::Pending);
    assert_eq!(init.result(), None);
}

#[test]
fn creation_makes_the_directory_then_scaffolds() {
    let mut init = ProjectInit::new(String::from("demo"));
    assert_eq!(
        init.step(InitEvent::Begin),
        Some(InitAction::MakeDirectory { name: String::from("demo") })
    );
    assert_eq!(*init.phase(), InitPhase::MakingDirectory);
    assert_eq!(init.result(), None);
    assert_eq!(
        init.step(InitEvent::DirectoryCreated),
        Some(InitAction::RunScaffold {
            program: String::from("npm"),
            arguments: vec![String::from("init"), String::from("-y")],
            directory: String::from("demo"),
        })
    );
    assert_eq!(*init.phase(), InitPhase::Scaffolding);
    assert_eq!(init.result(), None);
    let action = init.step(InitEvent::ScaffoldExited { success: true });
    assert_eq!(action, Some(InitAction::Announce { line: created_line("demo") }));
    match action {
        Some(InitAction::Announce { line }) => {
            assert_eq!(line.plain_text(), "Project demo created successfully!")
        }
        other => panic!("unexpected action: {:?}", other),
    }
    assert_eq!(*init.phase(), InitPhase::Done);
    assert_eq!(init.result(), Some(Ok(())));
}

#[test]
fn existing_directory_fails_before_any_tool_is_run() {
    let mut init = ProjectInit::new(String::from("demo"));
    let first = init.step(InitEvent::Begin);
    assert!(!is_scaffold(&first));
    let error = InitError::DirectoryNotCreated { reason: String::from("File exists (os error 17)") };
    let second = init.step(refused("File exists (os error 17)"));
    assert_eq!(second, Some(InitAction::Abort { error: error.clone() }));
    assert_eq!(*init.phase(), InitPhase::Failed { error: error.clone() });
    assert_eq!(init.result(), Some(Err(error.clone())));

    let later = vec![
        InitEvent::DirectoryCreated,
        InitEvent::Begin,
        InitEvent::ScaffoldExited { success: true },
        InitEvent::ScaffoldNotStarted { reason: String::from("x") },
        refused("again"),
        InitEvent::DirectoryCreated,
    ];
    for event in later {
        assert_eq!(init.step(event), None);
        assert_eq!(init.result(), Some(Err(error.clone())));
    }
}

#[test]
fn name_is_taken_as_it_is() {
    let mut init = ProjectInit::new(String::new());
    assert_eq!(init.step(InitEvent::Begin), Some(InitAction::MakeDirectory { name: String::new() }));
    let mut init = ProjectInit::new(String::from("a/b c"));
    assert_eq!(
        init.step(InitEvent::Begin),
        Some(InitAction::MakeDirectory { name: String::from("a/b c") })
    );
}

#[test]
fn failed_scaffold_is_a_fatal_error() {
    let mut init = ProjectInit::new(String::from("demo"));
    init.step(InitEvent::Begin);
    init.step(InitEvent::DirectoryCreated);
    assert_eq!(
        init.step(InitEvent::ScaffoldExited { success: false }),
        Some(InitAction::Abort { error: InitError::ScaffoldFailed })
    );
    assert_eq!(*init.phase(), InitPhase::Failed { error: InitError::ScaffoldFailed });
    assert_eq!(init.result(), Some(Err(InitError::ScaffoldFailed)));
}

#[test]
fn scaffold_that_cannot_start_is_a_fatal_error() {
    let mut init = ProjectInit::new(String::from("demo"));
    init.step(InitEvent::Begin);
    init.step(InitEvent::DirectoryCreated);
    let error = InitError::ScaffoldNotStarted { reason: String::from("No such file or directory") };
    assert_eq!(
        init.step(InitEvent::ScaffoldNotStarted { reason: String::from("No such file or directory") }),
        Some(InitAction::Abort { error: error.clone() })
    );
    assert_eq!(init.result(), Some(Err(error)));
}

#[test]
fn init_events_out_of_turn_change_nothing() {
    let mut init = ProjectInit::new(String::from("demo"));
    assert_eq!(init.step(InitEvent::DirectoryCreated), None);
    assert_eq!(init.step(refused("early")), None);
    assert_eq!(init.step(InitEvent::ScaffoldExited { success: true }), None);
    assert_eq!(*init.phase(), InitPhase::Pending);

    init.step(InitEvent::Begin);
    assert_eq!(init.step(InitEvent::Begin), None);
    assert_eq!(init.step(InitEvent::ScaffoldExited { success: true }), None);
    assert_eq!(init.step(InitEvent::ScaffoldNotStarted { reason: String::new() }), None);
    assert_eq!(*init.phase(), InitPhase::MakingDirectory);

    init.step(InitEvent::DirectoryCreated);
    assert_eq!(init.step(InitEvent::DirectoryCreated), None);
    assert_eq!(init.step(refused("late")), None);
    assert_eq!(init.step(InitEvent::Begin), None);
    assert_eq!(*init.phase(), InitPhase::Scaffolding);
}

#[test]
fn finished_creation_takes_no_further_event() {
    let mut init = ProjectInit::new(String::from("demo"));
    init.step(InitEvent::Begin);
    init.step(InitEvent::DirectoryCreated);
    init.step(InitEvent::ScaffoldExited { success: true });
    assert_eq!(init.step(InitEvent::Begin), None);
    assert_eq!(init.step(InitEvent::DirectoryCreated), None);
    assert_eq!(init.step(InitEvent::ScaffoldExited { success: false }), None);
    assert_eq!(init.result(), Some(Ok(())));
}

#[test]
fn init_error_clone_is_equal() {
    let errors = vec![
        InitError::DirectoryNotCreated { reason: String::from("exists") },
        InitError::ScaffoldNotStarted { reason: String::from("missing") },
        InitError::ScaffoldFailed,
    ];
    for error in errors {
        assert_eq!(error.clone(), error);
    }
}

#[test]
fn init_errors_are_described() {
    assert_eq!(
        InitError::DirectoryNotCreated { reason: String::from("File exists (os error 17)") }.describe(),
        "cannot create the project directory: File exists (os error 17)"
    );
    assert_eq!(
        InitError::ScaffoldNotStarted { reason: String::from("not found") }.describe(),
        "cannot run the scaffolding tool: not found"
    );
    assert_eq!(InitError::ScaffoldFailed.describe(), "the scaffolding tool did not succeed");
}
