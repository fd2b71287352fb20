use hyperpm::progress::ProgressHandle;
use hyperpm::status::{failure_line, fetching_line, installing_line, success_line, StatusLine};

#[test]
fn new_handle_shows_nothing() {
    let handle = ProgressHandle::new();
    assert_eq!(handle.updates(), 0);
    assert!(!handle.is_finalized());
    assert_eq!(*handle.line(), StatusLine::empty());
}

#[test]
fn set_message_replaces_the_line_and_counts() {
    let mut handle = ProgressHandle::new();
    assert!(handle.set_message(fetching_line("foo")));
    assert_eq!(handle.updates(), 1);
    assert_eq!(*handle.line(), fetching_line("foo"));
    assert!(handle.set_message(installing_line("foo", "1.0.0")));
    assert_eq!(handle.updates(), 2);
    assert_eq!(*handle.line(), installing_line("foo", "1.0.0"));
    assert!(!handle.is_finalized());
}

#[test]
fn finish_finalizes_the_handle() {
    let mut handle = ProgressHandle::new();
    assert!(handle.finish_with_message(success_line("foo", "1.0.0")));
    assert!(handle.is_finalized());
    assert_eq!(handle.updates(), 1);
    assert_eq!(*handle.line(), success_line("foo", "1.0.0"));
}

#[test]
fn finalized_handle_refuses_every_write() {
    let mut handle = ProgressHandle::new();
    assert!(handle.set_message(fetching_line("foo")));
    assert!(handle.finish_with_message(failure_line("foo")));
    assert!(!handle.set_message(fetching_line("foo")));
    assert!(!handle.finish_with_message(success_line("foo", "1.0.0")));
    assert!(handle.is_finalized());
    assert_eq!(handle.updates(), 2);
    assert_eq!(*handle.line(), failure_line("foo"));
}
