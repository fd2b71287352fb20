//! Progress handles: one status line per install target, written only by the
//! target's own task and closed for good once the task has ended.

use vstd::prelude::*;
use crate::status::{SegmentView, StatusLine};

verus! {

/// The status line of one target in the shared display.
///
/// A handle counts how often its line was written. Once finalized it refuses
/// every further write.
#[derive(Debug)]
pub struct ProgressHandle {
    line: StatusLine,
    updates: u64,
    finalized: bool,
}

/// Mathematical form of a [`ProgressHandle`].
pub ghost struct ProgressHandleView {
    /// The line that is currently shown.
    pub line: Seq<SegmentView>,
    /// How many times the line was written.
    pub updates: nat,
    /// Whether the handle has reached its terminal state.
    pub finalized: bool,
}

impl View for ProgressHandle {
    type V = ProgressHandleView;

    closed spec fn view(&self) -> ProgressHandleView {
        ProgressHandleView {
            line: self.line@,
            updates: self.updates as nat,
            finalized: self.finalized,
        }
    }
}

/// A handle as it is created: nothing shown, never written, open.
pub open spec fn fresh_handle() -> ProgressHandleView {
    ProgressHandleView { line: Seq::empty(), updates: 0, finalized: false }
}

/// Whether `handle` takes a further write.
pub open spec fn accepts_update(handle: ProgressHandleView) -> bool {
    !handle.finalized && handle.updates < u64::MAX
}

/// `handle` after an attempt to show `line` on it.
pub open spec fn after_message(handle: ProgressHandleView, line: Seq<SegmentView>) -> ProgressHandleView {
    if accepts_update(handle) {
        ProgressHandleView { line, updates: handle.updates + 1, finalized: false }
    } else {
        handle
    }
}

/// `handle` after an attempt to show `line` on it as its last.
pub open spec fn after_finish(handle: ProgressHandleView, line: Seq<SegmentView>) -> ProgressHandleView {
    if accepts_update(handle) {
        ProgressHandleView { line, updates: handle.updates + 1, finalized: true }
    } else {
        handle
    }
}

impl ProgressHandle {
    /// Creates a handle that shows nothing yet.
    pub fn new() -> (handle: ProgressHandle)
        ensures
            handle@ == fresh_handle(),
    {
        ProgressHandle { line: StatusLine::empty(), updates: 0, finalized: false }
    }

    /// Shows `line`. Returns whether the handle took it; a finalized handle
    /// stays as it is.
    pub fn set_message(&mut self, line: StatusLine) -> (taken: bool)
        ensures
            taken == accepts_update(old(self)@),
            final(self)@ == after_message(old(self)@, line@),
    {
        if self.finalized || self.updates == u64::MAX {
            false
        } else {
            self.line = line;
            self.updates = self.updates + 1;
            true
        }
    }

    /// Shows `line` and finalizes the handle. Returns whether the handle took
    /// it; a finalized handle stays as it is.
    pub fn finish_with_message(&mut self, line: StatusLine) -> (taken: bool)
        ensures
            taken == accepts_update(old(self)@),
            final(self)@ == after_finish(old(self)@, line@),
    {
        if self.finalized || self.updates == u64::MAX {
            false
        } else {
            self.line = line;
            self.updates = self.updates + 1;
            self.finalized = true;
            true
        }
    }

    /// The line that is currently shown.
    pub fn line(&self) -> (line: &StatusLine)
        ensures
            line@ == self@.line,
    {
        &self.line
    }

    /// How many times the line was written.
    pub fn updates(&self) -> (count: u64)
        ensures
            count == self@.updates,
    {
        self.updates
    }

    /// Whether the handle has reached its terminal state.
    pub fn is_finalized(&self) -> (finalized: bool)
        ensures
            finalized == self@.finalized,
    {
        self.finalized
    }
}

} // verus!
