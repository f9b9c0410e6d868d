//! The ready-made undo and redo commands.

use vstd::prelude::*;

use crate::command::CustomCmd;
use crate::undohistory::{
    UndoHistoryBase, redos_after_redo, redos_after_undo, undos_after_redo, undos_after_undo,
};

verus! {

/// A command that undoes the last undoable object of the history it wraps.
pub struct Undo<H: UndoHistoryBase> {
    history: H,
}

impl<H: UndoHistoryBase> Undo<H> {
    /// The wrapped history, for contracts.
    pub closed spec fn history_view(&self) -> H {
        self.history
    }

    pub fn new(history: H) -> (cmd: Self)
        ensures
            cmd.history_view() == history,
    {
        Self { history }
    }
}

impl<H: UndoHistoryBase> CustomCmd for Undo<H> {
    /// The undo command is executable exactly when the history still holds
    /// an entry to undo.
    open spec fn can_exec_spec(&self) -> bool {
        self.history_view().undos_view().len() > 0
    }

    open spec fn memento_rel(&self, post: Self) -> bool {
        post == *self
    }

    /// Running the command performs one `undo` step of the history.
    open spec fn exec_rel(&self, post: Self) -> bool {
        &&& post.history_view().undos_view() == undos_after_undo(
            self.history_view().undos_view(),
        )
        &&& post.history_view().redos_view() == redos_after_undo(
            self.history_view().undos_view(),
            self.history_view().redos_view(),
        )
        &&& post.history_view().size_max_view() == self.history_view().size_max_view()
    }

    fn create_memento(&mut self) {
    }

    fn can_execute(&self) -> bool {
        self.history.get_last_undo().is_some()
    }

    fn execution(&mut self) {
        self.history.undo()
    }
}

/// A command that redoes the last redoable object of the history it wraps.
pub struct Redo<H: UndoHistoryBase> {
    history: H,
}

impl<H: UndoHistoryBase> Redo<H> {
    /// The wrapped history, for contracts.
    pub closed spec fn history_view(&self) -> H {
        self.history
    }

    pub fn new(history: H) -> (cmd: Self)
        ensures
            cmd.history_view() == history,
    {
        Self { history }
    }
}

impl<H: UndoHistoryBase> CustomCmd for Redo<H> {
    /// The redo command is executable exactly when the history still holds
    /// an entry to redo.
    open spec fn can_exec_spec(&self) -> bool {
        self.history_view().redos_view().len() > 0
    }

    open spec fn memento_rel(&self, post: Self) -> bool {
        post == *self
    }

    /// Running the command performs one `redo` step of the history.
    open spec fn exec_rel(&self, post: Self) -> bool {
        &&& post.history_view().undos_view() == undos_after_redo(
            self.history_view().undos_view(),
            self.history_view().redos_view(),
        )
        &&& post.history_view().redos_view() == redos_after_redo(
            self.history_view().redos_view(),
        )
        &&& post.history_view().size_max_view() == self.history_view().size_max_view()
    }

    fn create_memento(&mut self) {
    }

    fn can_execute(&self) -> bool {
        self.history.get_last_redo().is_some()
    }

    fn execution(&mut self) {
        self.history.redo()
    }
}

} // verus!
