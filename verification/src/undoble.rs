//! The capability of reversible effects.

use vstd::prelude::*;

verus! {

/// The capability an object implements so that its effect can be reversed
/// (`undo`) and reapplied (`redo`).
///
/// The two spec functions pin both operations down as functions of the
/// object's own state, so that an undo history can say exactly which value
/// each of its operations moves between its stacks.
pub trait Undoable: Sized {
    /// The state of the object after `undo`; unless the object says
    /// otherwise, its own state does not change.
    open spec fn undo_spec(&self) -> Self {
        *self
    }

    /// The state of the object after `redo`; unless the object says
    /// otherwise, its own state does not change.
    open spec fn redo_spec(&self) -> Self {
        *self
    }

    /// The human-readable name of the undo command; empty unless the object
    /// says otherwise.
    open spec fn undo_name_spec(&self) -> Seq<char> {
        Seq::empty()
    }

    /// Cancels the effect of the command.
    fn undo(&mut self)
        ensures
            *final(self) == old(self).undo_spec(),
    ;

    /// Redoes the cancelled effect of the command.
    fn redo(&mut self)
        ensures
            *final(self) == old(self).redo_spec(),
    ;

    /// Returns the name of the undo command.
    fn get_undo_name(&self) -> (r: String)
        ensures
            r@ == self.undo_name_spec(),
    ;
}

} // verus!
