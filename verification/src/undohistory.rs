//! The traits of undo histories.

use vstd::prelude::*;

use crate::undoble::Undoable;

verus! {

/// The undo stack after an `undo`: the most recent entry leaves, or nothing
/// changes when the stack is empty.
pub open spec fn undos_after_undo<U: Undoable>(undos: Seq<U>) -> Seq<U> {
    if undos.len() > 0 {
        undos.drop_last()
    } else {
        undos
    }
}

/// The redo stack after an `undo`: it receives the entry that left the undo
/// stack, with that entry's own undo effect applied; nothing changes when
/// the undo stack is empty.
pub open spec fn redos_after_undo<U: Undoable>(undos: Seq<U>, redos: Seq<U>) -> Seq<U> {
    if undos.len() > 0 {
        redos.push(undos.last().undo_spec())
    } else {
        redos
    }
}

/// The undo stack after a `redo`: it receives the entry that leaves the redo
/// stack, with that entry's own redo effect applied; nothing changes when
/// the redo stack is empty.
pub open spec fn undos_after_redo<U: Undoable>(undos: Seq<U>, redos: Seq<U>) -> Seq<U> {
    if redos.len() > 0 {
        undos.push(redos.last().redo_spec())
    } else {
        undos
    }
}

/// The redo stack after a `redo`: the most recent entry leaves, or nothing
/// changes when the stack is empty.
pub open spec fn redos_after_redo<U: Undoable>(redos: Seq<U>) -> Seq<U> {
    if redos.len() > 0 {
        redos.drop_last()
    } else {
        redos
    }
}

/// The undo stack after an `add`: the new entry is pushed on top; when the
/// stack is at (or beyond) its capacity, the oldest entry is evicted first.
pub open spec fn undos_after_add<U: Undoable>(undos: Seq<U>, entry: U, size_max: u64) -> Seq<U> {
    if undos.len() < size_max as nat {
        undos.push(entry)
    } else {
        undos.drop_first().push(entry)
    }
}

/// The base trait for undo histories: an ordered, size-bounded store of
/// undoable objects split into an undo stack and a redo stack, both modelled
/// oldest first.
pub trait UndoHistoryBase: Sized {
    /// The type of the reversible entries the history stores.
    type Item: Undoable;

    /// The undo stack, oldest entry first; empty unless the history says
    /// otherwise.
    open spec fn undos_view(&self) -> Seq<Self::Item> {
        Seq::empty()
    }

    /// The redo stack, oldest entry first; empty unless the history says
    /// otherwise.
    open spec fn redos_view(&self) -> Seq<Self::Item> {
        Seq::empty()
    }

    /// The maximal number of entries the undo stack may hold; the default
    /// bound unless the history says otherwise.
    open spec fn size_max_view(&self) -> u64 {
        100
    }

    /// Undoes the last undoable object: the top undo entry is removed, its
    /// `undo` runs, and the result moves onto the redo stack.  A no-op when
    /// the undo stack is empty.
    fn undo(&mut self)
        ensures
            final(self).undos_view() == undos_after_undo(old(self).undos_view()),
            final(self).redos_view() == redos_after_undo(
                old(self).undos_view(),
                old(self).redos_view(),
            ),
            final(self).size_max_view() == old(self).size_max_view(),
    ;

    /// Redoes the last undoable object: the top redo entry is removed, its
    /// `redo` runs, and the result moves back onto the undo stack.  A no-op
    /// when the redo stack is empty.
    fn redo(&mut self)
        ensures
            final(self).undos_view() == undos_after_redo(
                old(self).undos_view(),
                old(self).redos_view(),
            ),
            final(self).redos_view() == redos_after_redo(old(self).redos_view()),
            final(self).size_max_view() == old(self).size_max_view(),
    ;

    /// Removes all the undoable objects of the history.
    fn clear(&mut self)
        ensures
            final(self).undos_view() == Seq::<Self::Item>::empty(),
            final(self).redos_view() == Seq::<Self::Item>::empty(),
            final(self).size_max_view() == old(self).size_max_view(),
    ;

    /// Adds an undoable object to the history, evicting the oldest entry
    /// when the undo stack is at capacity, and clears the redo stack: a new
    /// entry opens a new linear branch of history, which invalidates any
    /// forward history.
    fn add(&mut self, undoable: Self::Item)
        requires
            old(self).size_max_view() >= 1,
        ensures
            final(self).undos_view() == undos_after_add(
                old(self).undos_view(),
                undoable,
                old(self).size_max_view(),
            ),
            final(self).redos_view() == Seq::<Self::Item>::empty(),
            final(self).size_max_view() == old(self).size_max_view(),
    ;

    /// Returns the last undoable object, or `None` exactly when the undo
    /// stack is empty.
    fn get_last_undo(&self) -> (r: Option<&Self::Item>)
        ensures
            r is Some <==> self.undos_view().len() > 0,
            r matches Some(u) ==> *u == self.undos_view().last(),
    ;

    /// Returns the last redoable object, or `None` exactly when the redo
    /// stack is empty.
    fn get_last_redo(&self) -> (r: Option<&Self::Item>)
        ensures
            r is Some <==> self.redos_view().len() > 0,
            r matches Some(u) ==> *u == self.redos_view().last(),
    ;
}

/// Snapshot and configuration operations of undo histories.
pub trait UndoHistory: UndoHistoryBase {
    /// Returns the stack of saved undoable objects, oldest first.
    fn get_undo(&self) -> (r: &Vec<Self::Item>)
        ensures
            r@ == self.undos_view(),
    ;

    /// Returns the stack of saved redoable objects, oldest first.
    fn get_redo(&self) -> (r: &Vec<Self::Item>)
        ensures
            r@ == self.redos_view(),
    ;

    /// Returns the max number of saved undoable objects.
    fn get_size_max(&self) -> (r: u64)
        ensures
            r == self.size_max_view(),
    ;

    /// Sets the max number of saved undoable objects, which must be
    /// positive.  When the undo stack is longer than the new bound it is
    /// trimmed from the oldest end until the bound holds again.
    fn set_size_max(&mut self, max: u64)
        requires
            max >= 1,
        ensures
            final(self).size_max_view() == max,
            final(self).redos_view() == old(self).redos_view(),
            final(self).undos_view() == (if old(self).undos_view().len() <= max as nat {
                old(self).undos_view()
            } else {
                old(self).undos_view().skip(old(self).undos_view().len() - max)
            }),
    ;
}

/// Law: an `add` keeps the undo stack within its bound.  Below the bound the
/// stack grows by one; at the bound the oldest entry is evicted and the
/// length stays exactly at the bound; in both cases the new entry ends on
/// top.
pub proof fn lemma_add_bounded<U: Undoable>(undos: Seq<U>, entry: U, size_max: u64)
    requires
        size_max >= 1,
        undos.len() <= size_max as nat,
    ensures
        undos_after_add(undos, entry, size_max).len() <= size_max as nat,
        undos_after_add(undos, entry, size_max).last() == entry,
        undos.len() < size_max as nat ==> undos_after_add(undos, entry, size_max) == undos.push(
            entry,
        ),
        undos.len() == size_max as nat ==> undos_after_add(undos, entry, size_max)
            == undos.drop_first().push(entry) && undos_after_add(undos, entry, size_max).len()
            == size_max as nat,
{
}

/// Law: an `undo` followed immediately by a `redo` restores the undo stack:
/// its length is the one before the `undo`, the entries below the top are
/// untouched, and on top stands the same entry, carried through its own undo
/// and redo effects.
pub proof fn lemma_undo_then_redo<U: Undoable>(undos: Seq<U>, redos: Seq<U>)
    requires
        undos.len() > 0,
    ensures
        ({
            let undos_mid = undos_after_undo(undos);
            let redos_mid = redos_after_undo(undos, redos);
            let undos_back = undos_after_redo(undos_mid, redos_mid);
            &&& undos_back.len() == undos.len()
            &&& undos_back.last() == undos.last().undo_spec().redo_spec()
            &&& undos_back.drop_last() == undos.drop_last()
        }),
{
    assert(undos_after_redo(undos_after_undo(undos), redos_after_undo(undos, redos)).drop_last()
        =~= undos.drop_last());
}

/// Law: a `redo` followed immediately by an `undo` restores the redo stack:
/// its length is the one before the `redo`, the entries below the top are
/// untouched, and on top stands the same entry, carried through its own redo
/// and undo effects.
pub proof fn lemma_redo_then_undo<U: Undoable>(undos: Seq<U>, redos: Seq<U>)
    requires
        redos.len() > 0,
    ensures
        ({
            let undos_mid = undos_after_redo(undos, redos);
            let redos_mid = redos_after_redo(redos);
            let redos_back = redos_after_undo(undos_mid, redos_mid);
            &&& redos_back.len() == redos.len()
            &&& redos_back.last() == redos.last().redo_spec().undo_spec()
            &&& redos_back.drop_last() == redos.drop_last()
        }),
{
    assert(redos_after_undo(undos_after_redo(undos, redos), redos_after_redo(redos)).drop_last()
        =~= redos.drop_last());
}

} // verus!
