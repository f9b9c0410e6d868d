//! A single-timeline implementation of the undo history.

use vstd::prelude::*;

use crate::undoble::Undoable;
use crate::undohistory::{
    UndoHistory, UndoHistoryBase, redos_after_redo, redos_after_undo, undos_after_add,
    undos_after_redo, undos_after_undo,
};

verus! {

/// An undo history that stores one linear timeline of undoable objects:
/// an undo stack and a redo stack, both bounded by `size_max` through the
/// eviction policy of `add` and the trimming of `set_size_max`.
pub struct LinearHistoryImpl<U: Undoable> {
    /// Contains the undoable objects, oldest first.
    undos: Vec<U>,
    /// Contains the redoable objects, oldest first.
    redos: Vec<U>,
    /// The maximal number of undo.
    size_max: u64,
}

impl<U: Undoable> LinearHistoryImpl<U> {
    /// A fresh history is empty and retains at most 100 entries.
    pub fn new() -> (h: Self)
        ensures
            h.undos_view() == Seq::<U>::empty(),
            h.redos_view() == Seq::<U>::empty(),
            h.size_max_view() == 100u64,
    {
        Self { size_max: 100, undos: Vec::new(), redos: Vec::new() }
    }
}

impl<U: Undoable> UndoHistoryBase for LinearHistoryImpl<U> {
    type Item = U;

    closed spec fn undos_view(&self) -> Seq<U> {
        self.undos@
    }

    closed spec fn redos_view(&self) -> Seq<U> {
        self.redos@
    }

    closed spec fn size_max_view(&self) -> u64 {
        self.size_max
    }

    fn undo(&mut self) {
        if self.undos.len() > 0 {
            let mut entry = self.undos.pop().unwrap();
            entry.undo();
            self.redos.push(entry);
            proof {
                assert(self.undos@ =~= undos_after_undo(old(self).undos@));
            }
        }
    }

    fn redo(&mut self) {
        if self.redos.len() > 0 {
            let mut entry = self.redos.pop().unwrap();
            entry.redo();
            self.undos.push(entry);
            proof {
                assert(self.redos@ =~= redos_after_redo(old(self).redos@));
            }
        }
    }

    fn clear(&mut self) {
        self.undos.clear();
        self.redos.clear();
    }

    fn add(&mut self, undoable: U) {
        self.redos.clear();
        if self.undos.len() as u64 >= self.size_max {
            self.undos.remove(0);
            proof {
                assert(self.undos@ =~= old(self).undos@.drop_first());
            }
        }
        self.undos.push(undoable);
    }

    fn get_last_undo(&self) -> Option<&U> {
        self.undos.as_slice().last()
    }

    fn get_last_redo(&self) -> Option<&U> {
        self.redos.as_slice().last()
    }
}

impl<U: Undoable> UndoHistory for LinearHistoryImpl<U> {
    fn get_undo(&self) -> &Vec<U> {
        &self.undos
    }

    fn get_redo(&self) -> &Vec<U> {
        &self.redos
    }

    fn get_size_max(&self) -> u64 {
        self.size_max
    }

    fn set_size_max(&mut self, max: u64) {
        self.size_max = max;
        while self.undos.len() as u64 > max
            invariant
                self.size_max == max,
                self.redos@ == old(self).redos@,
                self.undos@.len() <= old(self).undos@.len(),
                self.undos@ == old(self).undos@.subrange(
                    old(self).undos@.len() - self.undos@.len(),
                    old(self).undos@.len() as int,
                ),
                self.undos@.len() >= max as nat || self.undos@.len() == old(self).undos@.len(),
            decreases self.undos.len(),
        {
            self.undos.remove(0);
            proof {
                assert(self.undos@ =~= old(self).undos@.subrange(
                    old(self).undos@.len() - self.undos@.len(),
                    old(self).undos@.len() as int,
                ));
            }
        }
        proof {
            if old(self).undos@.len() <= max as nat {
                assert(self.undos@ =~= old(self).undos@);
            } else {
                assert(self.undos@ =~= old(self).undos@.skip(old(self).undos@.len() - max));
            }
        }
    }
}

} // verus!
