//! Command execution lifecycle and undo/redo history engine.
//!
//! Every user-triggered action is wrapped in a [`command::Command`], a status
//! state machine around a type implementing the [`command::CustomCmd`]
//! capability.  Commands whose action also implements [`undoble::Undoable`]
//! can be stored in a bounded, linear undo/redo history
//! ([`linearhistory::LinearHistoryImpl`]) so that their effect can later be
//! reversed or reapplied, either directly or through the ready-made
//! [`undo::Undo`] and [`undo::Redo`] commands.

pub mod anoncmd;
pub mod command;
pub mod linearhistory;
pub mod stubcmd;
pub mod undo;
pub mod undoble;
pub mod undohistory;
