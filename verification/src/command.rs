//! The command status state machine.

use vstd::prelude::*;

use crate::undoble::Undoable;

verus! {

/// The different states of a command.
#[derive(PartialEq, Eq, Structural, Clone, Copy, Debug)]
pub enum CmdStatus {
    /// The command has been cancelled.
    Cancelled,
    /// The command has been created but not executed yet.
    Created,
    /// The command has been marked as done.
    Done,
    /// The command has been created and executed at least one time.
    Executed,
    /// The command has been flushed: it must not be used any more.
    Flushed,
}

/// The capability a domain action implements so that a `Command` can drive it.
///
/// The three spec functions pin the action's behaviour down: what its
/// `can_execute` predicate answers, and how the memento capture and one run
/// of its body may change its state.  The executable operations are required
/// to behave exactly as those spec functions say, which is what lets
/// `Command::execute` state its own contract for any action.
pub trait CustomCmd: Sized {
    /// Whether the action currently accepts to be executed; true unless the
    /// action says otherwise.
    open spec fn can_exec_spec(&self) -> bool {
        true
    }

    /// How the memento capture may change the action's state; unless the
    /// action says otherwise, it changes nothing.
    open spec fn memento_rel(&self, post: Self) -> bool {
        post == *self
    }

    /// How one run of the action's body may change its state; unspecified
    /// unless the action says more.
    open spec fn exec_rel(&self, post: Self) -> bool {
        true
    }

    /// Actions may need to create a memento before their first execution.
    /// This operation is called a single time, before the first execution of
    /// the command, and never again on later re-executions.
    fn create_memento(&mut self)
        ensures
            old(self).memento_rel(*final(self)),
    ;

    fn can_execute(&self) -> (r: bool)
        ensures
            r == self.can_exec_spec(),
    ;

    /// The statements that perform the action.  This operation is called by
    /// `Command::execute` and must not be called explicitly.
    fn execution(&mut self)
        ensures
            old(self).exec_rel(*final(self)),
    ;
}

/// A command is produced and executed in reaction to a user interaction.
/// It follows the command design pattern: it wraps an arbitrary executable
/// action behind a status state machine.  The `Undoable` capability can be
/// used to add undo/redo features to a command.
pub struct Command<T: CustomCmd> {
    status: CmdStatus,
    pub child: T,
}

/// The mathematical model of a command: its status and the state of the
/// wrapped action.
pub struct CommandView<T> {
    pub status: CmdStatus,
    pub child: T,
}

impl<T: CustomCmd> View for Command<T> {
    type V = CommandView<T>;

    closed spec fn view(&self) -> CommandView<T> {
        CommandView { status: self.status, child: self.child }
    }
}

/// The statuses from which a command may still be executed or marked done.
pub open spec fn executable_status(s: CmdStatus) -> bool {
    s == CmdStatus::Created || s == CmdStatus::Executed
}

/// The status a command reaches when `done` is called on it: `Done` from
/// `Created` or `Executed`, otherwise the status is left as it is.
pub open spec fn status_after_done(s: CmdStatus) -> CmdStatus {
    if executable_status(s) {
        CmdStatus::Done
    } else {
        s
    }
}

/// How one `execute` call relates the command before the call, the command
/// after it, and the returned flag: the call succeeds exactly when the status
/// allows execution and the action agrees; on success the status becomes
/// `Executed` and the action runs, with the memento captured first if and
/// only if the command had never been executed; on refusal nothing changes.
pub open spec fn execute_rel<T: CustomCmd>(
    pre: CommandView<T>,
    post: CommandView<T>,
    ok: bool,
) -> bool {
    &&& ok == (executable_status(pre.status) && pre.child.can_exec_spec())
    &&& !ok ==> post == pre
    &&& ok ==> post.status == CmdStatus::Executed
    &&& (ok && pre.status == CmdStatus::Created) ==> exists|mid: T|
        pre.child.memento_rel(mid) && #[trigger] mid.exec_rel(post.child)
    &&& (ok && pre.status == CmdStatus::Executed) ==> pre.child.exec_rel(post.child)
}

impl<T: CustomCmd> Command<T> {
    /// Whether the command reports an observable effect: exactly in `Done`.
    pub open spec fn had_effect_spec(&self) -> bool {
        self@.status == CmdStatus::Done
    }

    /// A fresh command starts in `Created` and reports no effect yet.
    pub fn new(child_cmd: T) -> (cmd: Self)
        ensures
            cmd@.status == CmdStatus::Created,
            !cmd.had_effect_spec(),
            cmd@.child == child_cmd,
    {
        Self { status: CmdStatus::Created, child: child_cmd }
    }

    pub fn get_status(&self) -> (s: CmdStatus)
        ensures
            s == self@.status,
    {
        self.status
    }

    pub fn set_status(&mut self, new_status: CmdStatus)
        ensures
            final(self)@.status == new_status,
            final(self)@.child == old(self)@.child,
    {
        self.status = new_status
    }

    /// Runs the wrapped action if the command is still in an executable
    /// status and the action agrees; see `execute_rel` for the exact
    /// relation between the old state, the new state and the result.
    pub fn execute(&mut self) -> (ok: bool)
        ensures
            execute_rel(old(self)@, final(self)@, ok),
    {
        let ok: bool;
        let status = self.get_status();
        if (status == CmdStatus::Created || status == CmdStatus::Executed)
            && self.child.can_execute() {
            if status == CmdStatus::Created {
                self.child.create_memento();
            }
            ok = true;
            self.execution();
            self.set_status(CmdStatus::Executed);
        } else {
            ok = false;
        }
        ok
    }

    /// Captures the state the action needs for a later undo.  This operation
    /// is called by `execute` a single time, before the first execution.
    pub fn create_memento(&mut self)
        ensures
            old(self)@.child.memento_rel(final(self)@.child),
            final(self)@.status == old(self)@.status,
    {
        self.child.create_memento()
    }

    pub fn can_execute(&self) -> (r: bool)
        ensures
            r == self@.child.can_exec_spec(),
    {
        self.child.can_execute()
    }

    /// Runs the action's body.  This operation is called by `execute` and
    /// must not be called explicitly.
    pub fn execution(&mut self)
        ensures
            old(self)@.child.exec_rel(final(self)@.child),
            final(self)@.status == old(self)@.status,
    {
        self.child.execution()
    }

    /// Marks the command as done, so that a producer can register it with an
    /// undo history: `Done` from `Created` or `Executed`, a no-op from any
    /// other status.
    pub fn done(&mut self)
        ensures
            final(self)@.status == status_after_done(old(self)@.status),
            final(self)@.child == old(self)@.child,
    {
        if self.get_status() == CmdStatus::Created || self.get_status() == CmdStatus::Executed {
            self.set_status(CmdStatus::Done);
        }
    }

    /// Flushes the command.  The command must not be used after that.
    pub fn flush(&mut self)
        ensures
            final(self)@.status == CmdStatus::Flushed,
            final(self)@.child == old(self)@.child,
    {
        self.set_status(CmdStatus::Flushed)
    }

    pub fn had_effect(&self) -> (r: bool)
        ensures
            r == self.had_effect_spec(),
    {
        self.is_done()
    }

    pub fn is_done(&self) -> (r: bool)
        ensures
            r == self.had_effect_spec(),
    {
        self.get_status() == CmdStatus::Done
    }

    pub fn cancel(&mut self)
        ensures
            final(self)@.status == CmdStatus::Cancelled,
            final(self)@.child == old(self)@.child,
    {
        self.set_status(CmdStatus::Cancelled)
    }
}

/// Law: flushing is absorbing.  From `Flushed`, `execute` can only refuse and
/// leave the command unchanged, and `done` keeps the status `Flushed`.
pub proof fn lemma_flush_absorbing<T: CustomCmd>(
    pre: CommandView<T>,
    post: CommandView<T>,
    ok: bool,
)
    requires
        pre.status == CmdStatus::Flushed,
        execute_rel(pre, post, ok),
    ensures
        !ok,
        post == pre,
        status_after_done(pre.status) == CmdStatus::Flushed,
{
}

/// Law: cancelling is absorbing.  From `Cancelled`, `execute` can only refuse
/// and leave the command unchanged, and `done` keeps the status `Cancelled`.
pub proof fn lemma_cancel_absorbing<T: CustomCmd>(
    pre: CommandView<T>,
    post: CommandView<T>,
    ok: bool,
)
    requires
        pre.status == CmdStatus::Cancelled,
        execute_rel(pre, post, ok),
    ensures
        !ok,
        post == pre,
        status_after_done(pre.status) == CmdStatus::Cancelled,
{
}

/// A command whose action is also reversible.
pub trait UndoableCommand: CustomCmd + Undoable {
}

} // verus!
