//! A minimal action used to exercise the command state machine.

use vstd::prelude::*;

use crate::command::{CmdStatus, CommandView, CustomCmd, executable_status, execute_rel};

verus! {

/// A minimal action for exercising `Command`: it counts how many times its
/// body has run and can be told to refuse execution.
pub struct StubCmd {
    pub can_do_value: bool,
    pub exec_count: u32,
    pub effects: bool,
}

impl Default for StubCmd {
    fn default() -> (r: StubCmd)
        ensures
            r.can_do_value,
            r.exec_count == 0,
            r.effects,
    {
        StubCmd::new(true)
    }
}

impl StubCmd {
    pub fn new(can_do_value: bool) -> (r: Self)
        ensures
            r.can_do_value == can_do_value,
            r.exec_count == 0,
            r.effects,
    {
        Self { can_do_value, exec_count: 0, effects: true }
    }
}

impl CustomCmd for StubCmd {
    open spec fn can_exec_spec(&self) -> bool {
        self.can_do_value
    }

    open spec fn memento_rel(&self, post: Self) -> bool {
        post == *self
    }

    open spec fn exec_rel(&self, post: Self) -> bool {
        post == (StubCmd {
            exec_count: if self.exec_count == u32::MAX {
                0
            } else {
                (self.exec_count + 1) as u32
            },
            ..*self
        })
    }

    fn create_memento(&mut self) {
    }

    fn can_execute(&self) -> bool {
        self.can_do_value
    }

    fn execution(&mut self) {
        if self.exec_count == u32::MAX {
            self.exec_count = 0;
        } else {
            self.exec_count = self.exec_count + 1;
        }
    }
}

/// Law: while a command stays eligible, every `execute` call runs the action
/// once more.  Across two consecutive calls on a stub whose counter does not
/// wrap, both calls succeed, the status is `Executed` after each of them, and
/// the counter grows by exactly one per call.
pub proof fn lemma_repeated_execution(
    c0: CommandView<StubCmd>,
    c1: CommandView<StubCmd>,
    c2: CommandView<StubCmd>,
    ok1: bool,
    ok2: bool,
)
    requires
        executable_status(c0.status),
        c0.child.can_do_value,
        c0.child.exec_count + 2 <= u32::MAX,
        execute_rel(c0, c1, ok1),
        execute_rel(c1, c2, ok2),
    ensures
        ok1,
        ok2,
        c1.status == CmdStatus::Executed,
        c2.status == CmdStatus::Executed,
        c1.child.exec_count == c0.child.exec_count + 1,
        c2.child.exec_count == c0.child.exec_count + 2,
{
}

} // verus!
