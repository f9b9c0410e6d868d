//! An anonymous command built from a closure.

use vstd::prelude::*;

use crate::command::CustomCmd;

verus! {

/// An anonymous command that takes a closure as the statements to execute.
/// The goal of this command is to avoid the creation of a dedicated action
/// type for a small, one-off command.  Its `can_execute` is always true and
/// it has no memento: such commands are expected to be self-contained.
pub struct AnonCmd<F: Fn() -> ()> {
    fct: F,
}

impl<F: Fn() -> ()> AnonCmd<F> {
    /// Only a closure whose precondition is trivially satisfied can act as an
    /// anonymous command, since `execute` may run it at any time and as often
    /// as the producer asks.
    #[verifier::type_invariant]
    spec fn callable(self) -> bool {
        call_requires(self.fct, ())
    }

    /// The wrapped closure, for contracts.
    pub closed spec fn fct_view(&self) -> F {
        self.fct
    }

    pub fn new(fct: F) -> (cmd: Self)
        requires
            call_requires(fct, ()),
        ensures
            cmd.fct_view() == fct,
    {
        Self { fct }
    }
}

impl<F: Fn() -> ()> CustomCmd for AnonCmd<F> {
    open spec fn can_exec_spec(&self) -> bool {
        true
    }

    open spec fn memento_rel(&self, post: Self) -> bool {
        post == *self
    }

    open spec fn exec_rel(&self, post: Self) -> bool {
        post == *self
    }

    fn create_memento(&mut self) {
    }

    fn can_execute(&self) -> bool {
        true
    }

    /// One `execute` call invokes the wrapped closure exactly once, so its
    /// postcondition holds on return.
    fn execution(&mut self)
        ensures
            *final(self) == *old(self),
            call_ensures(old(self).fct_view(), (), ()),
    {
        proof {
            use_type_invariant(&*self);
        }
        (self.fct)()
    }
}

} // verus!
