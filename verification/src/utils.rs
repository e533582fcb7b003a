//! A disarmable scoped-cleanup guard: it wraps an owned value and a
//! one-shot action, and guarantees that ending the scope runs the action on
//! the value exactly once — unless the guard was disarmed first.

use vstd::prelude::*;

verus! {

/// A guard that runs a one-shot action on an owned value when its scope
/// ends, on any path, unless `forget` disarmed it first.  The wrapped value
/// stays readable and writable while the guard is armed.
pub struct DeferGuard<A, F: FnOnce(A)> {
    args: A,
    action: Option<F>,
}

impl<A, F: FnOnce(A)> DeferGuard<A, F> {
    /// Whether the action is still armed to run.
    pub closed spec fn armed(&self) -> bool {
        self.action is Some
    }

    /// The wrapped value.
    pub closed spec fn args_spec(&self) -> A {
        self.args
    }

    /// The armed action.
    pub closed spec fn action_spec(&self) -> F {
        self.action->Some_0
    }

    /// Creates a guard over `args` whose action `f` is armed.
    pub fn new(args: A, f: F) -> (r: Self)
        ensures
            r.armed(),
            r.args_spec() == args,
            r.action_spec() == f,
    {
        DeferGuard { args, action: Some(f) }
    }

    /// Disarms the guard: the action will never run, and the wrapped value
    /// is kept.
    pub fn forget(&mut self)
        ensures
            !final(self).armed(),
            final(self).args_spec() == old(self).args_spec(),
    {
        self.action = None;
    }

    /// Read access to the wrapped value.
    pub fn get(&self) -> (r: &A)
        ensures
            *r == self.args_spec(),
    {
        &self.args
    }

    /// Write access to the wrapped value; arming is unaffected.
    pub fn get_mut(&mut self) -> (r: &mut A)
        ensures
            *r == old(self).args_spec(),
            final(self).args_spec() == *final(r),
            final(self).armed() == old(self).armed(),
            final(self).armed() ==> final(self).action_spec() == old(self).action_spec(),
    {
        &mut self.args
    }

    /// Ends the guard's scope: if it is still armed, the action runs on the
    /// wrapped value, exactly once; a disarmed guard only drops the value.
    pub fn run(self)
        requires
            self.armed() ==> call_requires(self.action_spec(), (self.args_spec(),)),
        ensures
            self.armed() ==> call_ensures(self.action_spec(), (self.args_spec(),), ()),
    {
        let DeferGuard { args, action } = self;
        match action {
            Some(f) => f(args),
            None => {},
        }
    }
}

} // verus!
