//! The start and stop bookkeeping of the service bundles: which running task
//! or cancellation token a bundle holds, and what starting or stopping it does.

use vstd::prelude::*;

verus! {

/// A cancellation token that can be given up for cancelling once.
#[derive(Debug)]
pub struct Cancelable<T> {
    pub cancellation_token: Option<T>,
}

impl<T> Cancelable<T> {
    pub fn new(token: T) -> (c: Self)
        ensures
            c.cancellation_token == Some(token),
    {
        Cancelable { cancellation_token: Some(token) }
    }

    /// The token to cancel, the first time; nothing after that.
    pub fn cancel(&mut self) -> (r: Option<T>)
        ensures
            r == old(self).cancellation_token,
            final(self).cancellation_token is None,
    {
        self.cancellation_token.take()
    }
}

/// The task that a bundle runs, if it runs one. Starting a bundle that runs a
/// task does not start a second one.
#[derive(Debug)]
pub struct TaskSlot<T> {
    pub running_task: Option<T>,
}

impl<T> TaskSlot<T> {
    pub fn new() -> (s: Self)
        ensures
            s.running_task is None,
    {
        TaskSlot { running_task: None }
    }

    /// Records `task` as running when no task runs; returns whether it did.
    pub fn try_start(&mut self, task: T) -> (started: bool)
        ensures
            started == old(self).running_task is None,
            started ==> final(self).running_task == Some(task),
            !started ==> final(self).running_task == old(self).running_task,
    {
        if self.running_task.is_some() {
            false
        } else {
            self.running_task = Some(task);
            true
        }
    }

    /// Gives up the running task, if there is one, for stopping.
    pub fn stop(&mut self) -> (r: Option<T>)
        ensures
            r == old(self).running_task,
            final(self).running_task is None,
    {
        self.running_task.take()
    }
}

/// The cancellation token of a bundle that runs an asynchronous launcher.
/// Starting always launches anew and replaces the token; stopping cancels
/// the token, if there is one.
#[derive(Debug)]
pub struct LauncherToken<T> {
    pub cancellation_token: Option<T>,
}

impl<T> LauncherToken<T> {
    pub fn new() -> (s: Self)
        ensures
            s.cancellation_token is None,
    {
        LauncherToken { cancellation_token: None }
    }

    /// Holds the token of a new launch; returns whether a token was already
    /// held, which the bundle reports.
    pub fn start(&mut self, token: T) -> (had_token: bool)
        ensures
            had_token == old(self).cancellation_token is Some,
            final(self).cancellation_token == Some(token),
    {
        let had_token = self.cancellation_token.is_some();
        self.cancellation_token = Some(token);
        had_token
    }

    /// Gives up the token for cancelling; `None` when the bundle was not
    /// started, which the bundle reports.
    pub fn stop(&mut self) -> (r: Option<T>)
        ensures
            r == old(self).cancellation_token,
            final(self).cancellation_token is None,
    {
        self.cancellation_token.take()
    }
}

} // verus!
