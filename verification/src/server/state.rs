//! The state that the server shares with its actions.

use vstd::prelude::*;

verus! {

/// Public shared state for this language server.
#[derive(Debug)]
pub struct LsState {
    shut_down: bool,
    exit_code: Option<i32>,
}

/// What an [`LsState`] holds: the flag that says whether a shutdown has been
/// asked for, and the code with which the process is to exit once an exit
/// has been asked for.
pub struct LsStateView {
    pub shutdown_requested: bool,
    pub exit_code: Option<i32>,
}

/// Where the server stands in its life.
#[derive(Debug, Clone, Copy, PartialEq, Eq, Structural)]
pub enum Lifecycle {
    /// Serving.
    Active,
    /// A shutdown was asked for: nothing is served any more but `exit`.
    ShuttingDown,
    /// An exit was asked for: the process is to stop with this code.
    Terminated(i32),
}

impl LsStateView {
    pub open spec fn lifecycle(self) -> Lifecycle {
        match self.exit_code {
            Some(code) => Lifecycle::Terminated(code),
            None => if self.shutdown_requested {
                Lifecycle::ShuttingDown
            } else {
                Lifecycle::Active
            },
        }
    }

    /// The state after a shutdown is asked for in this one.
    pub open spec fn after_shutdown(self) -> LsStateView {
        LsStateView { shutdown_requested: true, exit_code: self.exit_code }
    }

    /// The code with which the process exits where an exit is asked for in
    /// this state: 0 after a shutdown, 1 without one.
    pub open spec fn code_on_exit(self) -> i32 {
        if self.shutdown_requested {
            0
        } else {
            1
        }
    }

    /// The state after an exit is asked for in this one.
    pub open spec fn after_exit(self) -> LsStateView {
        LsStateView {
            shutdown_requested: self.shutdown_requested,
            exit_code: Some(self.code_on_exit()),
        }
    }
}

impl View for LsState {
    type V = LsStateView;

    closed spec fn view(&self) -> LsStateView {
        LsStateView { shutdown_requested: self.shut_down, exit_code: self.exit_code }
    }
}

impl LsState {
    /// The state of a server that has just started.
    pub fn new() -> (state: LsState)
        ensures
            state@ == (LsStateView { shutdown_requested: false, exit_code: None }),
    {
        LsState { shut_down: false, exit_code: None }
    }

    /// Whether a shutdown has been asked for.
    pub fn is_shut_down(&self) -> (r: bool)
        ensures
            r == self@.shutdown_requested,
    {
        self.shut_down
    }

    /// The code with which the process is to exit, once an exit has been
    /// asked for.
    pub fn exit_code(&self) -> (r: Option<i32>)
        ensures
            r == self@.exit_code,
    {
        self.exit_code
    }

    /// The code with which the process exits where an exit is asked for in
    /// this state.
    pub fn exit_code_on_exit(&self) -> (code: i32)
        ensures
            code == self@.code_on_exit(),
    {
        if self.shut_down {
            0
        } else {
            1
        }
    }

    /// Where the server stands in its life.
    pub fn lifecycle(&self) -> (r: Lifecycle)
        ensures
            r == self@.lifecycle(),
    {
        match self.exit_code {
            Some(code) => Lifecycle::Terminated(code),
            None => if self.shut_down {
                Lifecycle::ShuttingDown
            } else {
                Lifecycle::Active
            },
        }
    }

    /// Records that a shutdown was asked for. Nothing takes it back.
    pub fn request_shutdown(&mut self)
        ensures
            final(self)@ == old(self)@.after_shutdown(),
    {
        self.shut_down = true;
    }

    /// Records that an exit was asked for, and gives the code with which the
    /// process is to exit.
    pub fn request_exit(&mut self) -> (code: i32)
        ensures
            final(self)@ == old(self)@.after_exit(),
            code == old(self)@.code_on_exit(),
    {
        let code = self.exit_code_on_exit();
        self.exit_code = Some(code);
        code
    }
}

} // verus!
