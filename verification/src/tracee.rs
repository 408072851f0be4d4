//! The traced process: its identity and where it stands in its life.

use vstd::prelude::*;

verus! {

/// Where a tracee stands in its life.
///
/// `Spawned → Stopped → Running → Stopped → … → Exited | Signaled`: a tracee
/// stops when the tracer has waited for it, runs when the tracer has resumed
/// it, and has ended once it has exited or a signal has killed it.
#[derive(Clone, Copy, Debug, PartialEq, Eq, Structural)]
pub enum TraceeState {
    /// Forked, and not waited for yet.
    Spawned,
    /// Stopped, under the control of the tracer.
    Stopped,
    /// Resumed.
    Running,
    /// Ended by its own exit.
    Exited,
    /// Ended by a signal.
    Signaled,
}

/// What waiting for the tracee has shown.
#[derive(Clone, Copy, Debug, PartialEq, Eq, Structural)]
pub enum ProcessStatus {
    /// The tracee has exited with the given status.
    Exited(i32),
    /// The signal with the given number has killed the tracee.
    Signaled(i32),
    /// The tracee has stopped.
    Stopped,
}

/// What a tracee is, seen from outside.
pub struct TraceeView {
    /// The process identifier.
    pub pid: i32,
    /// Whether the trace options have been installed.
    pub options_installed: bool,
    /// Where the tracee stands in its life.
    pub state: TraceeState,
}

/// One traced process.
#[derive(Clone, Copy, Debug, PartialEq, Eq)]
pub struct Tracee {
    pid: i32,
    has_set_options: bool,
    state: TraceeState,
}

/// Whether a tracee in this state has ended.
pub open spec fn has_ended(state: TraceeState) -> bool {
    state is Exited || state is Signaled
}

/// The state to which a status that was waited for brings a tracee.
pub open spec fn state_after(status: ProcessStatus) -> TraceeState {
    match status {
        ProcessStatus::Exited(_) => TraceeState::Exited,
        ProcessStatus::Signaled(_) => TraceeState::Signaled,
        ProcessStatus::Stopped => TraceeState::Stopped,
    }
}

impl TraceeView {
    /// The tracee once the trace options have been installed.
    pub open spec fn with_options(self) -> TraceeView {
        TraceeView { options_installed: true, ..self }
    }

    /// The tracee once waiting for it has shown `status`. A tracee that has
    /// ended stays as it is.
    pub open spec fn observed(self, status: ProcessStatus) -> TraceeView {
        if has_ended(self.state) {
            self
        } else {
            TraceeView { state: state_after(status), ..self }
        }
    }

    /// The tracee once it has been resumed. A tracee that has ended stays as
    /// it is.
    pub open spec fn resumed(self) -> TraceeView {
        if has_ended(self.state) {
            self
        } else {
            TraceeView { state: TraceeState::Running, ..self }
        }
    }
}

impl View for Tracee {
    type V = TraceeView;

    closed spec fn view(&self) -> TraceeView {
        TraceeView { pid: self.pid, options_installed: self.has_set_options, state: self.state }
    }
}

impl Tracee {
    /// A tracee that was forked a moment ago: no options are installed, and
    /// it was not waited for yet.
    pub fn new(pid: i32) -> (tracee: Tracee)
        ensures
            tracee@ == (TraceeView { pid, options_installed: false, state: TraceeState::Spawned }),
    {
        Tracee { pid, has_set_options: false, state: TraceeState::Spawned }
    }

    /// The process identifier.
    pub fn pid(&self) -> (pid: i32)
        ensures
            pid == self@.pid,
    {
        self.pid
    }

    /// Whether the trace options have been installed.
    pub fn has_set_options(&self) -> (installed: bool)
        ensures
            installed == self@.options_installed,
    {
        self.has_set_options
    }

    /// Where the tracee stands in its life.
    pub fn state(&self) -> (state: TraceeState)
        ensures
            state == self@.state,
    {
        self.state
    }

    /// Whether the tracee has ended.
    pub fn has_ended(&self) -> (ended: bool)
        ensures
            ended == has_ended(self@.state),
    {
        match self.state {
            TraceeState::Exited => true,
            TraceeState::Signaled => true,
            _ => false,
        }
    }

    /// Whether the trace options are still to be installed.
    pub fn needs_tracing_options(&self) -> (needed: bool)
        ensures
            needed == !self@.options_installed,
    {
        !self.has_set_options
    }

    /// Records that the trace options have been installed. They stay
    /// installed for the rest of the tracee's life.
    pub fn record_options_installed(&mut self)
        ensures
            final(self)@ == old(self)@.with_options(),
    {
        self.has_set_options = true;
    }

    /// Records what waiting for the tracee has shown. A tracee that has
    /// ended stays as it is.
    pub fn record_status(&mut self, status: ProcessStatus)
        ensures
            final(self)@ == old(self)@.observed(status),
    {
        if !self.has_ended() {
            self.state = match status {
                ProcessStatus::Exited(_) => TraceeState::Exited,
                ProcessStatus::Signaled(_) => TraceeState::Signaled,
                ProcessStatus::Stopped => TraceeState::Stopped,
            };
        }
    }

    /// Records that the tracee has been resumed. A tracee that has ended
    /// stays as it is.
    pub fn record_resume(&mut self)
        ensures
            final(self)@ == old(self)@.resumed(),
    {
        if !self.has_ended() {
            self.state = TraceeState::Running;
        }
    }
}

} // verus!
