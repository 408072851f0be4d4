//! The trace loop as a machine: from what the last request to the operating
//! system brought to what is printed and what is requested next.
//!
//! The caller performs each request and hands its outcome back; the machine
//! decides. A failed request carries the error number of the operating
//! system.

use crate::error::{TreiceError, ESRCH};
use crate::memory::{debug_quoted, text_bytes, utf8_lossy, word_count, words_needed};
use crate::signal::{
    exited_line, exited_line_text, is_syscall_trap, killed_line, killed_line_text,
    print_signal_data, signal_line_text, SignalInfo, SIGTRAP,
};
use crate::syscall::{
    argument_texts, call_text, name_of, number_of, stop_kind, stop_line, stop_text,
    syscall_number, template_of, text_of_template, text_request, RegisterSnapshot, StopKind,
    TextRequest, SYS_EXIT_GROUP, SYS_WRITE,
};
use crate::syscall_info::{SyscallInfo, OP_ENTRY, OP_EXIT, OP_NONE, OP_SECCOMP};
use crate::text::{decimal, int_text, signed_decimal, signed_value};
use crate::tracee::{has_ended, ProcessStatus, Tracee, TraceeState, TraceeView};
use vstd::prelude::*;
use vstd::string::StringExecFns;

verus! {

/// The request whose outcome the loop waits for.
#[derive(Clone, Copy, Debug, PartialEq, Eq)]
pub enum Pending {
    /// Waiting for the tracee.
    Wait,
    /// Installing the trace options.
    Options,
    /// Reading the signal at which the tracee stopped.
    SignalInfo,
    /// Reading the record of the system call.
    SyscallInfo,
    /// Reading the registers, at a stop of the given kind.
    Registers(StopKind),
    /// Fetching from the tracee's memory the text that the call with the
    /// given registers points to.
    Memory { registers: RegisterSnapshot, request: TextRequest },
    /// Resuming the tracee.
    Resume,
    /// Nothing: the loop has ended, with the given outcome.
    Finished(Result<(), TreiceError>),
}

/// The outcome of a request.
#[derive(Debug, PartialEq, Eq)]
pub enum Event {
    /// Waiting for the tracee has ended.
    Waited(Result<ProcessStatus, i32>),
    /// The trace options were installed, or could not be.
    OptionsInstalled(Result<(), i32>),
    /// The signal at which the tracee stopped was read, or could not be.
    SignalInfoRead(Result<SignalInfo, i32>),
    /// The record of the system call was read, or could not be.
    SyscallInfoRead(Result<[u8; 88], i32>),
    /// The registers were read, or could not be.
    RegistersRead(Result<RegisterSnapshot, i32>),
    /// The words asked for were fetched from the tracee's memory, in their
    /// order, or one of them could not be.
    MemoryRead(Result<Vec<u64>, i32>),
    /// The tracee was resumed.
    Resumed,
}

/// What the caller is to do next.
#[derive(Clone, Copy, Debug, PartialEq, Eq)]
pub enum Action {
    /// Wait until the state of the tracee changes.
    Wait,
    /// Install the option that marks the stops of system calls.
    InstallOptions,
    /// Read the signal at which the tracee stopped.
    ReadSignalInfo,
    /// Read the record of the system call.
    ReadSyscallInfo,
    /// Read the registers.
    ReadRegisters,
    /// Fetch `word_count` words from the tracee's memory, the first at
    /// `address`.
    ReadMemory { address: u64, word_count: u64 },
    /// Let the tracee run to its next stop, and deliver the signal, if there
    /// is one.
    Resume { signal: Option<i32> },
    /// Stop: the loop has ended, with the given outcome.
    Finish(Result<(), TreiceError>),
}

/// What one step of the loop gives: the text to print, and what to do next.
#[derive(Debug)]
pub struct Step {
    /// The text to print on standard output before anything else is done.
    pub output: String,
    /// What to do next.
    pub action: Action,
}

/// What a trace loop is, seen from outside.
pub struct LoopView {
    /// The tracee.
    pub tracee: TraceeView,
    /// The request whose outcome the loop waits for.
    pub pending: Pending,
    /// The signal to deliver when the tracee is resumed.
    pub deliver: Option<i32>,
}

/// The loop that traces one process.
#[derive(Debug)]
pub struct TraceLoop {
    tracee: Tracee,
    pending: Pending,
    deliver: Option<i32>,
}

/// How a request that failed ends the loop: cleanly where the process is
/// gone, which means that it has ended already, else with the given failure.
pub open spec fn end_on_failure(code: i32, failure: TreiceError) -> Result<(), TreiceError> {
    if code == ESRCH {
        Ok(())
    } else {
        Err(failure)
    }
}

/// The text that is printed when tracing starts.
pub open spec fn start_text(pid: i32) -> Seq<char> {
    "Tracee PID: "@ + signed_decimal(pid as int) + "\n\n"@
}

impl LoopView {
    /// The loop as it starts: the tracee was forked a moment ago, and is
    /// waited for.
    pub open spec fn start(pid: i32) -> LoopView {
        LoopView {
            tracee: TraceeView { pid, options_installed: false, state: TraceeState::Spawned },
            pending: Pending::Wait,
            deliver: None,
        }
    }

    /// This loop, waiting for another request.
    pub open spec fn awaiting(self, pending: Pending) -> LoopView {
        LoopView { pending, ..self }
    }

    /// This loop, ended with the given outcome.
    pub open spec fn ended(self, outcome: Result<(), TreiceError>) -> LoopView {
        LoopView { pending: Pending::Finished(outcome), ..self }
    }

    /// This loop once the text of a stop was to be printed.
    pub open spec fn after_text(
        self,
        kind: StopKind,
        registers: RegisterSnapshot,
        words: Seq<u64>,
    ) -> LoopView {
        self.awaiting(
            pending_after_text(
                stop_text(kind, registers, words),
                syscall_number(registers.orig_rax) as i32,
            ),
        )
    }

    /// What the caller is to do for the request that the loop waits for.
    pub open spec fn action(self) -> Action {
        match self.pending {
            Pending::Wait => Action::Wait,
            Pending::Options => Action::InstallOptions,
            Pending::SignalInfo => Action::ReadSignalInfo,
            Pending::SyscallInfo => Action::ReadSyscallInfo,
            Pending::Registers(_) => Action::ReadRegisters,
            Pending::Memory { registers, request } => Action::ReadMemory {
                address: request.address,
                word_count: words_needed(request.byte_count as nat) as u64,
            },
            Pending::Resume => Action::Resume { signal: self.deliver },
            Pending::Finished(outcome) => Action::Finish(outcome),
        }
    }

    /// The loop after the outcome of a request. An outcome of another request
    /// than the one that the loop waits for changes nothing.
    pub open spec fn next(self, event: Event) -> LoopView {
        match self.pending {
            Pending::Wait => match event {
                Event::Waited(Ok(status)) => LoopView {
                    tracee: self.tracee.observed(status),
                    pending: match status {
                        ProcessStatus::Stopped => if self.tracee.options_installed {
                            Pending::SignalInfo
                        } else {
                            Pending::Options
                        },
                        _ => Pending::Finished(Ok(())),
                    },
                    deliver: None,
                },
                Event::Waited(Err(code)) => self.ended(Err(TreiceError::ChildWaitFailure(code))),
                _ => self,
            },
            Pending::Options => match event {
                Event::OptionsInstalled(Ok(_)) => LoopView {
                    tracee: self.tracee.with_options(),
                    pending: Pending::SignalInfo,
                    deliver: self.deliver,
                },
                Event::OptionsInstalled(Err(code)) => self.ended(
                    end_on_failure(code, TreiceError::OptionsSetFailure(code)),
                ),
                _ => self,
            },
            Pending::SignalInfo => match event {
                Event::SignalInfoRead(Ok(info)) => LoopView {
                    tracee: self.tracee,
                    pending: Pending::SyscallInfo,
                    deliver: if info.signo == SIGTRAP {
                        None
                    } else {
                        Some(info.signo)
                    },
                },
                Event::SignalInfoRead(Err(code)) => self.ended(
                    end_on_failure(code, TreiceError::SignalInfoReadFailure(code)),
                ),
                _ => self,
            },
            Pending::SyscallInfo => match event {
                Event::SyscallInfoRead(Ok(raw)) => if raw@[0] > OP_SECCOMP {
                    self.ended(Err(TreiceError::SyscallInfoDecodeFailure))
                } else {
                    self.awaiting(Pending::Registers(kind_of_record(raw@)))
                },
                Event::SyscallInfoRead(Err(code)) => self.ended(
                    end_on_failure(code, TreiceError::RegistersReadFailure(code)),
                ),
                _ => self,
            },
            Pending::Registers(kind) => match event {
                Event::RegistersRead(Ok(registers)) => match text_to_fetch(kind, registers) {
                    Some(request) => self.awaiting(Pending::Memory { registers, request }),
                    None => self.after_text(kind, registers, Seq::empty()),
                },
                Event::RegistersRead(Err(code)) => self.ended(
                    end_on_failure(code, TreiceError::RegistersReadFailure(code)),
                ),
                _ => self,
            },
            Pending::Memory { registers, request } => match event {
                Event::MemoryRead(Ok(words)) => self.after_text(StopKind::Entry, registers, words@),
                Event::MemoryRead(Err(code)) => self.ended(
                    end_on_failure(code, TreiceError::MemoryReadFailure(code)),
                ),
                _ => self,
            },
            Pending::Resume => match event {
                Event::Resumed => LoopView {
                    tracee: self.tracee.resumed(),
                    pending: Pending::Wait,
                    deliver: self.deliver,
                },
                _ => self,
            },
            Pending::Finished(_) => self,
        }
    }

    /// The text that is printed after the outcome of a request.
    pub open spec fn output(self, event: Event) -> Seq<char> {
        match self.pending {
            Pending::Wait => match event {
                Event::Waited(Ok(ProcessStatus::Exited(code))) => exited_line_text(code),
                Event::Waited(Ok(ProcessStatus::Signaled(signal))) => killed_line_text(signal),
                _ => Seq::empty(),
            },
            Pending::SignalInfo => match event {
                Event::SignalInfoRead(Ok(info)) => if info.signo == SIGTRAP {
                    Seq::empty()
                } else {
                    signal_line_text(info)
                },
                _ => Seq::empty(),
            },
            Pending::Registers(kind) => match event {
                Event::RegistersRead(Ok(registers)) => match text_to_fetch(kind, registers) {
                    Some(_) => Seq::empty(),
                    None => text_or_nothing(stop_text(kind, registers, Seq::empty())),
                },
                _ => Seq::empty(),
            },
            Pending::Memory { registers, request } => match event {
                Event::MemoryRead(Ok(words)) => text_or_nothing(
                    stop_text(StopKind::Entry, registers, words@),
                ),
                _ => Seq::empty(),
            },
            _ => Seq::empty(),
        }
    }

    /// What holds of every loop that was started and stepped: the request
    /// that it waits for fits the state of the tracee, the trace options are
    /// installed before anything is read, and once the tracee has ended the
    /// loop has ended too.
    pub open spec fn wf(self) -> bool {
        &&& has_ended(self.tracee.state) ==> self.pending == Pending::Finished(
            Ok::<(), TreiceError>(()),
        )
        &&& match self.pending {
            Pending::Wait => self.tracee.state is Spawned || self.tracee.state is Running,
            Pending::Options => self.tracee.state is Stopped && !self.tracee.options_installed,
            Pending::SignalInfo | Pending::SyscallInfo | Pending::Registers(_) | Pending::Resume =>
                self.tracee.state is Stopped && self.tracee.options_installed,
            Pending::Memory { registers, request } => {
                &&& self.tracee.state is Stopped
                &&& self.tracee.options_installed
                &&& text_to_fetch(StopKind::Entry, registers) == Some(request)
            },
            Pending::Finished(_) => true,
        }
    }

    /// The loop after the outcomes of several requests, one after the other.
    pub open spec fn run(self, events: Seq<Event>) -> LoopView
        decreases events.len(),
    {
        if events.len() == 0 {
            self
        } else {
            self.run(events.drop_last()).next(events.last())
        }
    }

    /// All that is printed over the outcomes of several requests, in the
    /// order in which it is printed.
    pub open spec fn printed(self, events: Seq<Event>) -> Seq<char>
        decreases events.len(),
    {
        if events.len() == 0 {
            Seq::empty()
        } else {
            self.printed(events.drop_last()) + self.run(events.drop_last()).output(events.last())
        }
    }
}

/// The kind of stop that a record of a known kind is of.
pub open spec fn kind_of_record(raw: Seq<u8>) -> StopKind {
    if raw[0] == OP_NONE {
        StopKind::NotSyscall
    } else if raw[0] == OP_EXIT {
        StopKind::Exit
    } else {
        StopKind::Entry
    }
}

/// The text in the tracee's memory that must be fetched before the text of a
/// stop can be made: the one that the call asks for, at its entry.
pub open spec fn text_to_fetch(kind: StopKind, registers: RegisterSnapshot) -> Option<TextRequest> {
    if kind is Entry {
        text_of_template(template_of(syscall_number(registers.orig_rax)), registers)
    } else {
        None
    }
}

/// The text, or the empty text where there is none.
pub open spec fn text_or_nothing(text: Option<Seq<char>>) -> Seq<char> {
    match text {
        Some(line) => line,
        None => Seq::empty(),
    }
}

/// What the loop waits for once the text of a stop was to be made: where
/// there is a text the tracee is resumed; where there is none, because the
/// table of system calls does not hold the number of the call, the loop ends
/// with that failure.
pub open spec fn pending_after_text(text: Option<Seq<char>>, number: i32) -> Pending {
    match text {
        Some(_) => Pending::Resume,
        None => Pending::Finished(Err(TreiceError::UnknownSyscall(number))),
    }
}

/// The view of a text that may be missing.
pub open spec fn text_view(text: Option<String>) -> Option<Seq<char>> {
    match text {
        Some(line) => Some(line@),
        None => None,
    }
}

/// What the loop waits for once the text of a stop was to be made, and what
/// it prints.
pub fn after_stop_text(text: Option<String>, number: i32) -> (outcome: (Pending, String))
    ensures
        outcome.0 == pending_after_text(text_view(text), number),
        outcome.1@ == text_or_nothing(text_view(text)),
{
    match text {
        Some(line) => (Pending::Resume, line),
        None => (Pending::Finished(Err(TreiceError::UnknownSyscall(number))), String::new()),
    }
}

impl View for TraceLoop {
    type V = LoopView;

    closed spec fn view(&self) -> LoopView {
        LoopView { tracee: self.tracee@, pending: self.pending, deliver: self.deliver }
    }
}

/// How a request that failed ends the loop.
fn outcome_of_failure(code: i32, failure: TreiceError) -> (outcome: Result<(), TreiceError>)
    ensures
        outcome == end_on_failure(code, failure),
{
    if code == ESRCH {
        Ok(())
    } else {
        Err(failure)
    }
}

impl TraceLoop {
    /// Starts to trace the process that was forked a moment ago: the loop,
    /// and its first step, which announces the tracee and waits for it.
    pub fn new(pid: i32) -> (started: (TraceLoop, Step))
        ensures
            started.0@ == LoopView::start(pid),
            started.0@.wf(),
            started.1.action == Action::Wait,
            started.1.output@ == start_text(pid),
    {
        let mut output: String = String::from_str("Tracee PID: ");
        let digits: String = int_text(pid);
        output.append(digits.as_str());
        output.append("\n\n");
        assert(output@ =~= start_text(pid));
        let traced = TraceLoop { tracee: Tracee::new(pid), pending: Pending::Wait, deliver: None };
        (traced, Step { output, action: Action::Wait })
    }

    /// The tracee.
    pub fn tracee(&self) -> (tracee: &Tracee)
        ensures
            tracee@ == self@.tracee,
    {
        &self.tracee
    }

    /// The request whose outcome the loop waits for.
    pub fn pending(&self) -> (pending: Pending)
        ensures
            pending == self@.pending,
    {
        self.pending
    }

    /// Whether the loop has ended.
    pub fn is_finished(&self) -> (finished: bool)
        ensures
            finished == (self@.pending is Finished),
    {
        match self.pending {
            Pending::Finished(_) => true,
            _ => false,
        }
    }

    /// What the caller is to do for the request that the loop waits for.
    pub fn action(&self) -> (action: Action)
        ensures
            action == self@.action(),
    {
        match self.pending {
            Pending::Wait => Action::Wait,
            Pending::Options => Action::InstallOptions,
            Pending::SignalInfo => Action::ReadSignalInfo,
            Pending::SyscallInfo => Action::ReadSyscallInfo,
            Pending::Registers(_) => Action::ReadRegisters,
            Pending::Memory { registers, request } => Action::ReadMemory {
                address: request.address,
                word_count: word_count(request.byte_count),
            },
            Pending::Resume => Action::Resume { signal: self.deliver },
            Pending::Finished(outcome) => Action::Finish(outcome),
        }
    }

    /// Prints the text of a stop, if there is one, and resumes the tracee;
    /// ends the loop at a call that the table of system calls does not hold.
    fn show_stop(
        &mut self,
        kind: StopKind,
        registers: &RegisterSnapshot,
        words: &Vec<u64>,
    ) -> (output: String)
        ensures
            final(self)@ == old(self)@.after_text(kind, *registers, words@),
            output@ == text_or_nothing(stop_text(kind, *registers, words@)),
    {
        let text: Option<String> = stop_line(kind, registers, words);
        let (pending, output) = after_stop_text(text, number_of(registers.orig_rax));
        self.pending = pending;
        output
    }

    /// Takes the outcome of the request that the loop waits for, and gives
    /// the text to print and what to do next. An outcome of another request
    /// changes nothing and prints nothing, and the same request is made
    /// again.
    pub fn step(&mut self, event: Event) -> (step: Step)
        ensures
            final(self)@ == old(self)@.next(event),
            step.action == final(self)@.action(),
            step.output@ == old(self)@.output(event),
            old(self)@.wf() ==> final(self)@.wf(),
    {
        proof {
            if self@.wf() {
                lemma_next_keeps_wf(self@, event);
            }
        }
        let mut output: String = String::new();
        match self.pending {
            Pending::Wait => match event {
                Event::Waited(Ok(status)) => {
                    let installed: bool = self.tracee.has_set_options();
                    self.tracee.record_status(status);
                    self.deliver = None;
                    match status {
                        ProcessStatus::Exited(code) => {
                            output = exited_line(code);
                            self.pending = Pending::Finished(Ok(()));
                        },
                        ProcessStatus::Signaled(signal) => {
                            output = killed_line(signal);
                            self.pending = Pending::Finished(Ok(()));
                        },
                        ProcessStatus::Stopped => {
                            self.pending = if installed {
                                Pending::SignalInfo
                            } else {
                                Pending::Options
                            };
                        },
                    }
                },
                Event::Waited(Err(code)) => {
                    self.pending = Pending::Finished(Err(TreiceError::ChildWaitFailure(code)));
                },
                _ => {},
            },
            Pending::Options => match event {
                Event::OptionsInstalled(Ok(_)) => {
                    self.tracee.record_options_installed();
                    self.pending = Pending::SignalInfo;
                },
                Event::OptionsInstalled(Err(code)) => {
                    self.pending = Pending::Finished(
                        outcome_of_failure(code, TreiceError::OptionsSetFailure(code)),
                    );
                },
                _ => {},
            },
            Pending::SignalInfo => match event {
                Event::SignalInfoRead(Ok(info)) => {
                    if is_syscall_trap(&info) {
                        self.deliver = None;
                    } else {
                        output = print_signal_data(&info);
                        self.deliver = Some(info.signo);
                    }
                    self.pending = Pending::SyscallInfo;
                },
                Event::SignalInfoRead(Err(code)) => {
                    self.pending = Pending::Finished(
                        outcome_of_failure(code, TreiceError::SignalInfoReadFailure(code)),
                    );
                },
                _ => {},
            },
            Pending::SyscallInfo => match event {
                Event::SyscallInfoRead(Ok(raw)) => {
                    match SyscallInfo::from_raw(&raw) {
                        Ok(info) => {
                            let kind: StopKind = stop_kind(&info.op);
                            assert(kind == kind_of_record(raw@));
                            self.pending = Pending::Registers(kind);
                        },
                        Err(_) => {
                            self.pending = Pending::Finished(
                                Err(TreiceError::SyscallInfoDecodeFailure),
                            );
                        },
                    }
                },
                Event::SyscallInfoRead(Err(code)) => {
                    self.pending = Pending::Finished(
                        outcome_of_failure(code, TreiceError::RegistersReadFailure(code)),
                    );
                },
                _ => {},
            },
            Pending::Registers(kind) => match event {
                Event::RegistersRead(Ok(registers)) => {
                    let request: Option<TextRequest> = match kind {
                        StopKind::Entry => text_request(&registers),
                        _ => None,
                    };
                    match request {
                        Some(request) => {
                            self.pending = Pending::Memory { registers, request };
                        },
                        None => {
                            let words: Vec<u64> = Vec::new();
                            assert(words@ =~= Seq::<u64>::empty());
                            output = self.show_stop(kind, &registers, &words);
                        },
                    }
                },
                Event::RegistersRead(Err(code)) => {
                    self.pending = Pending::Finished(
                        outcome_of_failure(code, TreiceError::RegistersReadFailure(code)),
                    );
                },
                _ => {},
            },
            Pending::Memory { registers, request } => match event {
                Event::MemoryRead(Ok(words)) => {
                    output = self.show_stop(StopKind::Entry, &registers, &words);
                },
                Event::MemoryRead(Err(code)) => {
                    self.pending = Pending::Finished(
                        outcome_of_failure(code, TreiceError::MemoryReadFailure(code)),
                    );
                },
                _ => {},
            },
            Pending::Resume => match event {
                Event::Resumed => {
                    self.tracee.record_resume();
                    self.pending = Pending::Wait;
                },
                _ => {},
            },
            Pending::Finished(_) => {},
        }
        let action: Action = self.action();
        Step { output, action }
    }
}

/// A step keeps a loop well formed.
pub proof fn lemma_next_keeps_wf(view: LoopView, event: Event)
    requires
        view.wf(),
    ensures
        view.next(event).wf(),
{
}

/// Once the tracee has exited or was killed, the loop has ended: whatever
/// comes in, nothing changes, nothing is printed, and no request is made of
/// the tracee again.
pub proof fn lemma_ended_tracee_is_left_alone(view: LoopView, events: Seq<Event>)
    requires
        view.wf(),
        has_ended(view.tracee.state),
    ensures
        view.run(events) == view,
        view.action() == Action::Finish(Ok::<(), TreiceError>(())),
        forall|event: Event| #[trigger] view.output(event) == Seq::<char>::empty(),
    decreases events.len(),
{
    if events.len() > 0 {
        lemma_ended_tracee_is_left_alone(view, events.drop_last());
    }
}

/// However a loop is run from its start, it stays well formed; so whenever
/// its tracee has ended, the only thing left to do is to stop.
pub proof fn lemma_run_from_start(pid: i32, events: Seq<Event>)
    ensures
        LoopView::start(pid).run(events).wf(),
        has_ended(LoopView::start(pid).run(events).tracee.state) ==> LoopView::start(pid).run(
            events,
        ).action() == Action::Finish(Ok::<(), TreiceError>(())),
    decreases events.len(),
{
    if events.len() > 0 {
        lemma_run_from_start(pid, events.drop_last());
        lemma_next_keeps_wf(LoopView::start(pid).run(events.drop_last()), events.last());
    }
}

/// The trace options are installed once: the request to install them is made
/// only while they are not installed, and once installed they stay so.
pub proof fn lemma_options_installed_once(view: LoopView, event: Event)
    requires
        view.wf(),
    ensures
        view.action() is InstallOptions ==> !view.tracee.options_installed,
        view.tracee.options_installed ==> view.next(event).tracee.options_installed,
        view.next(event).tracee.pid == view.tracee.pid,
{
}

/// One more outcome takes a run one step on, and adds what that step prints.
pub proof fn lemma_run_one_more(view: LoopView, events: Seq<Event>, event: Event)
    ensures
        view.run(events.push(event)) == view.run(events).next(event),
        view.printed(events.push(event)) == view.printed(events) + view.run(events).output(event),
{
    assert(events.push(event).drop_last() =~= events);
}

/// A run may be taken in two parts: the second part runs from where the first
/// has led, and what is printed is what the two parts print, in that order.
pub proof fn lemma_run_in_parts(view: LoopView, first: Seq<Event>, second: Seq<Event>)
    ensures
        view.run(first + second) == view.run(first).run(second),
        view.printed(first + second) == view.printed(first) + view.run(first).printed(second),
    decreases second.len(),
{
    if second.len() == 0 {
        assert(first + second =~= first);
        assert(view.printed(first) + Seq::<char>::empty() =~= view.printed(first));
    } else {
        lemma_run_in_parts(view, first, second.drop_last());
        assert((first + second).drop_last() =~= first + second.drop_last());
        assert((first + second).last() == second.last());
        assert(view.printed(first + second) =~= view.printed(first) + view.run(first).printed(
            second,
        ));
    }
}

/// The outcomes of the three reads at a stop: of the signal, of the record
/// of the system call, and of the registers.
pub open spec fn reads_at_stop(
    signal: SignalInfo,
    record: [u8; 88],
    registers: RegisterSnapshot,
) -> Seq<Event> {
    seq![
        Event::SignalInfoRead(Ok(signal)),
        Event::SyscallInfoRead(Ok(record)),
        Event::RegistersRead(Ok(registers)),
    ]
}

/// A stop at which no text is fetched: after the three reads and the resume
/// the text of the stop is printed and the tracee is waited for.
proof fn lemma_stop_shown(
    view: LoopView,
    trap: SignalInfo,
    record: [u8; 88],
    registers: RegisterSnapshot,
    text: Seq<char>,
)
    requires
        view.pending == Pending::SignalInfo,
        trap.signo == SIGTRAP,
        record@[0] <= OP_SECCOMP,
        text_to_fetch(kind_of_record(record@), registers) is None,
        stop_text(kind_of_record(record@), registers, Seq::empty()) == Some(text),
    ensures
        view.run(reads_at_stop(trap, record, registers).push(Event::Resumed)) == (LoopView {
            tracee: view.tracee.resumed(),
            pending: Pending::Wait,
            deliver: None,
        }),
        view.printed(reads_at_stop(trap, record, registers).push(Event::Resumed)) == text,
{
    let none = Seq::<Event>::empty();
    let e0 = Event::SignalInfoRead(Ok(trap));
    let e1 = Event::SyscallInfoRead(Ok(record));
    let e2 = Event::RegistersRead(Ok(registers));
    assert(reads_at_stop(trap, record, registers) =~= none.push(e0).push(e1).push(e2));
    assert(view.run(none) == view && view.printed(none) =~= Seq::<char>::empty());
    lemma_run_one_more(view, none, e0);
    lemma_run_one_more(view, none.push(e0), e1);
    lemma_run_one_more(view, none.push(e0).push(e1), e2);
    lemma_run_one_more(view, none.push(e0).push(e1).push(e2), Event::Resumed);
    assert(view.printed(reads_at_stop(trap, record, registers).push(Event::Resumed)) =~= text);
}

/// A stop at the entry of a call whose text is fetched: after the three
/// reads, the words and the resume the call is printed and the tracee is
/// waited for.
proof fn lemma_stop_shown_with_text(
    view: LoopView,
    trap: SignalInfo,
    record: [u8; 88],
    registers: RegisterSnapshot,
    words: Vec<u64>,
    text: Seq<char>,
)
    requires
        view.pending == Pending::SignalInfo,
        trap.signo == SIGTRAP,
        record@[0] == OP_ENTRY,
        text_to_fetch(StopKind::Entry, registers) is Some,
        stop_text(StopKind::Entry, registers, words@) == Some(text),
    ensures
        view.run(
            reads_at_stop(trap, record, registers).push(Event::MemoryRead(Ok(words))).push(
                Event::Resumed,
            ),
        ) == (LoopView { tracee: view.tracee.resumed(), pending: Pending::Wait, deliver: None }),
        view.printed(
            reads_at_stop(trap, record, registers).push(Event::MemoryRead(Ok(words))).push(
                Event::Resumed,
            ),
        ) == text,
{
    let none = Seq::<Event>::empty();
    let e0 = Event::SignalInfoRead(Ok(trap));
    let e1 = Event::SyscallInfoRead(Ok(record));
    let e2 = Event::RegistersRead(Ok(registers));
    let e3 = Event::MemoryRead(Ok(words));
    assert(reads_at_stop(trap, record, registers) =~= none.push(e0).push(e1).push(e2));
    assert(view.run(none) == view && view.printed(none) =~= Seq::<char>::empty());
    lemma_run_one_more(view, none, e0);
    lemma_run_one_more(view, none.push(e0), e1);
    lemma_run_one_more(view, none.push(e0).push(e1), e2);
    lemma_run_one_more(view, none.push(e0).push(e1).push(e2), e3);
    lemma_run_one_more(view, none.push(e0).push(e1).push(e2).push(e3), Event::Resumed);
    assert(view.printed(
        reads_at_stop(trap, record, registers).push(Event::MemoryRead(Ok(words))).push(
            Event::Resumed,
        ),
    ) =~= text);
}

/// The first stop of a tracee: it is waited for, and the trace options are
/// installed.
proof fn lemma_first_stop(pid: i32)
    ensures
        LoopView::start(pid).run(
            seq![Event::Waited(Ok(ProcessStatus::Stopped)), Event::OptionsInstalled(Ok(()))],
        ) == (LoopView {
            tracee: TraceeView { pid, options_installed: true, state: TraceeState::Stopped },
            pending: Pending::SignalInfo,
            deliver: None,
        }),
        LoopView::start(pid).printed(
            seq![Event::Waited(Ok(ProcessStatus::Stopped)), Event::OptionsInstalled(Ok(()))],
        ) == Seq::<char>::empty(),
{
    let start = LoopView::start(pid);
    let none = Seq::<Event>::empty();
    let stopped = Event::Waited(Ok(ProcessStatus::Stopped));
    let installed = Event::OptionsInstalled(Ok(()));
    let events = seq![stopped, installed];
    assert(events =~= none.push(stopped).push(installed));
    assert(start.run(none) == start && start.printed(none) =~= Seq::<char>::empty());
    lemma_run_one_more(start, none, stopped);
    lemma_run_one_more(start, none.push(stopped), installed);
    assert(start.printed(events) =~= Seq::<char>::empty());
}

/// What waiting brings to a tracee that runs with its options installed: at
/// a stop the signal is read next, at its exit the loop ends cleanly and the
/// exit is reported.
proof fn lemma_waited(view: LoopView, status: ProcessStatus)
    requires
        view.pending == Pending::Wait,
        view.tracee.options_installed,
        view.tracee.state is Running,
    ensures
        status is Stopped ==> view.run(seq![Event::Waited(Ok(status))]) == (LoopView {
            tracee: TraceeView { state: TraceeState::Stopped, ..view.tracee },
            pending: Pending::SignalInfo,
            deliver: None,
        }) && view.printed(seq![Event::Waited(Ok(status))]) == Seq::<char>::empty(),
        status matches ProcessStatus::Exited(code) ==> view.run(seq![Event::Waited(Ok(status))])
            == (LoopView {
            tracee: TraceeView { state: TraceeState::Exited, ..view.tracee },
            pending: Pending::Finished(Ok(())),
            deliver: None,
        }) && view.printed(seq![Event::Waited(Ok(status))]) == exited_line_text(code),
{
    let none = Seq::<Event>::empty();
    let event = Event::Waited(Ok(status));
    assert(seq![event] =~= none.push(event));
    assert(view.run(none) == view && view.printed(none) =~= Seq::<char>::empty());
    lemma_run_one_more(view, none, event);
    assert(view.printed(seq![event]) =~= view.output(event));
}

/// The outcomes that a program brings that writes and then leaves: the
/// tracee stops, the options are installed, and the stop is at the entry of
/// a call whose text is fetched; it stops again at the exit of the call, and
/// again at the entry of another call; then it exits.
pub open spec fn write_then_exit_events(
    trap: SignalInfo,
    entry: [u8; 88],
    exit: [u8; 88],
    at_write: RegisterSnapshot,
    words: Vec<u64>,
    after_write: RegisterSnapshot,
    at_exit_group: RegisterSnapshot,
    code: i32,
) -> Seq<Event> {
    seq![Event::Waited(Ok(ProcessStatus::Stopped)), Event::OptionsInstalled(Ok(()))]
        + reads_at_stop(trap, entry, at_write).push(Event::MemoryRead(Ok(words))).push(
        Event::Resumed,
    ) + seq![Event::Waited(Ok(ProcessStatus::Stopped))] + reads_at_stop(
        trap,
        exit,
        after_write,
    ).push(Event::Resumed) + seq![Event::Waited(Ok(ProcessStatus::Stopped))] + reads_at_stop(
        trap,
        entry,
        at_exit_group,
    ).push(Event::Resumed) + seq![Event::Waited(Ok(ProcessStatus::Exited(code)))]
}

/// The texts of the three stops of a program that writes and then leaves.
proof fn lemma_texts_of_write_then_exit(
    at_write: RegisterSnapshot,
    words: Seq<u64>,
    after_write: RegisterSnapshot,
    at_exit_group: RegisterSnapshot,
)
    requires
        syscall_number(at_write.orig_rax) == SYS_WRITE,
        syscall_number(after_write.orig_rax) == SYS_WRITE,
        syscall_number(at_exit_group.orig_rax) == SYS_EXIT_GROUP,
        name_of(SYS_WRITE as int) is Some,
        name_of(SYS_EXIT_GROUP as int) is Some,
    ensures
        text_to_fetch(StopKind::Entry, at_write) is Some,
        stop_text(StopKind::Entry, at_write, words) == Some(
            call_text(
                name_of(SYS_WRITE as int)->Some_0,
                seq![
                    decimal(at_write.rdi as nat),
                    debug_quoted(utf8_lossy(text_bytes(words, at_write.rdx as nat))),
                    decimal(at_write.rdx as nat),
                ],
            ),
        ),
        text_to_fetch(StopKind::Exit, after_write) is None,
        stop_text(StopKind::Exit, after_write, Seq::empty()) == Some(
            seq![' ', '=', ' '] + signed_decimal(signed_value(after_write.rax)) + seq!['\n'],
        ),
        text_to_fetch(StopKind::Entry, at_exit_group) is None,
        stop_text(StopKind::Entry, at_exit_group, Seq::empty()) == Some(
            call_text(
                name_of(SYS_EXIT_GROUP as int)->Some_0,
                seq![decimal(at_exit_group.rdi as nat)],
            ) + seq!['\n'],
        ),
{
    reveal_with_fuel(text_of_template, 4);
    let write_arguments = seq![
        decimal(at_write.rdi as nat),
        debug_quoted(utf8_lossy(text_bytes(words, at_write.rdx as nat))),
        decimal(at_write.rdx as nat),
    ];
    let write_call = call_text(name_of(SYS_WRITE as int)->Some_0, write_arguments);
    assert(argument_texts(template_of(SYS_WRITE as int), at_write, words) =~= write_arguments);
    assert(write_call + Seq::<char>::empty() =~= write_call);
    assert(argument_texts(template_of(SYS_EXIT_GROUP as int), at_exit_group, Seq::empty())
        =~= seq![decimal(at_exit_group.rdi as nat)]);
}

/// A run of three stops and an exit: an entry whose text is fetched, an
/// exit, an entry without a text, and the exit of the tracee. What is
/// printed is the texts of the three stops and the report of the exit.
proof fn lemma_run_of_three_stops(
    pid: i32,
    trap: SignalInfo,
    entry: [u8; 88],
    exit: [u8; 88],
    at_write: RegisterSnapshot,
    words: Vec<u64>,
    after_write: RegisterSnapshot,
    at_exit_group: RegisterSnapshot,
    code: i32,
    first: Seq<char>,
    second: Seq<char>,
    third: Seq<char>,
)
    requires
        trap.signo == SIGTRAP,
        entry@[0] == OP_ENTRY,
        exit@[0] == OP_EXIT,
        text_to_fetch(StopKind::Entry, at_write) is Some,
        stop_text(StopKind::Entry, at_write, words@) == Some(first),
        text_to_fetch(StopKind::Exit, after_write) is None,
        stop_text(StopKind::Exit, after_write, Seq::empty()) == Some(second),
        text_to_fetch(StopKind::Entry, at_exit_group) is None,
        stop_text(StopKind::Entry, at_exit_group, Seq::empty()) == Some(third),
    ensures
        ({
            let events = write_then_exit_events(
                trap,
                entry,
                exit,
                at_write,
                words,
                after_write,
                at_exit_group,
                code,
            );
            &&& LoopView::start(pid).run(events).pending == Pending::Finished(
                Ok::<(), TreiceError>(()),
            )
            &&& LoopView::start(pid).run(events).tracee.state is Exited
            &&& LoopView::start(pid).printed(events) == first + second + third + exited_line_text(
                code,
            )
        }),
{
    let start = LoopView::start(pid);
    let part0 = seq![Event::Waited(Ok(ProcessStatus::Stopped)), Event::OptionsInstalled(Ok(()))];
    let part1 = reads_at_stop(trap, entry, at_write).push(Event::MemoryRead(Ok(words))).push(
        Event::Resumed,
    );
    let part2 = reads_at_stop(trap, exit, after_write).push(Event::Resumed);
    let part3 = reads_at_stop(trap, entry, at_exit_group).push(Event::Resumed);
    let one_stop = seq![Event::Waited(Ok(ProcessStatus::Stopped))];
    let one_exit = seq![Event::Waited(Ok(ProcessStatus::Exited(code)))];

    lemma_first_stop(pid);
    let v0 = start.run(part0);
    lemma_stop_shown_with_text(v0, trap, entry, at_write, words, first);
    lemma_run_in_parts(start, part0, part1);
    let a1 = part0 + part1;
    let v1 = start.run(a1);

    lemma_waited(v1, ProcessStatus::Stopped);
    lemma_run_in_parts(start, a1, one_stop);
    let a2 = a1 + one_stop;
    let v2 = start.run(a2);

    lemma_stop_shown(v2, trap, exit, after_write, second);
    lemma_run_in_parts(start, a2, part2);
    let a3 = a2 + part2;
    let v3 = start.run(a3);

    lemma_waited(v3, ProcessStatus::Stopped);
    lemma_run_in_parts(start, a3, one_stop);
    let a4 = a3 + one_stop;
    let v4 = start.run(a4);

    lemma_stop_shown(v4, trap, entry, at_exit_group, third);
    lemma_run_in_parts(start, a4, part3);
    let a5 = a4 + part3;
    let v5 = start.run(a5);

    lemma_waited(v5, ProcessStatus::Exited(code));
    lemma_run_in_parts(start, a5, one_exit);
    let a6 = a5 + one_exit;
    assert(start.printed(a6) =~= first + second + third + exited_line_text(code));
}

/// The trace of a program that writes and then leaves. Where the tracee
/// stops at the entry of `write`, at its exit and at the entry of
/// `exit_group`, and then exits, the loop prints the call of `write` with
/// the text from the tracee's memory and on the same line its return value,
/// then the call of `exit_group` on a line of its own, then the exit of the
/// tracee, and ends cleanly. This holds wherever the table of system calls
/// holds the two calls.
pub proof fn lemma_write_then_exit_group(
    pid: i32,
    trap: SignalInfo,
    entry: [u8; 88],
    exit: [u8; 88],
    at_write: RegisterSnapshot,
    words: Vec<u64>,
    after_write: RegisterSnapshot,
    at_exit_group: RegisterSnapshot,
    code: i32,
)
    requires
        trap.signo == SIGTRAP,
        entry@[0] == OP_ENTRY,
        exit@[0] == OP_EXIT,
        syscall_number(at_write.orig_rax) == SYS_WRITE,
        syscall_number(after_write.orig_rax) == SYS_WRITE,
        syscall_number(at_exit_group.orig_rax) == SYS_EXIT_GROUP,
    ensures
        ({
            let events = write_then_exit_events(
                trap,
                entry,
                exit,
                at_write,
                words,
                after_write,
                at_exit_group,
                code,
            );
            name_of(SYS_WRITE as int) is Some && name_of(SYS_EXIT_GROUP as int) is Some ==> {
                &&& LoopView::start(pid).run(events).action() == Action::Finish(
                    Ok::<(), TreiceError>(()),
                )
                &&& LoopView::start(pid).run(events).tracee.state is Exited
                &&& start_text(pid) + LoopView::start(pid).printed(events) == start_text(pid)
                    + call_text(
                    name_of(SYS_WRITE as int)->Some_0,
                    seq![
                        decimal(at_write.rdi as nat),
                        debug_quoted(utf8_lossy(text_bytes(words@, at_write.rdx as nat))),
                        decimal(at_write.rdx as nat),
                    ],
                ) + seq![' ', '=', ' '] + signed_decimal(signed_value(after_write.rax)) + seq![
                    '\n',
                ] + call_text(
                    name_of(SYS_EXIT_GROUP as int)->Some_0,
                    seq![decimal(at_exit_group.rdi as nat)],
                ) + seq!['\n'] + exited_line_text(code)
            }
        }),
{
    if name_of(SYS_WRITE as int) is Some && name_of(SYS_EXIT_GROUP as int) is Some {
        let first = call_text(
            name_of(SYS_WRITE as int)->Some_0,
            seq![
                decimal(at_write.rdi as nat),
                debug_quoted(utf8_lossy(text_bytes(words@, at_write.rdx as nat))),
                decimal(at_write.rdx as nat),
            ],
        );
        let second = seq![' ', '=', ' '] + signed_decimal(signed_value(after_write.rax)) + seq![
            '\n',
        ];
        let third = call_text(
            name_of(SYS_EXIT_GROUP as int)->Some_0,
            seq![decimal(at_exit_group.rdi as nat)],
        ) + seq!['\n'];
        lemma_texts_of_write_then_exit(at_write, words@, after_write, at_exit_group);
        lemma_run_of_three_stops(
            pid,
            trap,
            entry,
            exit,
            at_write,
            words,
            after_write,
            at_exit_group,
            code,
            first,
            second,
            third,
        );
        let events = write_then_exit_events(
            trap,
            entry,
            exit,
            at_write,
            words,
            after_write,
            at_exit_group,
            code,
        );
        assert(start_text(pid) + LoopView::start(pid).printed(events) =~= start_text(pid) + first
            + seq![' ', '=', ' '] + signed_decimal(signed_value(after_write.rax)) + seq!['\n']
            + call_text(
            name_of(SYS_EXIT_GROUP as int)->Some_0,
            seq![decimal(at_exit_group.rdi as nat)],
        ) + seq!['\n'] + exited_line_text(code));
    }
}

} // verus!
