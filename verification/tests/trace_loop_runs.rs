use treice::error::{TreiceError, ESRCH};
use treice::exec::get_executable_path_from_args;
use treice::signal::SignalInfo;
use treice::syscall::{RegisterSnapshot, StopKind, TextRequest};
use treice::trace_loop::{after_stop_text, Action, Event, Pending, TraceLoop};
use treice::tracee::{ProcessStatus, TraceeState};

fn trap() -> Event {
    Event::SignalInfoRead(Ok(SignalInfo { signo: 5, code: 0x85, pid: 0, uid: 0 }))
}

fn record(op: u8, nr: u64) -> Event {
    let mut raw = [0u8; 88];
    raw[0] = op;
    raw[24..32].copy_from_slice(&nr.to_le_bytes());
    Event::SyscallInfoRead(Ok(raw))
}

fn registers(orig_rax: u64, rax: u64, rdi: u64, rsi: u64, rdx: u64) -> RegisterSnapshot {
    RegisterSnapshot { orig_rax, rax, rdi, rsi, rdx, r10: 0, r8: 0, r9: 0, rip: 0, rsp: 0 }
}

fn feed(traced: &mut TraceLoop, printed: &mut String, event: Event) -> Action {
    let step = traced.step(event);
    printed.push_str(&step.output);
    assert_eq!(step.action, traced.action());
    step.action
}

fn started(pid: i32) -> (TraceLoop, String) {
    let (traced, first) = TraceLoop::new(pid);
    assert_eq!(first.action, Action::Wait);
    (traced, first.output)
}

fn to_registers(traced: &mut TraceLoop, printed: &mut String, op: u8, nr: u64) {
    let after_wait = feed(traced, printed, Event::Waited(Ok(ProcessStatus::Stopped)));
    if after_wait == Action::InstallOptions {
        assert_eq!(feed(traced, printed, Event::OptionsInstalled(Ok(()))), Action::ReadSignalInfo);
    } else {
        assert_eq!(after_wait, Action::ReadSignalInfo);
    }
    assert_eq!(feed(traced, printed, trap()), Action::ReadSyscallInfo);
    assert_eq!(feed(traced, printed, record(op, nr)), Action::ReadRegisters);
}

#[test]
fn new_loop_announces_the_tracee_and_waits() {
    let (traced, first) = TraceLoop::new(4242);
    assert_eq!(first.output, "Tracee PID: 4242\n\n");
    assert_eq!(first.action, Action::Wait);
    assert_eq!(traced.action(), Action::Wait);
    assert_eq!(traced.pending(), Pending::Wait);
    assert!(!traced.is_finished());
    assert_eq!(traced.tracee().pid(), 4242);
    assert_eq!(traced.tracee().state(), TraceeState::Spawned);
    assert!(!traced.tracee().has_set_options());
}

#[test]
fn tracing_write_then_exit_group() {
    let (mut traced, mut printed) = started(4242);
    let t = &mut traced;
    let p = &mut printed;

    to_registers(t, p, 0, 0);
    assert_eq!(
        feed(t, p, Event::RegistersRead(Ok(registers(59, 0, 0, 0, 0)))),
        Action::Resume { signal: None }
    );
    assert_eq!(feed(t, p, Event::Resumed), Action::Wait);

    to_registers(t, p, 1, 1);
    assert_eq!(
        feed(t, p, Event::RegistersRead(Ok(registers(1, (-38i64) as u64, 1, 0x1000, 2)))),
        Action::ReadMemory { address: 0x1000, word_count: 2 }
    );
    assert_eq!(
        feed(t, p, Event::MemoryRead(Ok(vec![0x6968, 0]))),
        Action::Resume { signal: None }
    );
    assert_eq!(feed(t, p, Event::Resumed), Action::Wait);

    to_registers(t, p, 2, 0);
    assert_eq!(
        feed(t, p, Event::RegistersRead(Ok(registers(1, 2, 1, 0x1000, 2)))),
        Action::Resume { signal: None }
    );
    assert_eq!(feed(t, p, Event::Resumed), Action::Wait);

    to_registers(t, p, 1, 231);
    assert_eq!(
        feed(t, p, Event::RegistersRead(Ok(registers(231, (-38i64) as u64, 0, 0, 0)))),
        Action::Resume { signal: None }
    );
    assert_eq!(feed(t, p, Event::Resumed), Action::Wait);

    assert_eq!(
        feed(t, p, Event::Waited(Ok(ProcessStatus::Exited(0)))),
        Action::Finish(Ok(()))
    );
    assert_eq!(
        printed,
        "Tracee PID: 4242\n\nwrite(1, \"hi\", 2) = 2\nexit_group(0)\n+++ exited with 0 +++\n"
    );
    assert!(traced.is_finished());
    assert_eq!(traced.tracee().state(), TraceeState::Exited);
}

#[test]
fn tracing_a_program_killed_by_a_signal() {
    let (mut traced, mut printed) = started(77);
    let t = &mut traced;
    let p = &mut printed;
    to_registers(t, p, 0, 0);
    assert_eq!(
        feed(t, p, Event::RegistersRead(Ok(registers(59, 0, 0, 0, 0)))),
        Action::Resume { signal: None }
    );
    assert_eq!(feed(t, p, Event::Resumed), Action::Wait);
    assert_eq!(
        feed(t, p, Event::Waited(Ok(ProcessStatus::Signaled(9)))),
        Action::Finish(Ok(()))
    );
    assert_eq!(*p, "Tracee PID: 77\n\n+++ killed by SIGKILL +++\n");
    assert_eq!(t.tracee().state(), TraceeState::Signaled);
    for event in [
        Event::Resumed,
        Event::Waited(Ok(ProcessStatus::Stopped)),
        Event::RegistersRead(Ok(registers(1, 0, 1, 2, 3))),
        record(1, 1),
    ] {
        assert_eq!(feed(t, p, event), Action::Finish(Ok(())));
    }
    assert_eq!(printed, "Tracee PID: 77\n\n+++ killed by SIGKILL +++\n");
}

#[test]
fn no_executable_given_ends_before_tracing() {
    let args: Vec<String> = vec![String::from("treice")];
    let found = get_executable_path_from_args(&args, &Some(String::from("/bin")), &vec![true]);
    assert_eq!(found, Err(TreiceError::NoExecutableProvided));
    assert_eq!(TreiceError::NoExecutableProvided.exit_code(), 1);
    assert_eq!(TreiceError::NoExecutableProvided.message(), "No executable specified");
}

#[test]
fn ended_tracee_gets_no_further_request() {
    for status in [ProcessStatus::Exited(3), ProcessStatus::Signaled(11)] {
        let (mut traced, mut printed) = started(1);
        assert_eq!(
            feed(&mut traced, &mut printed, Event::Waited(Ok(status))),
            Action::Finish(Ok(()))
        );
        let state = traced.tracee().state();
        let before = printed.clone();
        let events = vec![
            Event::Waited(Ok(ProcessStatus::Stopped)),
            Event::Waited(Ok(ProcessStatus::Exited(0))),
            Event::Waited(Err(10)),
            Event::OptionsInstalled(Ok(())),
            Event::OptionsInstalled(Err(1)),
            trap(),
            Event::SignalInfoRead(Err(3)),
            record(1, 1),
            Event::SyscallInfoRead(Err(3)),
            Event::RegistersRead(Ok(registers(1, 0, 1, 2, 3))),
            Event::RegistersRead(Err(5)),
            Event::MemoryRead(Ok(vec![1, 2])),
            Event::MemoryRead(Err(14)),
            Event::Resumed,
        ];
        for event in events {
            assert_eq!(feed(&mut traced, &mut printed, event), Action::Finish(Ok(())));
            assert_eq!(traced.pending(), Pending::Finished(Ok(())));
            assert_eq!(traced.tracee().state(), state);
        }
        assert_eq!(printed, before);
    }
}

#[test]
fn options_are_installed_once() {
    let (mut traced, mut printed) = started(1);
    let t = &mut traced;
    let p = &mut printed;
    assert_eq!(feed(t, p, Event::Waited(Ok(ProcessStatus::Stopped))), Action::InstallOptions);
    assert!(!t.tracee().has_set_options());
    assert_eq!(feed(t, p, Event::OptionsInstalled(Ok(()))), Action::ReadSignalInfo);
    assert!(t.tracee().has_set_options());
    for _ in 0..3 {
        assert_eq!(feed(t, p, trap()), Action::ReadSyscallInfo);
        assert_eq!(feed(t, p, record(0, 0)), Action::ReadRegisters);
        assert_eq!(
            feed(t, p, Event::RegistersRead(Ok(registers(0, 0, 0, 0, 0)))),
            Action::Resume { signal: None }
        );
        assert_eq!(feed(t, p, Event::Resumed), Action::Wait);
        assert_eq!(feed(t, p, Event::Waited(Ok(ProcessStatus::Stopped))), Action::ReadSignalInfo);
        assert!(t.tracee().has_set_options());
    }
}

#[test]
fn signal_that_is_no_trap_is_reported_and_delivered() {
    let (mut traced, mut printed) = started(1);
    let t = &mut traced;
    let p = &mut printed;
    feed(t, p, Event::Waited(Ok(ProcessStatus::Stopped)));
    feed(t, p, Event::OptionsInstalled(Ok(())));
    p.clear();
    let info = SignalInfo { signo: 17, code: 1, pid: 4243, uid: 1000 };
    assert_eq!(feed(t, p, Event::SignalInfoRead(Ok(info))), Action::ReadSyscallInfo);
    assert_eq!(p, "--- SIGCHLD {si_signo=SIGCHLD, si_code=1, si_pid=4243, si_uid=1000} ---\n");
    assert_eq!(feed(t, p, record(0, 0)), Action::ReadRegisters);
    assert_eq!(
        feed(t, p, Event::RegistersRead(Ok(registers(u64::MAX, 0, 0, 0, 0)))),
        Action::Resume { signal: Some(17) }
    );
    assert_eq!(p, "--- SIGCHLD {si_signo=SIGCHLD, si_code=1, si_pid=4243, si_uid=1000} ---\n");
    assert_eq!(feed(t, p, Event::Resumed), Action::Wait);
    to_registers(t, p, 0, 0);
    assert_eq!(
        feed(t, p, Event::RegistersRead(Ok(registers(0, 0, 0, 0, 0)))),
        Action::Resume { signal: None }
    );
}

#[test]
fn seccomp_stop_is_shown_as_an_entry() {
    let (mut traced, mut printed) = started(1);
    let t = &mut traced;
    let p = &mut printed;
    to_registers(t, p, 3, 3);
    assert_eq!(t.pending(), Pending::Registers(StopKind::Entry));
    assert_eq!(
        feed(t, p, Event::RegistersRead(Ok(registers(3, 0, 9, 0, 0)))),
        Action::Resume { signal: None }
    );
    assert_eq!(printed, "Tracee PID: 1\n\nclose(9)");
}

#[test]
fn stop_that_is_no_syscall_stop_prints_nothing() {
    let (mut traced, mut printed) = started(1);
    let t = &mut traced;
    let p = &mut printed;
    to_registers(t, p, 0, 0);
    assert_eq!(t.pending(), Pending::Registers(StopKind::NotSyscall));
    assert_eq!(
        feed(t, p, Event::RegistersRead(Ok(registers(1, 0, 1, 0x1000, 2)))),
        Action::Resume { signal: None }
    );
    assert_eq!(printed, "Tracee PID: 1\n\n");
}

#[test]
fn text_of_getrandom_is_fetched_from_memory() {
    let (mut traced, mut printed) = started(1);
    let t = &mut traced;
    let p = &mut printed;
    to_registers(t, p, 1, 318);
    let snapshot = registers(318, 0, 0x7ffc_0000, 9, 1);
    assert_eq!(
        feed(t, p, Event::RegistersRead(Ok(snapshot))),
        Action::ReadMemory { address: 0x7ffc_0000, word_count: 3 }
    );
    assert_eq!(
        t.pending(),
        Pending::Memory {
            registers: snapshot,
            request: TextRequest { address: 0x7ffc_0000, byte_count: 9 }
        }
    );
    let words = vec![u64::from_le_bytes(*b"abcdefgh"), u64::from_le_bytes(*b"i\0\0\0\0\0\0\0"), 0];
    assert_eq!(feed(t, p, Event::MemoryRead(Ok(words))), Action::Resume { signal: None });
    assert_eq!(printed, "Tracee PID: 1\n\ngetrandom(\"abcdefghi\", 1, /* TODO */)");
}

#[test]
fn request_that_finds_no_process_ends_the_loop_cleanly() {
    let (mut traced, mut printed) = started(1);
    feed(&mut traced, &mut printed, Event::Waited(Ok(ProcessStatus::Stopped)));
    assert_eq!(
        feed(&mut traced, &mut printed, Event::OptionsInstalled(Err(ESRCH))),
        Action::Finish(Ok(()))
    );

    let (mut traced, mut printed) = started(1);
    feed(&mut traced, &mut printed, Event::Waited(Ok(ProcessStatus::Stopped)));
    feed(&mut traced, &mut printed, Event::OptionsInstalled(Ok(())));
    assert_eq!(
        feed(&mut traced, &mut printed, Event::SignalInfoRead(Err(ESRCH))),
        Action::Finish(Ok(()))
    );

    let (mut traced, mut printed) = started(1);
    feed(&mut traced, &mut printed, Event::Waited(Ok(ProcessStatus::Stopped)));
    feed(&mut traced, &mut printed, Event::OptionsInstalled(Ok(())));
    feed(&mut traced, &mut printed, trap());
    assert_eq!(
        feed(&mut traced, &mut printed, Event::SyscallInfoRead(Err(ESRCH))),
        Action::Finish(Ok(()))
    );

    let (mut traced, mut printed) = started(1);
    to_registers(&mut traced, &mut printed, 1, 1);
    assert_eq!(
        feed(&mut traced, &mut printed, Event::RegistersRead(Err(ESRCH))),
        Action::Finish(Ok(()))
    );

    let (mut traced, mut printed) = started(1);
    to_registers(&mut traced, &mut printed, 1, 1);
    feed(&mut traced, &mut printed, Event::RegistersRead(Ok(registers(1, 0, 1, 0x1000, 2))));
    assert_eq!(
        feed(&mut traced, &mut printed, Event::MemoryRead(Err(ESRCH))),
        Action::Finish(Ok(()))
    );
    assert_eq!(printed, "Tracee PID: 1\n\n");
    assert!(traced.is_finished());
}

#[test]
fn request_that_fails_ends_the_loop_with_its_failure() {
    let (mut traced, mut printed) = started(1);
    assert_eq!(
        feed(&mut traced, &mut printed, Event::Waited(Err(10))),
        Action::Finish(Err(TreiceError::ChildWaitFailure(10)))
    );
    let (mut traced, mut printed) = started(1);
    assert_eq!(
        feed(&mut traced, &mut printed, Event::Waited(Err(ESRCH))),
        Action::Finish(Err(TreiceError::ChildWaitFailure(ESRCH)))
    );

    let (mut traced, mut printed) = started(1);
    feed(&mut traced, &mut printed, Event::Waited(Ok(ProcessStatus::Stopped)));
    assert_eq!(
        feed(&mut traced, &mut printed, Event::OptionsInstalled(Err(22))),
        Action::Finish(Err(TreiceError::OptionsSetFailure(22)))
    );

    let (mut traced, mut printed) = started(1);
    feed(&mut traced, &mut printed, Event::Waited(Ok(ProcessStatus::Stopped)));
    feed(&mut traced, &mut printed, Event::OptionsInstalled(Ok(())));
    assert_eq!(
        feed(&mut traced, &mut printed, Event::SignalInfoRead(Err(5))),
        Action::Finish(Err(TreiceError::SignalInfoReadFailure(5)))
    );

    let (mut traced, mut printed) = started(1);
    feed(&mut traced, &mut printed, Event::Waited(Ok(ProcessStatus::Stopped)));
    feed(&mut traced, &mut printed, Event::OptionsInstalled(Ok(())));
    feed(&mut traced, &mut printed, trap());
    assert_eq!(
        feed(&mut traced, &mut printed, Event::SyscallInfoRead(Err(5))),
        Action::Finish(Err(TreiceError::RegistersReadFailure(5)))
    );

    let (mut traced, mut printed) = started(1);
    to_registers(&mut traced, &mut printed, 1, 1);
    assert_eq!(
        feed(&mut traced, &mut printed, Event::RegistersRead(Err(5))),
        Action::Finish(Err(TreiceError::RegistersReadFailure(5)))
    );

    let (mut traced, mut printed) = started(1);
    to_registers(&mut traced, &mut printed, 1, 1);
    feed(&mut traced, &mut printed, Event::RegistersRead(Ok(registers(1, 0, 1, 0x1000, 2))));
    assert_eq!(
        feed(&mut traced, &mut printed, Event::MemoryRead(Err(14))),
        Action::Finish(Err(TreiceError::MemoryReadFailure(14)))
    );
    assert_eq!(printed, "Tracee PID: 1\n\n");
    assert_eq!(
        feed(&mut traced, &mut printed, Event::Resumed),
        Action::Finish(Err(TreiceError::MemoryReadFailure(14)))
    );
}

#[test]
fn record_of_an_unknown_kind_ends_the_loop() {
    for op in [4u8, 5, 100, 255] {
        let (mut traced, mut printed) = started(1);
        feed(&mut traced, &mut printed, Event::Waited(Ok(ProcessStatus::Stopped)));
        feed(&mut traced, &mut printed, Event::OptionsInstalled(Ok(())));
        feed(&mut traced, &mut printed, trap());
        assert_eq!(
            feed(&mut traced, &mut printed, record(op, 1)),
            Action::Finish(Err(TreiceError::SyscallInfoDecodeFailure))
        );
        assert_eq!(printed, "Tracee PID: 1\n\n");
    }
}

#[test]
fn call_that_the_table_does_not_hold_ends_the_loop() {
    let (mut traced, mut printed) = started(1);
    to_registers(&mut traced, &mut printed, 1, 9999);
    assert_eq!(
        feed(&mut traced, &mut printed, Event::RegistersRead(Ok(registers(9999, 0, 0, 0, 0)))),
        Action::Finish(Err(TreiceError::UnknownSyscall(9999)))
    );
    assert_eq!(printed, "Tracee PID: 1\n\n");
    let (mut traced, mut printed) = started(1);
    to_registers(&mut traced, &mut printed, 1, u64::MAX);
    assert_eq!(
        feed(&mut traced, &mut printed, Event::RegistersRead(Ok(registers(u64::MAX, 0, 0, 0, 0)))),
        Action::Finish(Err(TreiceError::UnknownSyscall(-1)))
    );
}

#[test]
fn outcome_of_another_request_changes_nothing() {
    let (mut traced, mut printed) = started(1);
    let t = &mut traced;
    let p = &mut printed;
    assert_eq!(feed(t, p, Event::Resumed), Action::Wait);
    assert_eq!(feed(t, p, trap()), Action::Wait);
    assert_eq!(t.tracee().state(), TraceeState::Spawned);
    assert_eq!(feed(t, p, Event::Waited(Ok(ProcessStatus::Stopped))), Action::InstallOptions);
    assert_eq!(feed(t, p, Event::Waited(Ok(ProcessStatus::Exited(0)))), Action::InstallOptions);
    assert_eq!(feed(t, p, Event::MemoryRead(Ok(vec![0x6968]))), Action::InstallOptions);
    assert_eq!(t.tracee().state(), TraceeState::Stopped);
    assert_eq!(feed(t, p, Event::OptionsInstalled(Ok(()))), Action::ReadSignalInfo);
    assert_eq!(feed(t, p, Event::OptionsInstalled(Ok(()))), Action::ReadSignalInfo);
    assert_eq!(feed(t, p, trap()), Action::ReadSyscallInfo);
    assert_eq!(feed(t, p, trap()), Action::ReadSyscallInfo);
    assert_eq!(feed(t, p, record(1, 1)), Action::ReadRegisters);
    assert_eq!(feed(t, p, record(2, 1)), Action::ReadRegisters);
    assert_eq!(
        feed(t, p, Event::RegistersRead(Ok(registers(1, 0, 1, 0x1000, 2)))),
        Action::ReadMemory { address: 0x1000, word_count: 2 }
    );
    assert_eq!(
        feed(t, p, Event::RegistersRead(Ok(registers(3, 0, 1, 0, 0)))),
        Action::ReadMemory { address: 0x1000, word_count: 2 }
    );
    assert_eq!(feed(t, p, Event::MemoryRead(Ok(vec![0x6968, 0]))), Action::Resume { signal: None });
    assert_eq!(
        feed(t, p, Event::Waited(Ok(ProcessStatus::Stopped))),
        Action::Resume { signal: None }
    );
    assert_eq!(printed, "Tracee PID: 1\n\nwrite(1, \"hi\", 2)");
}

#[test]
fn after_stop_text_resumes_where_there_is_a_text() {
    assert_eq!(
        after_stop_text(Some(String::from("close(3)")), 3),
        (Pending::Resume, String::from("close(3)"))
    );
    assert_eq!(after_stop_text(Some(String::new()), -1), (Pending::Resume, String::new()));
}

#[test]
fn after_stop_text_ends_the_loop_where_there_is_none() {
    assert_eq!(
        after_stop_text(None, 9999),
        (Pending::Finished(Err(TreiceError::UnknownSyscall(9999))), String::new())
    );
}
