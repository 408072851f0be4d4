use treice::signal::{
    exited_line, found_or_unknown, is_syscall_trap, killed_line, named_killed_line,
    named_signal_line, print_signal_data, signal_name, SignalInfo, SIGTRAP,
};

#[test]
fn signal_name_of_known_signals() {
    assert_eq!(signal_name(1), "SIGHUP");
    assert_eq!(signal_name(2), "SIGINT");
    assert_eq!(signal_name(5), "SIGTRAP");
    assert_eq!(signal_name(9), "SIGKILL");
    assert_eq!(signal_name(11), "SIGSEGV");
    assert_eq!(signal_name(15), "SIGTERM");
    assert_eq!(signal_name(17), "SIGCHLD");
}

#[test]
fn signal_name_of_a_number_that_is_no_signal() {
    assert_eq!(signal_name(0), "<unknown>");
    assert_eq!(signal_name(-1), "<unknown>");
    assert_eq!(signal_name(1000), "<unknown>");
}

#[test]
fn is_syscall_trap_tells_the_trap_from_other_signals() {
    assert_eq!(SIGTRAP, 5);
    assert!(is_syscall_trap(&SignalInfo { signo: 5, code: 0x85, pid: 1, uid: 2 }));
    assert!(!is_syscall_trap(&SignalInfo { signo: 17, code: 1, pid: 1, uid: 2 }));
    assert!(!is_syscall_trap(&SignalInfo { signo: 0, code: 5, pid: 5, uid: 5 }));
}

#[test]
fn signal_line_reports_the_signal() {
    let info = SignalInfo { signo: 17, code: 1, pid: 4242, uid: 1000 };
    assert_eq!(
        print_signal_data(&info),
        "--- SIGCHLD {si_signo=SIGCHLD, si_code=1, si_pid=4242, si_uid=1000} ---\n"
    );
    let info = SignalInfo { signo: 11, code: -6, pid: 0, uid: u32::MAX };
    assert_eq!(
        print_signal_data(&info),
        "--- SIGSEGV {si_signo=SIGSEGV, si_code=-6, si_pid=0, si_uid=4294967295} ---\n"
    );
}

#[test]
fn signal_line_of_a_number_that_is_no_signal() {
    let info = SignalInfo { signo: 0, code: 0, pid: 0, uid: 0 };
    assert_eq!(
        print_signal_data(&info),
        "--- <unknown> {si_signo=<unknown>, si_code=0, si_pid=0, si_uid=0} ---\n"
    );
}

#[test]
fn exited_line_reports_the_status() {
    assert_eq!(exited_line(0), "+++ exited with 0 +++\n");
    assert_eq!(exited_line(1), "+++ exited with 1 +++\n");
    assert_eq!(exited_line(255), "+++ exited with 255 +++\n");
}

#[test]
fn killed_line_reports_the_signal() {
    assert_eq!(killed_line(9), "+++ killed by SIGKILL +++\n");
    assert_eq!(killed_line(11), "+++ killed by SIGSEGV +++\n");
    assert_eq!(killed_line(1234), "+++ killed by <unknown> +++\n");
}

#[test]
fn found_or_unknown_keeps_a_name_that_was_found() {
    assert_eq!(found_or_unknown(Some(String::from("SIGUSR1"))), "SIGUSR1");
    assert_eq!(found_or_unknown(Some(String::new())), "");
    assert_eq!(found_or_unknown(None), "<unknown>");
}

#[test]
fn named_signal_line_puts_the_name_in_both_places() {
    let info = SignalInfo { signo: 2, code: -1, pid: 7, uid: 0 };
    assert_eq!(
        named_signal_line("NAME", &info),
        "--- NAME {si_signo=NAME, si_code=-1, si_pid=7, si_uid=0} ---\n"
    );
    assert_eq!(
        named_signal_line("", &info),
        "---  {si_signo=, si_code=-1, si_pid=7, si_uid=0} ---\n"
    );
}

#[test]
fn named_killed_line_names_the_signal() {
    assert_eq!(named_killed_line("SIGTERM"), "+++ killed by SIGTERM +++\n");
}
