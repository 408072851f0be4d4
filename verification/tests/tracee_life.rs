use treice::tracee::{ProcessStatus, Tracee, TraceeState};

#[test]
fn new_tracee_is_spawned_without_options() {
    let tracee = Tracee::new(4242);
    assert_eq!(tracee.pid(), 4242);
    assert!(!tracee.has_set_options());
    assert!(tracee.needs_tracing_options());
    assert_eq!(tracee.state(), TraceeState::Spawned);
    assert!(!tracee.has_ended());
}

#[test]
fn options_stay_installed() {
    let mut tracee = Tracee::new(1);
    tracee.record_options_installed();
    assert!(tracee.has_set_options());
    assert!(!tracee.needs_tracing_options());
    tracee.record_options_installed();
    assert!(tracee.has_set_options());
    tracee.record_status(ProcessStatus::Stopped);
    tracee.record_resume();
    tracee.record_status(ProcessStatus::Exited(0));
    assert!(tracee.has_set_options());
    assert_eq!(tracee.pid(), 1);
}

#[test]
fn tracee_stops_and_runs_in_turn() {
    let mut tracee = Tracee::new(1);
    tracee.record_status(ProcessStatus::Stopped);
    assert_eq!(tracee.state(), TraceeState::Stopped);
    tracee.record_resume();
    assert_eq!(tracee.state(), TraceeState::Running);
    tracee.record_status(ProcessStatus::Stopped);
    assert_eq!(tracee.state(), TraceeState::Stopped);
    assert!(!tracee.has_ended());
}

#[test]
fn tracee_that_exited_stays_exited() {
    let mut tracee = Tracee::new(1);
    tracee.record_status(ProcessStatus::Exited(3));
    assert_eq!(tracee.state(), TraceeState::Exited);
    assert!(tracee.has_ended());
    tracee.record_resume();
    assert_eq!(tracee.state(), TraceeState::Exited);
    tracee.record_status(ProcessStatus::Stopped);
    assert_eq!(tracee.state(), TraceeState::Exited);
    tracee.record_status(ProcessStatus::Signaled(9));
    assert_eq!(tracee.state(), TraceeState::Exited);
}

#[test]
fn tracee_that_was_killed_stays_killed() {
    let mut tracee = Tracee::new(1);
    tracee.record_status(ProcessStatus::Stopped);
    tracee.record_resume();
    tracee.record_status(ProcessStatus::Signaled(9));
    assert_eq!(tracee.state(), TraceeState::Signaled);
    assert!(tracee.has_ended());
    tracee.record_resume();
    tracee.record_status(ProcessStatus::Exited(0));
    assert_eq!(tracee.state(), TraceeState::Signaled);
}
