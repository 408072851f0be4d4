//! Signals that stop the tracee: their names, and the lines that report them.

use crate::text::{decimal, decimal_text, int_text, signed_decimal};
use nix::sys::signal::Signal;
use vstd::prelude::*;
use vstd::string::StringExecFns;

verus! {

/// The number of the signal that a traced system call stops the tracee with.
pub const SIGTRAP: i32 = 5;

/// What the kernel tells of the signal at which the tracee stopped.
#[derive(Debug, Clone, Copy, PartialEq, Eq, Structural)]
pub struct SignalInfo {
    /// The number of the signal.
    pub signo: i32,
    /// Why the signal was sent.
    pub code: i32,
    /// The process that sent it.
    pub pid: i32,
    /// The user that sent it.
    pub uid: u32,
}

/// The name that `nix` has for a signal number, if it knows the number.
pub uninterp spec fn known_signal_name(signo: i32) -> Option<Seq<char>>;

/// Converts the number with `Signal::try_from` and gives the name of the
/// signal, as `Signal::as_str` returns it. Trusted: the outcome is a function
/// of the number.
#[verifier::external_body]
fn lookup_signal_name(signo: i32) -> (name: Option<String>)
    ensures
        match name {
            Some(text) => known_signal_name(signo) == Some(text@),
            None => known_signal_name(signo) is None,
        },
{
    match Signal::try_from(signo) {
        Ok(signal) => Some(signal.as_str().to_string()),
        Err(_) => None,
    }
}

/// The name that was found, or `<unknown>` where none was.
pub open spec fn name_or_unknown(found: Option<Seq<char>>) -> Seq<char> {
    match found {
        Some(name) => name,
        None => "<unknown>"@,
    }
}

/// The name under which a signal is reported.
pub open spec fn signal_name_text(signo: i32) -> Seq<char> {
    name_or_unknown(known_signal_name(signo))
}

/// The line that reports a signal of the given name at which the tracee
/// stopped.
pub open spec fn named_signal_line_text(name: Seq<char>, info: SignalInfo) -> Seq<char> {
    "--- "@ + name + " {si_signo="@ + name + ", si_code="@ + signed_decimal(info.code as int)
        + ", si_pid="@ + signed_decimal(info.pid as int) + ", si_uid="@ + decimal(info.uid as nat)
        + "} ---\n"@
}

/// The line that reports a signal at which the tracee stopped.
pub open spec fn signal_line_text(info: SignalInfo) -> Seq<char> {
    named_signal_line_text(signal_name_text(info.signo), info)
}

/// The line that reports the normal end of the tracee.
pub open spec fn exited_line_text(code: i32) -> Seq<char> {
    "+++ exited with "@ + signed_decimal(code as int) + " +++\n"@
}

/// The line that reports the end of the tracee by a signal of the given name.
pub open spec fn named_killed_line_text(name: Seq<char>) -> Seq<char> {
    "+++ killed by "@ + name + " +++\n"@
}

/// The line that reports the end of the tracee by a signal.
pub open spec fn killed_line_text(signo: i32) -> Seq<char> {
    named_killed_line_text(signal_name_text(signo))
}

/// The name that was found, or `<unknown>` where none was.
pub fn found_or_unknown(found: Option<String>) -> (name: String)
    ensures
        name@ == name_or_unknown(
            match found {
                Some(text) => Some(text@),
                None => None,
            },
        ),
{
    match found {
        Some(name) => name,
        None => String::from_str("<unknown>"),
    }
}

/// The name under which a signal is reported: the name of the signal, or
/// `<unknown>` for a number that is no signal.
pub fn signal_name(signo: i32) -> (name: String)
    ensures
        name@ == signal_name_text(signo),
{
    found_or_unknown(lookup_signal_name(signo))
}

/// Whether the signal is the trap of a traced system call, which is not
/// reported.
pub fn is_syscall_trap(info: &SignalInfo) -> (trap: bool)
    ensures
        trap == (info.signo == SIGTRAP),
{
    info.signo == SIGTRAP
}

/// The line that reports a signal of the given name at which the tracee
/// stopped.
pub fn named_signal_line(name: &str, info: &SignalInfo) -> (line: String)
    ensures
        line@ == named_signal_line_text(name@, *info),
{
    let code: String = int_text(info.code);
    let pid: String = int_text(info.pid);
    let uid: String = decimal_text(info.uid as u64);
    let mut line: String = String::from_str("--- ");
    line.append(name);
    line.append(" {si_signo=");
    line.append(name);
    line.append(", si_code=");
    line.append(code.as_str());
    line.append(", si_pid=");
    line.append(pid.as_str());
    line.append(", si_uid=");
    line.append(uid.as_str());
    line.append("} ---\n");
    assert(line@ =~= named_signal_line_text(name@, *info));
    line
}

/// What is printed for a signal at which the tracee stopped: the line that
/// reports it.
pub fn print_signal_data(info: &SignalInfo) -> (line: String)
    ensures
        line@ == signal_line_text(*info),
{
    let name: String = signal_name(info.signo);
    named_signal_line(name.as_str(), info)
}

/// The line that reports the normal end of the tracee.
pub fn exited_line(code: i32) -> (line: String)
    ensures
        line@ == exited_line_text(code),
{
    let digits: String = int_text(code);
    let mut line: String = String::from_str("+++ exited with ");
    line.append(digits.as_str());
    line.append(" +++\n");
    assert(line@ =~= exited_line_text(code));
    line
}

/// The line that reports the end of the tracee by a signal of the given name.
pub fn named_killed_line(name: &str) -> (line: String)
    ensures
        line@ == named_killed_line_text(name@),
{
    let mut line: String = String::from_str("+++ killed by ");
    line.append(name);
    line.append(" +++\n");
    assert(line@ =~= named_killed_line_text(name@));
    line
}

/// The line that reports the end of the tracee by a signal.
pub fn killed_line(signo: i32) -> (line: String)
    ensures
        line@ == killed_line_text(signo),
{
    let name: String = signal_name(signo);
    named_killed_line(name.as_str())
}

} // verus!
