//! The failures of the tracer, the message of each and the status with which
//! the process ends on it.

use crate::text::{int_text, signed_decimal};
use nix::errno::Errno;
use vstd::prelude::*;
use vstd::string::StringExecFns;

verus! {

/// A failure of the tracer. Where the operating system refused a request the
/// failure carries the error number that it gave.
#[derive(Debug, Clone, Copy, PartialEq, Eq, Structural)]
pub enum TreiceError {
    /// No executable was named on the command line.
    NoExecutableProvided,
    /// The executable that was named could not be found.
    ExecutableNotFound,
    /// The tracer could not fork.
    ForkFailure(i32),
    /// Waiting for the tracee failed.
    ChildWaitFailure(i32),
    /// The signal at which the tracee stopped could not be read.
    SignalInfoReadFailure(i32),
    /// The registers of the tracee, or the record of its system call, could
    /// not be read.
    RegistersReadFailure(i32),
    /// The trace options could not be installed.
    OptionsSetFailure(i32),
    /// The memory of the tracee could not be read.
    MemoryReadFailure(i32),
    /// The record of a system call was of no known kind.
    SyscallInfoDecodeFailure,
    /// The tracee made a system call whose number the table of system calls
    /// does not hold.
    UnknownSyscall(i32),
}

/// The error number that means that there is no such process.
pub const ESRCH: i32 = 3;

/// The text that `nix` gives for an error number: its name and what it
/// means.
pub uninterp spec fn errno_description(code: i32) -> Seq<char>;

/// Formats `Errno::from_raw(code)` with `{}`. Trusted: the text is a function
/// of the error number.
#[verifier::external_body]
fn describe_errno(code: i32) -> (text: String)
    ensures
        text@ == errno_description(code),
{
    format!("{}", Errno::from_raw(code))
}

/// How an error number is reported: the text that describes it, and the
/// number itself.
pub open spec fn described_errno(description: Seq<char>, code: i32) -> Seq<char> {
    description + " (os error "@ + signed_decimal(code as int) + ")"@
}

/// How an error number is reported, with the text that `nix` gives for it.
pub open spec fn errno_report(code: i32) -> Seq<char> {
    described_errno(errno_description(code), code)
}

impl TreiceError {
    /// The status with which the process ends on this failure. The kinds of
    /// failure have different statuses, none of them zero, which stands for
    /// a clean end.
    pub open spec fn spec_exit_code(self) -> int {
        match self {
            TreiceError::NoExecutableProvided => 1,
            TreiceError::ExecutableNotFound => 2,
            TreiceError::ForkFailure(_) => 3,
            TreiceError::ChildWaitFailure(_) => 4,
            TreiceError::SignalInfoReadFailure(_) => 5,
            TreiceError::RegistersReadFailure(_) => 6,
            TreiceError::OptionsSetFailure(_) => 7,
            TreiceError::MemoryReadFailure(_) => 8,
            TreiceError::SyscallInfoDecodeFailure => 9,
            TreiceError::UnknownSyscall(_) => 10,
        }
    }

    /// The error number that this failure carries, if it carries one.
    pub open spec fn spec_errno(self) -> Option<i32> {
        match self {
            TreiceError::ForkFailure(code) => Some(code),
            TreiceError::ChildWaitFailure(code) => Some(code),
            TreiceError::SignalInfoReadFailure(code) => Some(code),
            TreiceError::RegistersReadFailure(code) => Some(code),
            TreiceError::OptionsSetFailure(code) => Some(code),
            TreiceError::MemoryReadFailure(code) => Some(code),
            _ => None,
        }
    }

    /// The message of this failure, where `description` is the text that
    /// describes its error number. A failure that carries no error number
    /// makes no use of the description.
    pub open spec fn described_message(self, description: Seq<char>) -> Seq<char> {
        match self {
            TreiceError::NoExecutableProvided => "No executable specified"@,
            TreiceError::ExecutableNotFound => "Could not find executable"@,
            TreiceError::ForkFailure(code) => "Failed to fork tracer process: "@
                + described_errno(description, code),
            TreiceError::ChildWaitFailure(code) => "Failed to wait for child process: "@
                + described_errno(description, code),
            TreiceError::SignalInfoReadFailure(code) => "Failed to get signal info: "@
                + described_errno(description, code),
            TreiceError::RegistersReadFailure(code) => "Failed to read registers: "@
                + described_errno(description, code),
            TreiceError::OptionsSetFailure(code) =>
                "Failed to set tracing options for the tracee: "@ + described_errno(
                    description,
                    code,
                ),
            TreiceError::MemoryReadFailure(code) => "Failed to read the memory of the tracee: "@
                + described_errno(description, code),
            TreiceError::SyscallInfoDecodeFailure => "Failed to decode the system call record"@,
            TreiceError::UnknownSyscall(number) => "Unknown system call: "@ + signed_decimal(
                number as int,
            ),
        }
    }

    /// The message of this failure, with the text that `nix` gives for its
    /// error number.
    pub open spec fn spec_message(self) -> Seq<char> {
        match self.spec_errno() {
            Some(code) => self.described_message(errno_description(code)),
            None => self.described_message(Seq::empty()),
        }
    }

    /// The status with which the process ends on this failure.
    pub fn exit_code(&self) -> (code: i32)
        ensures
            code == self.spec_exit_code(),
    {
        match self {
            TreiceError::NoExecutableProvided => 1,
            TreiceError::ExecutableNotFound => 2,
            TreiceError::ForkFailure(_) => 3,
            TreiceError::ChildWaitFailure(_) => 4,
            TreiceError::SignalInfoReadFailure(_) => 5,
            TreiceError::RegistersReadFailure(_) => 6,
            TreiceError::OptionsSetFailure(_) => 7,
            TreiceError::MemoryReadFailure(_) => 8,
            TreiceError::SyscallInfoDecodeFailure => 9,
            TreiceError::UnknownSyscall(_) => 10,
        }
    }

    /// The error number that this failure carries, if it carries one.
    pub fn errno(&self) -> (code: Option<i32>)
        ensures
            code == self.spec_errno(),
    {
        match self {
            TreiceError::ForkFailure(code) => Some(*code),
            TreiceError::ChildWaitFailure(code) => Some(*code),
            TreiceError::SignalInfoReadFailure(code) => Some(*code),
            TreiceError::RegistersReadFailure(code) => Some(*code),
            TreiceError::OptionsSetFailure(code) => Some(*code),
            TreiceError::MemoryReadFailure(code) => Some(*code),
            _ => None,
        }
    }

    /// The message of this failure, where `description` is the text that
    /// describes its error number.
    pub fn message_with(&self, description: &str) -> (text: String)
        ensures
            text@ == self.described_message(description@),
    {
        match self {
            TreiceError::NoExecutableProvided => String::from_str("No executable specified"),
            TreiceError::ExecutableNotFound => String::from_str("Could not find executable"),
            TreiceError::ForkFailure(code) => with_errno(
                "Failed to fork tracer process: ",
                description,
                *code,
            ),
            TreiceError::ChildWaitFailure(code) => with_errno(
                "Failed to wait for child process: ",
                description,
                *code,
            ),
            TreiceError::SignalInfoReadFailure(code) => with_errno(
                "Failed to get signal info: ",
                description,
                *code,
            ),
            TreiceError::RegistersReadFailure(code) => with_errno(
                "Failed to read registers: ",
                description,
                *code,
            ),
            TreiceError::OptionsSetFailure(code) => with_errno(
                "Failed to set tracing options for the tracee: ",
                description,
                *code,
            ),
            TreiceError::MemoryReadFailure(code) => with_errno(
                "Failed to read the memory of the tracee: ",
                description,
                *code,
            ),
            TreiceError::SyscallInfoDecodeFailure => String::from_str(
                "Failed to decode the system call record",
            ),
            TreiceError::UnknownSyscall(number) => {
                let mut text: String = String::from_str("Unknown system call: ");
                let digits: String = int_text(*number);
                text.append(digits.as_str());
                text
            },
        }
    }

    /// The message of this failure, as it is printed.
    pub fn message(&self) -> (text: String)
        ensures
            text@ == self.spec_message(),
    {
        match self.errno() {
            Some(code) => {
                let description: String = describe_errno(code);
                self.message_with(description.as_str())
            },
            None => {
                let nothing: String = String::new();
                self.message_with(nothing.as_str())
            },
        }
    }
}

/// A message that ends in the report of an error number.
fn with_errno(prefix: &str, description: &str, code: i32) -> (text: String)
    ensures
        text@ == prefix@ + described_errno(description@, code),
{
    let mut text: String = String::from_str(prefix);
    text.append(description);
    text.append(" (os error ");
    let digits: String = int_text(code);
    text.append(digits.as_str());
    text.append(")");
    assert(text@ =~= prefix@ + described_errno(description@, code));
    text
}

/// Whether two failures are of the same kind, whatever they carry.
pub open spec fn same_kind(a: TreiceError, b: TreiceError) -> bool {
    match (a, b) {
        (TreiceError::NoExecutableProvided, TreiceError::NoExecutableProvided) => true,
        (TreiceError::ExecutableNotFound, TreiceError::ExecutableNotFound) => true,
        (TreiceError::ForkFailure(_), TreiceError::ForkFailure(_)) => true,
        (TreiceError::ChildWaitFailure(_), TreiceError::ChildWaitFailure(_)) => true,
        (TreiceError::SignalInfoReadFailure(_), TreiceError::SignalInfoReadFailure(_)) => true,
        (TreiceError::RegistersReadFailure(_), TreiceError::RegistersReadFailure(_)) => true,
        (TreiceError::OptionsSetFailure(_), TreiceError::OptionsSetFailure(_)) => true,
        (TreiceError::MemoryReadFailure(_), TreiceError::MemoryReadFailure(_)) => true,
        (TreiceError::SyscallInfoDecodeFailure, TreiceError::SyscallInfoDecodeFailure) => true,
        (TreiceError::UnknownSyscall(_), TreiceError::UnknownSyscall(_)) => true,
        _ => false,
    }
}

/// Every failure ends the process with a status that is not zero, and two
/// failures end it with the same status if and only if they are of the same
/// kind.
pub proof fn lemma_exit_codes_distinct(a: TreiceError, b: TreiceError)
    ensures
        1 <= a.spec_exit_code() <= 10,
        a.spec_exit_code() == b.spec_exit_code() <==> same_kind(a, b),
{
}

} // verus!
