//! The record that the kernel fills in at a system-call stop, and its
//! decoding into a typed value.
//!
//! The record is 88 bytes long, in the byte order of the machine:
//!
//! | bytes   | field                                      |
//! |---------|--------------------------------------------|
//! | 0       | kind of stop                               |
//! | 4..8    | architecture                               |
//! | 8..16   | instruction pointer                        |
//! | 16..24  | stack pointer                              |
//! | 24..88  | what belongs to the kind of stop           |
//!
//! At an entry and at a seccomp stop the last part holds the number of the
//! call (24..32) and its six arguments (32..80), at a seccomp stop also the
//! filter's data (80..84); at an exit it holds the return value (24..32) and
//! the error flag (32).

use crate::text::signed_value;
use crate::words::{le_value, lemma_le_value_bound, pow256, read_le};
use vstd::prelude::*;

verus! {

/// The kind of a stop that is no system-call stop.
pub const OP_NONE: u8 = 0;

/// The kind of a stop at the entry of a system call.
pub const OP_ENTRY: u8 = 1;

/// The kind of a stop at the exit of a system call.
pub const OP_EXIT: u8 = 2;

/// The kind of a stop that a seccomp filter asked for.
pub const OP_SECCOMP: u8 = 3;

/// What the kernel reports of the system call at which the tracee stopped.
#[derive(Debug, Clone, Copy, PartialEq, Eq)]
pub struct SyscallInfo {
    /// Type of system call stop
    pub op: SyscallInfoOp,
    /// AUDIT_ARCH_* value; see seccomp(2)
    pub arch: u32,
    /// CPU instruction pointer
    pub instruction_pointer: u64,
    /// CPU stack pointer
    pub stack_pointer: u64,
}

/// The kind of a system-call stop, with what belongs to that kind.
#[derive(Debug, Clone, Copy, PartialEq, Eq)]
pub enum SyscallInfoOp {
    /// The stop is no system-call stop.
    NotSyscall,
    /// System call entry.
    Entry {
        /// System call number.
        nr: u64,
        /// System call arguments.
        args: [u64; 6],
    },
    /// System call exit.
    Exit {
        /// System call return value.
        ret_val: i64,
        /// System call error flag.
        is_error: u8,
    },
    /// PTRACE_EVENT_SECCOMP stop.
    Seccomp {
        /// System call number.
        nr: u64,
        /// System call arguments.
        args: [u64; 6],
        /// SECCOMP_RET_DATA portion of SECCOMP_RET_TRACE return value.
        ret_data: u32,
    },
}

/// Why a record could not be decoded.
#[derive(Debug, Clone, Copy, PartialEq, Eq, Structural)]
pub enum DecodeError {
    /// The record's kind of stop is none of the four that are known.
    InvalidOp,
}

/// The number that the record holds in `size` bytes from `offset` on.
pub open spec fn field(raw: Seq<u8>, offset: int, size: int) -> nat {
    le_value(raw.subrange(offset, offset + size))
}

/// The six arguments that the record holds at an entry or a seccomp stop.
pub open spec fn arguments_of(raw: Seq<u8>) -> Seq<u64> {
    Seq::new(6, |i: int| field(raw, 32 + 8 * i, 8) as u64)
}

/// Whether `op` is what the record holds for its kind of stop, read from the
/// part of the record that belongs to that kind and from no other.
pub open spec fn op_matches(op: SyscallInfoOp, raw: Seq<u8>) -> bool {
    match op {
        SyscallInfoOp::NotSyscall => raw[0] == OP_NONE,
        SyscallInfoOp::Entry { nr, args } => {
            &&& raw[0] == OP_ENTRY
            &&& nr == field(raw, 24, 8)
            &&& args@ == arguments_of(raw)
        },
        SyscallInfoOp::Exit { ret_val, is_error } => {
            &&& raw[0] == OP_EXIT
            &&& ret_val == signed_value(field(raw, 24, 8) as u64)
            &&& is_error == raw[32]
        },
        SyscallInfoOp::Seccomp { nr, args, ret_data } => {
            &&& raw[0] == OP_SECCOMP
            &&& nr == field(raw, 24, 8)
            &&& args@ == arguments_of(raw)
            &&& ret_data == field(raw, 80, 4)
        },
    }
}

/// Whether `info` is what the record holds.
pub open spec fn info_matches(info: SyscallInfo, raw: Seq<u8>) -> bool {
    &&& op_matches(info.op, raw)
    &&& info.arch == field(raw, 4, 4)
    &&& info.instruction_pointer == field(raw, 8, 8)
    &&& info.stack_pointer == field(raw, 16, 8)
}

/// Reads a 64-bit field of the record.
fn read_u64(raw: &[u8; 88], offset: usize) -> (value: u64)
    requires
        offset + 8 <= 88,
    ensures
        value == field(raw@, offset as int, 8),
{
    read_le(raw.as_slice(), offset, 8)
}

/// Reads a 32-bit field of the record.
fn read_u32(raw: &[u8; 88], offset: usize) -> (value: u32)
    requires
        offset + 4 <= 88,
    ensures
        value == field(raw@, offset as int, 4),
{
    let value: u64 = read_le(raw.as_slice(), offset, 4);
    proof {
        lemma_le_value_bound(raw@.subrange(offset as int, offset + 4));
        assert(pow256(4) == 0x1_0000_0000) by {
            reveal_with_fuel(pow256, 5);
        }
    }
    value as u32
}

/// Reads the six arguments of a call.
fn read_arguments(raw: &[u8; 88]) -> (args: [u64; 6])
    ensures
        args@ == arguments_of(raw@),
{
    let args: [u64; 6] = [
        read_u64(raw, 32),
        read_u64(raw, 40),
        read_u64(raw, 48),
        read_u64(raw, 56),
        read_u64(raw, 64),
        read_u64(raw, 72),
    ];
    assert(args@ =~= arguments_of(raw@));
    args
}

/// The signed integer that a 64-bit field holds in two's complement.
fn to_signed(raw: u64) -> (value: i64)
    ensures
        value == signed_value(raw),
{
    if raw < 0x8000_0000_0000_0000 {
        raw as i64
    } else {
        (raw - 0x8000_0000_0000_0000) as i64 + i64::MIN
    }
}

impl SyscallInfo {
    /// Decodes a record. Only the part of the record that belongs to its kind
    /// of stop is read; a kind that is none of the four known ones is an
    /// error.
    pub fn from_raw(raw: &[u8; 88]) -> (decoded: Result<SyscallInfo, DecodeError>)
        ensures
            match decoded {
                Ok(info) => raw@[0] <= OP_SECCOMP && info_matches(info, raw@),
                Err(error) => raw@[0] > OP_SECCOMP && error == DecodeError::InvalidOp,
            },
    {
        let kind: u8 = raw[0];
        let op: SyscallInfoOp = if kind == OP_NONE {
            SyscallInfoOp::NotSyscall
        } else if kind == OP_ENTRY {
            SyscallInfoOp::Entry { nr: read_u64(raw, 24), args: read_arguments(raw) }
        } else if kind == OP_EXIT {
            SyscallInfoOp::Exit { ret_val: to_signed(read_u64(raw, 24)), is_error: raw[32] }
        } else if kind == OP_SECCOMP {
            SyscallInfoOp::Seccomp {
                nr: read_u64(raw, 24),
                args: read_arguments(raw),
                ret_data: read_u32(raw, 80),
            }
        } else {
            return Err(DecodeError::InvalidOp);
        };
        Ok(
            SyscallInfo {
                op,
                arch: read_u32(raw, 4),
                instruction_pointer: read_u64(raw, 8),
                stack_pointer: read_u64(raw, 16),
            },
        )
    }
}

} // verus!
