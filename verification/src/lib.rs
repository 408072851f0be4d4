//! A minimal system-call tracer for x86_64 Linux: the decisions of the tracing
//! engine, from raw kernel values to the text that is printed.
//!
//! The library makes no request to the operating system. Its caller forks
//! and waits, reads registers and memory, and hands what it got to the
//! library as plain values; the library says what that means, what is to be
//! printed and what is to be requested next.
//!
//! - [`trace_loop`]: the loop that traces one process, as a machine that is
//!   stepped with the outcome of each request;
//! - [`tracee`]: the traced process and where it stands in its life;
//! - [`syscall_info`]: decoding of the kernel's record of a system-call stop;
//! - [`syscall`]: the identity of a system call and the text of its
//!   arguments and of its return value;
//! - [`memory`]: text in the tracee's memory, put together from words;
//! - [`signal`]: the lines that report signals and the end of the tracee;
//! - [`exec`]: the search for the executable, and what the tracee is started
//!   with;
//! - [`error`]: the failures, their messages and exit statuses;
//! - [`text`], [`words`]: numerals, and the bytes of machine words.

pub mod error;
pub mod exec;
pub mod memory;
pub mod signal;
pub mod syscall;
pub mod syscall_info;
pub mod text;
pub mod trace_loop;
pub mod tracee;
pub mod words;
