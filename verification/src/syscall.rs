//! System calls of x86_64 Linux: their identity, the shape of their
//! arguments, and the text of a call and of its return value.

use crate::memory::{debug_quoted, read_text, text_bytes, utf8_lossy};
use crate::syscall_info::{SyscallInfo, SyscallInfoOp};
use crate::text::{decimal, decimal_text, hexadecimal, hexadecimal_text, join, joined, views};
use crate::text::{digit_value, lemma_hexadecimal_canonical, numeral_value};
use crate::text::{lemma_signed_value_round_trip, register_of};
use crate::text::{signed_decimal, signed_decimal_text, signed_value};
use syscalls::x86_64::Sysno;
use vstd::prelude::*;
use vstd::string::StringExecFns;

verus! {

/// The number of `write` on x86_64.
pub const SYS_WRITE: i32 = 1;

/// The number of `close` on x86_64.
pub const SYS_CLOSE: i32 = 3;

/// The number of `mmap` on x86_64.
pub const SYS_MMAP: i32 = 9;

/// The number of `mprotect` on x86_64.
pub const SYS_MPROTECT: i32 = 10;

/// The number of `munmap` on x86_64.
pub const SYS_MUNMAP: i32 = 11;

/// The number of `brk` on x86_64.
pub const SYS_BRK: i32 = 12;

/// The number of `execve` on x86_64.
pub const SYS_EXECVE: i32 = 59;

/// The number of `exit` on x86_64.
pub const SYS_EXIT: i32 = 60;

/// The number of `set_tid_address` on x86_64.
pub const SYS_SET_TID_ADDRESS: i32 = 218;

/// The number of `exit_group` on x86_64.
pub const SYS_EXIT_GROUP: i32 = 231;

/// The number of `getrandom` on x86_64.
pub const SYS_GETRANDOM: i32 = 318;

/// The number of `execveat` on x86_64.
pub const SYS_EXECVEAT: i32 = 322;

/// The registers of the tracee at a stop, as far as a system call uses them.
#[derive(Clone, Copy, Debug, PartialEq, Eq, Structural)]
pub struct RegisterSnapshot {
    /// The number of the system call.
    pub orig_rax: u64,
    /// The return value.
    pub rax: u64,
    /// The first argument.
    pub rdi: u64,
    /// The second argument.
    pub rsi: u64,
    /// The third argument.
    pub rdx: u64,
    /// The fourth argument.
    pub r10: u64,
    /// The fifth argument.
    pub r8: u64,
    /// The sixth argument.
    pub r9: u64,
    /// The instruction pointer.
    pub rip: u64,
    /// The stack pointer.
    pub rsp: u64,
}

/// One of the six registers that carry the arguments of a system call, in the
/// order of the arguments.
#[derive(Clone, Copy, Debug, PartialEq, Eq, Structural)]
pub enum Register {
    Rdi,
    Rsi,
    Rdx,
    R10,
    R8,
    R9,
}

/// How one argument of a system call is shown.
#[derive(Clone, Copy, Debug, PartialEq, Eq, Structural)]
pub enum ArgumentShape {
    /// The register as an unsigned decimal integer.
    Integer(Register),
    /// The register as an address.
    Pointer(Register),
    /// The text in the tracee's memory at the address that one register
    /// holds, of the length that another holds.
    Text { address: Register, length: Register },
    /// An argument that is not decoded.
    Placeholder,
}

/// A text in the tracee's memory.
#[derive(Clone, Copy, Debug, PartialEq, Eq, Structural)]
pub struct TextRequest {
    /// Where the text starts.
    pub address: u64,
    /// How many bytes it has.
    pub byte_count: u64,
}

/// A system call: its number and the name that the table of system calls
/// gives to that number.
#[derive(Debug)]
pub struct SyscallIdentity {
    number: i32,
    name: String,
}

/// The name that the table of the system calls of x86_64 in the `syscalls`
/// crate gives to a number, if it holds the number.
pub uninterp spec fn table_name(number: usize) -> Option<Seq<char>>;

/// Looks the number up in the table of x86_64 with `Sysno::new` and gives the
/// name of what was found, as `Sysno::name` returns it. Trusted: the outcome
/// is a function of the number.
#[verifier::external_body]
fn lookup_name(number: usize) -> (name: Option<String>)
    ensures
        match name {
            Some(text) => table_name(number) == Some(text@),
            None => table_name(number) is None,
        },
{
    match Sysno::new(number) {
        Some(sysno) => Some(sysno.name().to_string()),
        None => None,
    }
}

/// The number of the system call that a register holds: its low 32 bits, as
/// a signed integer.
pub open spec fn syscall_number(orig_rax: u64) -> int {
    let low = orig_rax % 0x1_0000_0000;
    if low < 0x8000_0000 {
        low as int
    } else {
        low - 0x1_0000_0000
    }
}

/// The name of the system call with the given number; a negative number
/// names none.
pub open spec fn name_of(number: int) -> Option<Seq<char>> {
    if 0 <= number <= i32::MAX {
        table_name(number as usize)
    } else {
        None
    }
}

/// The value of a register in a snapshot.
pub open spec fn register_value(registers: RegisterSnapshot, register: Register) -> u64 {
    match register {
        Register::Rdi => registers.rdi,
        Register::Rsi => registers.rsi,
        Register::Rdx => registers.rdx,
        Register::R10 => registers.r10,
        Register::R8 => registers.r8,
        Register::R9 => registers.r9,
    }
}

/// The shapes of the arguments of the system call with the given number, in
/// the order of the arguments. A call without an entry of its own has one
/// placeholder.
pub open spec fn template_of(number: int) -> Seq<ArgumentShape> {
    if number == SYS_CLOSE || number == SYS_EXIT_GROUP {
        seq![ArgumentShape::Integer(Register::Rdi)]
    } else if number == SYS_BRK || number == SYS_SET_TID_ADDRESS {
        seq![ArgumentShape::Pointer(Register::Rdi)]
    } else if number == SYS_MUNMAP {
        seq![ArgumentShape::Pointer(Register::Rdi), ArgumentShape::Integer(Register::Rsi)]
    } else if number == SYS_GETRANDOM {
        seq![
            ArgumentShape::Text { address: Register::Rdi, length: Register::Rsi },
            ArgumentShape::Integer(Register::Rdx),
            ArgumentShape::Placeholder,
        ]
    } else if number == SYS_MPROTECT || number == SYS_MMAP {
        seq![
            ArgumentShape::Pointer(Register::Rdi),
            ArgumentShape::Integer(Register::Rsi),
            ArgumentShape::Placeholder,
        ]
    } else if number == SYS_WRITE {
        seq![
            ArgumentShape::Integer(Register::Rdi),
            ArgumentShape::Text { address: Register::Rsi, length: Register::Rdx },
            ArgumentShape::Integer(Register::Rdx),
        ]
    } else {
        seq![ArgumentShape::Placeholder]
    }
}

/// The text in memory that the first `Text` shape of a template asks for.
pub open spec fn text_of_template(
    template: Seq<ArgumentShape>,
    registers: RegisterSnapshot,
) -> Option<TextRequest>
    decreases template.len(),
{
    if template.len() == 0 {
        None
    } else {
        match template[0] {
            ArgumentShape::Text { address, length } => Some(
                TextRequest {
                    address: register_value(registers, address),
                    byte_count: register_value(registers, length),
                },
            ),
            _ => text_of_template(template.drop_first(), registers),
        }
    }
}

/// The text of an address: `NULL` for zero, else `0x` and the address in
/// lower-case hexadecimal without leading zeros.
pub open spec fn address_text(address: u64) -> Seq<char> {
    if address == 0 {
        seq!['N', 'U', 'L', 'L']
    } else {
        seq!['0', 'x'] + hexadecimal(address as nat)
    }
}

/// The text that stands for an argument that is not decoded.
pub open spec fn placeholder_text() -> Seq<char> {
    "/* TODO */"@
}

/// The text of one argument, given the registers and the words fetched for
/// the text that the template asks for.
pub open spec fn argument_text(
    shape: ArgumentShape,
    registers: RegisterSnapshot,
    words: Seq<u64>,
) -> Seq<char> {
    match shape {
        ArgumentShape::Integer(register) => decimal(register_value(registers, register) as nat),
        ArgumentShape::Pointer(register) => address_text(register_value(registers, register)),
        ArgumentShape::Text { address, length } => debug_quoted(
            utf8_lossy(text_bytes(words, register_value(registers, length) as nat)),
        ),
        ArgumentShape::Placeholder => placeholder_text(),
    }
}

/// The texts of the arguments of a template, in the order of the template.
pub open spec fn argument_texts(
    template: Seq<ArgumentShape>,
    registers: RegisterSnapshot,
    words: Seq<u64>,
) -> Seq<Seq<char>> {
    Seq::new(template.len(), |i: int| argument_text(template[i], registers, words))
}

/// The text of a call: the name, and in round brackets the arguments with a
/// comma and a space between them.
pub open spec fn call_text(name: Seq<char>, arguments: Seq<Seq<char>>) -> Seq<char> {
    name + seq!['('] + joined(arguments, seq![',', ' ']) + seq![')']
}

/// Whether the system call with the given number never returns to its
/// caller when it succeeds.
pub open spec fn never_returns(number: int) -> bool {
    number == SYS_EXIT || number == SYS_EXIT_GROUP || number == SYS_EXECVE || number
        == SYS_EXECVEAT
}

/// Whether the return value of the system call with the given number is an
/// address.
pub open spec fn returns_address(number: int) -> bool {
    number == SYS_MMAP || number == SYS_BRK
}

/// The text of the return value of the system call with the given number.
pub open spec fn return_text(number: int, rax: u64) -> Seq<char> {
    if returns_address(number) {
        address_text(rax)
    } else {
        signed_decimal(signed_value(rax))
    }
}

/// What a stop means for the line of a system call.
#[derive(Clone, Copy, Debug, PartialEq, Eq, Structural)]
pub enum StopKind {
    /// The stop is no system-call stop: nothing is shown.
    NotSyscall,
    /// A call is entered: its name and arguments are shown.
    Entry,
    /// A call has returned: its return value is shown.
    Exit,
}

/// What a decoded stop means for the line of a system call. A stop that a
/// seccomp filter asked for stands at the entry of a call.
pub open spec fn kind_of(op: SyscallInfoOp) -> StopKind {
    match op {
        SyscallInfoOp::NotSyscall => StopKind::NotSyscall,
        SyscallInfoOp::Entry { .. } => StopKind::Entry,
        SyscallInfoOp::Exit { .. } => StopKind::Exit,
        SyscallInfoOp::Seccomp { .. } => StopKind::Entry,
    }
}

/// The call that the registers describe, as it is shown: its name and its
/// arguments, and no line end. `None` where the table of system calls does
/// not hold the number.
pub open spec fn entered_call_text(registers: RegisterSnapshot, words: Seq<u64>) -> Option<
    Seq<char>,
> {
    let number = syscall_number(registers.orig_rax);
    match name_of(number) {
        Some(name) => Some(
            call_text(name, argument_texts(template_of(number), registers, words)),
        ),
        None => None,
    }
}

/// What ends the line of a call at its entry: a line end where the call
/// never returns, so that nothing is left to follow on its line; else
/// nothing, since the return value is to follow.
pub open spec fn line_end_text(number: int) -> Seq<char> {
    if never_returns(number) {
        seq!['\n']
    } else {
        Seq::empty()
    }
}

/// What is printed at the entry of a call: the call, and what ends its line.
/// `None` where the table of system calls does not hold the number.
pub open spec fn enter_text(registers: RegisterSnapshot, words: Seq<u64>) -> Option<Seq<char>> {
    match entered_call_text(registers, words) {
        Some(call) => Some(call + line_end_text(syscall_number(registers.orig_rax))),
        None => None,
    }
}

/// What is printed when a call has returned: ` = `, the return value and a
/// line end.
pub open spec fn exit_text(registers: RegisterSnapshot) -> Seq<char> {
    seq![' ', '=', ' '] + return_text(syscall_number(registers.orig_rax), registers.rax) + seq![
        '\n',
    ]
}

/// What is printed at a stop of the given kind.
pub open spec fn stop_text(kind: StopKind, registers: RegisterSnapshot, words: Seq<u64>) -> Option<
    Seq<char>,
> {
    match kind {
        StopKind::NotSyscall => Some(Seq::empty()),
        StopKind::Entry => enter_text(registers, words),
        StopKind::Exit => Some(exit_text(registers)),
    }
}

impl SyscallIdentity {
    /// Whether the table of system calls holds this call: its name is the
    /// one that the table gives to its number.
    pub open spec fn in_table(&self) -> bool {
        name_of(self.spec_number() as int) == Some(self.spec_name())
    }

    pub closed spec fn spec_number(&self) -> i32 {
        self.number
    }

    pub closed spec fn spec_name(&self) -> Seq<char> {
        self.name@
    }

    /// The system call with the given number and name.
    pub fn new(number: i32, name: String) -> (identity: SyscallIdentity)
        ensures
            identity.spec_number() == number,
            identity.spec_name() == name@,
    {
        SyscallIdentity { number, name }
    }

    /// The system call with the given number, under the name that was found
    /// for it; none where no name was found.
    pub fn found(number: i32, name: Option<String>) -> (identity: Option<SyscallIdentity>)
        ensures
            match (identity, name) {
                (Some(call), Some(text)) => call.spec_number() == number && call.spec_name()
                    == text@,
                (None, None) => true,
                _ => false,
            },
    {
        match name {
            Some(text) => Some(SyscallIdentity { number, name: text }),
            None => None,
        }
    }

    /// The number of the system call.
    pub fn number(&self) -> (number: i32)
        ensures
            number == self.spec_number(),
    {
        self.number
    }

    /// The name of the system call.
    pub fn name(&self) -> (name: &String)
        ensures
            name@ == self.spec_name(),
    {
        &self.name
    }
}

/// The number of the system call that a register holds.
pub fn number_of(orig_rax: u64) -> (number: i32)
    ensures
        number == syscall_number(orig_rax),
{
    let low: u64 = orig_rax % 0x1_0000_0000;
    if low < 0x8000_0000 {
        low as i32
    } else {
        (low as i64 - 0x1_0000_0000) as i32
    }
}

/// The identity of the system call whose number a register holds, or `None`
/// where the table of system calls does not hold the number.
pub fn get_syscall(orig_rax: u64) -> (identity: Option<SyscallIdentity>)
    ensures
        match identity {
            Some(found) => found.in_table() && found.spec_number() == syscall_number(orig_rax),
            None => name_of(syscall_number(orig_rax)) is None,
        },
{
    let number: i32 = number_of(orig_rax);
    if number < 0 {
        return None;
    }
    SyscallIdentity::found(number, lookup_name(number as usize))
}

/// Whether the system call never returns to its caller when it succeeds.
pub fn syscall_does_not_return(syscall: &SyscallIdentity) -> (never: bool)
    ensures
        never == never_returns(syscall.spec_number() as int),
{
    let number: i32 = syscall.number;
    number == SYS_EXIT || number == SYS_EXIT_GROUP || number == SYS_EXECVE || number
        == SYS_EXECVEAT
}

/// Renders an address.
pub fn format_address(address: u64) -> (text: String)
    ensures
        text@ == address_text(address),
{
    if address == 0 {
        proof {
            reveal_strlit("NULL");
        }
        let text: String = String::from_str("NULL");
        assert(text@ =~= address_text(address));
        text
    } else {
        proof {
            reveal_strlit("0x");
        }
        let mut text: String = String::from_str("0x");
        let digits: String = hexadecimal_text(address);
        text.append(digits.as_str());
        assert(text@ =~= address_text(address));
        text
    }
}

/// The shapes of the arguments of the system call with the given number.
pub fn argument_template(number: i32) -> (template: Vec<ArgumentShape>)
    ensures
        template@ == template_of(number as int),
{
    let mut template: Vec<ArgumentShape> = Vec::new();
    if number == SYS_CLOSE || number == SYS_EXIT_GROUP {
        template.push(ArgumentShape::Integer(Register::Rdi));
    } else if number == SYS_BRK || number == SYS_SET_TID_ADDRESS {
        template.push(ArgumentShape::Pointer(Register::Rdi));
    } else if number == SYS_MUNMAP {
        template.push(ArgumentShape::Pointer(Register::Rdi));
        template.push(ArgumentShape::Integer(Register::Rsi));
    } else if number == SYS_GETRANDOM {
        template.push(ArgumentShape::Text { address: Register::Rdi, length: Register::Rsi });
        template.push(ArgumentShape::Integer(Register::Rdx));
        template.push(ArgumentShape::Placeholder);
    } else if number == SYS_MPROTECT || number == SYS_MMAP {
        template.push(ArgumentShape::Pointer(Register::Rdi));
        template.push(ArgumentShape::Integer(Register::Rsi));
        template.push(ArgumentShape::Placeholder);
    } else if number == SYS_WRITE {
        template.push(ArgumentShape::Integer(Register::Rdi));
        template.push(ArgumentShape::Text { address: Register::Rsi, length: Register::Rdx });
        template.push(ArgumentShape::Integer(Register::Rdx));
    } else {
        template.push(ArgumentShape::Placeholder);
    }
    assert(template@ =~= template_of(number as int));
    template
}

/// Reads one register of a snapshot.
pub fn read_register(registers: &RegisterSnapshot, register: Register) -> (value: u64)
    ensures
        value == register_value(*registers, register),
{
    match register {
        Register::Rdi => registers.rdi,
        Register::Rsi => registers.rsi,
        Register::Rdx => registers.rdx,
        Register::R10 => registers.r10,
        Register::R8 => registers.r8,
        Register::R9 => registers.r9,
    }
}

/// The text in the tracee's memory that must be fetched before the call that
/// the registers describe can be shown, if there is one.
pub fn text_request(registers: &RegisterSnapshot) -> (request: Option<TextRequest>)
    ensures
        request == text_of_template(template_of(syscall_number(registers.orig_rax)), *registers),
{
    let template: Vec<ArgumentShape> = argument_template(number_of(registers.orig_rax));
    let mut i: usize = 0;
    assert(template@.skip(0) =~= template@);
    while i < template.len()
        invariant
            i <= template.len(),
            template@ == template_of(syscall_number(registers.orig_rax)),
            text_of_template(template@, *registers) == text_of_template(
                template@.skip(i as int),
                *registers,
            ),
        decreases template.len() - i,
    {
        assert(template@.skip(i as int).drop_first() =~= template@.skip(i + 1));
        assert(template@.skip(i as int)[0] == template@[i as int]);
        match template[i] {
            ArgumentShape::Text { address, length } => {
                return Some(
                    TextRequest {
                        address: read_register(registers, address),
                        byte_count: read_register(registers, length),
                    },
                );
            },
            _ => {},
        }
        i = i + 1;
    }
    assert(template@.skip(i as int).len() == 0);
    None
}

/// Renders one argument.
pub fn format_argument(
    shape: ArgumentShape,
    registers: &RegisterSnapshot,
    words: &Vec<u64>,
) -> (text: String)
    ensures
        text@ == argument_text(shape, *registers, words@),
{
    match shape {
        ArgumentShape::Integer(register) => decimal_text(read_register(registers, register)),
        ArgumentShape::Pointer(register) => format_address(read_register(registers, register)),
        ArgumentShape::Text { address, length } => read_text(
            words,
            read_register(registers, length),
        ),
        ArgumentShape::Placeholder => String::from_str("/* TODO */"),
    }
}

/// Renders the arguments of the call that the registers describe, in the
/// order of the arguments. `words` are the words fetched for the text that
/// `text_request` asks for.
pub fn format_arguments(registers: &RegisterSnapshot, words: &Vec<u64>) -> (arguments: Vec<String>)
    ensures
        views(arguments@) == argument_texts(
            template_of(syscall_number(registers.orig_rax)),
            *registers,
            words@,
        ),
{
    let template: Vec<ArgumentShape> = argument_template(number_of(registers.orig_rax));
    let mut arguments: Vec<String> = Vec::new();
    let mut i: usize = 0;
    while i < template.len()
        invariant
            i <= template.len(),
            arguments.len() == i,
            template@ == template_of(syscall_number(registers.orig_rax)),
            forall|k: int|
                0 <= k < i ==> (#[trigger] arguments@[k])@ == argument_text(
                    template@[k],
                    *registers,
                    words@,
                ),
        decreases template.len() - i,
    {
        let text: String = format_argument(template[i], registers, words);
        arguments.push(text);
        i = i + 1;
    }
    assert(views(arguments@) =~= argument_texts(template@, *registers, words@));
    arguments
}

/// The name of the system call that the registers describe, and the texts of
/// its arguments in order; `None` where the table of system calls does not
/// hold the number.
pub fn format_entry(registers: &RegisterSnapshot, words: &Vec<u64>) -> (entry: Option<
    (String, Vec<String>),
>)
    ensures
        match entry {
            Some((name, arguments)) => {
                &&& name_of(syscall_number(registers.orig_rax)) == Some(name@)
                &&& views(arguments@) == argument_texts(
                    template_of(syscall_number(registers.orig_rax)),
                    *registers,
                    words@,
                )
            },
            None => name_of(syscall_number(registers.orig_rax)) is None,
        },
{
    match get_syscall(registers.orig_rax) {
        Some(identity) => {
            let arguments: Vec<String> = format_arguments(registers, words);
            Some((identity.name, arguments))
        },
        None => None,
    }
}

/// Renders a call: the name, and in round brackets the arguments with a
/// comma and a space between them.
pub fn call_line(name: &String, arguments: &Vec<String>) -> (line: String)
    ensures
        line@ == call_text(name@, views(arguments@)),
{
    proof {
        reveal_strlit("(");
        reveal_strlit(", ");
        reveal_strlit(")");
    }
    let mut line: String = name.clone();
    line.append("(");
    let list: String = join(arguments, ", ");
    line.append(list.as_str());
    line.append(")");
    assert(", "@ =~= seq![',', ' ']);
    assert(line@ =~= call_text(name@, views(arguments@)));
    line
}

/// Renders the return value of the call that the registers describe: an
/// address for the calls that return one, else the register as a signed
/// integer.
pub fn format_exit(registers: &RegisterSnapshot) -> (text: String)
    ensures
        text@ == return_text(syscall_number(registers.orig_rax), registers.rax),
{
    let number: i32 = number_of(registers.orig_rax);
    if number == SYS_MMAP || number == SYS_BRK {
        format_address(registers.rax)
    } else {
        signed_decimal_text(registers.rax)
    }
}

/// What a decoded stop means for the line of a system call.
pub fn stop_kind(op: &SyscallInfoOp) -> (kind: StopKind)
    ensures
        kind == kind_of(*op),
{
    match op {
        SyscallInfoOp::NotSyscall => StopKind::NotSyscall,
        SyscallInfoOp::Entry { .. } => StopKind::Entry,
        SyscallInfoOp::Exit { .. } => StopKind::Exit,
        SyscallInfoOp::Seccomp { .. } => StopKind::Entry,
    }
}

/// What is printed when the call that the registers describe is entered: the
/// call alone, its name and its arguments, with no line end after it. `None`
/// where the table of system calls does not hold the number. `words` are the
/// words fetched for the text that `text_request` asks for.
pub fn print_syscall_enter_data(registers: &RegisterSnapshot, words: &Vec<u64>) -> (text: Option<
    String,
>)
    ensures
        match text {
            Some(line) => {
                &&& name_of(syscall_number(registers.orig_rax)) is Some
                &&& line@ == call_text(
                    name_of(syscall_number(registers.orig_rax))->Some_0,
                    argument_texts(
                        template_of(syscall_number(registers.orig_rax)),
                        *registers,
                        words@,
                    ),
                )
            },
            None => name_of(syscall_number(registers.orig_rax)) is None,
        },
{
    match get_syscall(registers.orig_rax) {
        Some(identity) => {
            let arguments: Vec<String> = format_arguments(registers, words);
            Some(call_line(&identity.name, &arguments))
        },
        None => None,
    }
}

/// What ends the line of the given call at its entry: a line end where the
/// call never returns, else nothing.
pub fn line_end(syscall: &SyscallIdentity) -> (end: &'static str)
    ensures
        end@ == line_end_text(syscall.spec_number() as int),
{
    proof {
        reveal_strlit("\n");
        reveal_strlit("");
    }
    let end: &'static str = if syscall_does_not_return(syscall) {
        "\n"
    } else {
        ""
    };
    assert(end@ =~= line_end_text(syscall.spec_number() as int));
    end
}

/// What is printed at the entry of the call that the registers describe: the
/// call, and a line end where the call never returns. `None` where the table
/// of system calls does not hold the number.
fn entry_stop_line(registers: &RegisterSnapshot, words: &Vec<u64>) -> (text: Option<String>)
    ensures
        match text {
            Some(line) => enter_text(*registers, words@) == Some(line@),
            None => enter_text(*registers, words@) is None,
        },
{
    match get_syscall(registers.orig_rax) {
        Some(syscall) => match print_syscall_enter_data(registers, words) {
            Some(call) => {
                let mut line: String = call;
                line.append(line_end(&syscall));
                Some(line)
            },
            None => None,
        },
        None => None,
    }
}

/// What is printed when the call that the registers describe has returned:
/// ` = `, the return value and a line end.
pub fn print_syscall_return_value(registers: &RegisterSnapshot) -> (text: String)
    ensures
        text@ == exit_text(*registers),
{
    proof {
        reveal_strlit(" = ");
        reveal_strlit("\n");
    }
    let value: String = format_exit(registers);
    let mut text: String = String::from_str(" = ");
    text.append(value.as_str());
    text.append("\n");
    assert(text@ =~= exit_text(*registers));
    text
}

/// What is printed at a stop of the given kind: at an entry the call, and a
/// line end where the call never returns; at an exit the return value and a
/// line end; else nothing. `None` where a call is entered whose number the
/// table of system calls does not hold.
pub fn stop_line(kind: StopKind, registers: &RegisterSnapshot, words: &Vec<u64>) -> (text:
    Option<String>)
    ensures
        match text {
            Some(line) => stop_text(kind, *registers, words@) == Some(line@),
            None => stop_text(kind, *registers, words@) is None,
        },
{
    match kind {
        StopKind::NotSyscall => Some(String::new()),
        StopKind::Entry => entry_stop_line(registers, words),
        StopKind::Exit => Some(print_syscall_return_value(registers)),
    }
}

/// What is printed at the stop that the kernel's record describes: the call
/// at an entry and at a stop that a seccomp filter asked for, with a line
/// end after it where the call never returns; the return value at an exit;
/// nothing at a stop that is no system-call stop. `None`
/// where a call is entered whose number the table of system calls does not
/// hold. `words` are the words fetched for the text that `text_request` asks
/// for.
pub fn print_syscall_info(
    syscall_info: &SyscallInfo,
    registers: &RegisterSnapshot,
    words: &Vec<u64>,
) -> (text: Option<String>)
    ensures
        match text {
            Some(line) => stop_text(kind_of(syscall_info.op), *registers, words@) == Some(line@),
            None => stop_text(kind_of(syscall_info.op), *registers, words@) is None,
        },
{
    stop_line(stop_kind(&syscall_info.op), registers, words)
}

/// A return value is shown with its sign: where the register holds a signed
/// 64-bit integer in two's complement, and the call returns no address, the
/// text of the return value is the decimal numeral of that integer, with a
/// minus sign below zero and with none from zero on.
pub proof fn lemma_return_text_of_signed(number: int, value: int)
    requires
        -0x8000_0000_0000_0000 <= value < 0x8000_0000_0000_0000,
        !returns_address(number),
    ensures
        return_text(number, register_of(value)) == signed_decimal(value),
        value < 0 ==> return_text(number, register_of(value)) == seq!['-'] + decimal(
            (-value) as nat,
        ),
        value >= 0 ==> return_text(number, register_of(value)) == decimal(value as nat),
{
    lemma_signed_value_round_trip(value);
}

/// The text of an address is `NULL` for zero and for zero alone; any other
/// address is `0x` and its hexadecimal digits, of which the first is not `0`,
/// and reads back as the address.
pub proof fn lemma_address_text_canonical(address: u64)
    ensures
        address == 0 <==> address_text(address) == seq!['N', 'U', 'L', 'L'],
        address != 0 ==> {
            &&& address_text(address).len() >= 3
            &&& address_text(address).take(2) == seq!['0', 'x']
            &&& address_text(address)[2] != '0'
            &&& numeral_value(address_text(address).skip(2), 16) == address
            &&& forall|i: int|
                2 <= i < address_text(address).len() ==> 0 <= digit_value(
                    #[trigger] address_text(address)[i],
                ) < 16
        },
{
    lemma_hexadecimal_canonical(address as nat);
    if address != 0 {
        let digits = hexadecimal(address as nat);
        assert(address_text(address).take(2) =~= seq!['0', 'x']);
        assert(address_text(address).skip(2) =~= digits);
        assert(address_text(address)[2] == digits[0]);
        assert forall|i: int| 2 <= i < address_text(address).len() implies 0 <= digit_value(
            #[trigger] address_text(address)[i],
        ) < 16 by {
            assert(address_text(address)[i] == digits[i - 2]);
        }
        assert(address_text(address)[0] == '0');
    }
}

} // verus!
