//! The console of the SHELL program, driven through a shared memory area: command bytes and
//! their payload are written at the start of the area, and the shell answers by setting the
//! first byte back to `Ok`.
use vstd::prelude::*;
use crate::api::sleep_ticks;
use crate::duration::Duration;
use crate::kos_error::{Error, SystemResult, error_code};
use crate::io_error::is_known_status;

verus! {

/// Open an existing area.
pub const SHM_OPEN: usize = 0x00;
/// Open the area, creating it when missing.
pub const SHM_OPEN_ALWAYS: usize = 0x04;
/// Create the area.
pub const SHM_CREATE: usize = 0x08;
/// Map the area read-only.
pub const SHM_READ: usize = 0x00;
/// Map the area writable.
pub const SHM_WRITE: usize = 0x01;

/// Size asked for the console's shared area: 16 KiB.
pub const CONSOLE_SHM_SIZE: usize = 16384;
/// Buffer size that the console records.
pub const CONSOLE_BUFFER_SIZE: usize = 655360;
/// Times the shell is asked whether it is there before giving up.
pub const PING_ATTEMPTS: u32 = 10;

/// Commands understood by the shell.
#[derive(Debug, Clone, Copy, PartialEq, Eq, Structural)]
pub enum ShellCommands {
    Success,
    Exit,
    Putc,
    Puts,
    Getc,
    Gets,
    Cls,
    Pid,
    Ping,
}

pub open spec fn command_code(c: ShellCommands) -> u8 {
    match c {
        ShellCommands::Success => 0,
        ShellCommands::Exit => 1,
        ShellCommands::Putc => 2,
        ShellCommands::Puts => 3,
        ShellCommands::Getc => 4,
        ShellCommands::Gets => 5,
        ShellCommands::Cls => 6,
        ShellCommands::Pid => 7,
        ShellCommands::Ping => 8,
    }
}

impl ShellCommands {
    /// The command byte.
    pub fn code(self) -> (b: u8)
        ensures
            b == command_code(self),
    {
        match self {
            ShellCommands::Success => 0,
            ShellCommands::Exit => 1,
            ShellCommands::Putc => 2,
            ShellCommands::Puts => 3,
            ShellCommands::Getc => 4,
            ShellCommands::Gets => 5,
            ShellCommands::Cls => 6,
            ShellCommands::Pid => 7,
            ShellCommands::Ping => 8,
        }
    }
}

/// The flags with which the console opens its area: open always, writable.
pub fn console_shm_flags() -> (f: usize)
    ensures
        f == 5,
{
    let f = SHM_OPEN_ALWAYS | SHM_WRITE;
    assert(0x04usize | 0x01usize == 5usize) by (bit_vector);
    f
}

/// The area that the "open shared memory" reply `(eax, edx)` describes: an address of 0 means
/// failure with the status in `edx`; otherwise the address and the size.
pub fn shm_open_reply(eax: usize, edx: usize) -> (r: SystemResult<(usize, usize)>)
    requires
        eax == 0 ==> is_known_status(edx as int),
    ensures
        eax == 0 ==> r is Err && error_code(r->Err_0) == edx,
        eax != 0 ==> r == Ok::<(usize, usize), Error>((eax, edx)),
{
    if eax == 0 {
        return Err(Error::from_code(edx).unwrap());
    }
    Ok((eax, edx))
}

/// The pause between two looks at the shared area: 10 ms, one tick of the kernel's delay.
pub fn console_sleep_ticks() -> (t: usize)
    ensures
        t == 1,
{
    let d = Duration::from_millis(10);
    sleep_ticks(d.as_nanos())
}

/// The console: the name of its shared area, and whether the shell answered.
#[derive(Debug, Clone, PartialEq, Eq)]
pub struct Console {
    pub shm_name: Vec<u8>,
    pub buffer_size: usize,
    pub is_fully_initialized: bool,
}

/// The bytes written at the start of the area for a command: the command byte, then the
/// payload.
pub open spec fn message(c: ShellCommands, payload: Seq<u8>) -> Seq<u8> {
    seq![command_code(c)] + payload
}

impl Console {
    /// A console on the named area, not yet answered by the shell.
    pub fn new(shm_name: Vec<u8>) -> (c: Console)
        ensures
            c.shm_name@ == shm_name@,
            c.buffer_size == CONSOLE_BUFFER_SIZE,
            !c.is_fully_initialized,
    {
        Console { shm_name, buffer_size: CONSOLE_BUFFER_SIZE, is_fully_initialized: false }
    }

    /// Records that the shell answered the first ping.
    pub fn mark_initialized(&mut self)
        ensures
            final(self).is_fully_initialized,
            final(self).shm_name == old(self).shm_name,
            final(self).buffer_size == old(self).buffer_size,
    {
        self.is_fully_initialized = true;
    }

    /// The message that asks whether the shell is there.
    pub fn ping_message() -> (m: Vec<u8>)
        ensures
            m@ == message(ShellCommands::Ping, Seq::empty()),
    {
        let mut m = Vec::new();
        m.push(ShellCommands::Ping.code());
        assert(m@ =~= message(ShellCommands::Ping, Seq::empty()));
        m
    }

    /// The message that prints one byte.
    pub fn putc_message(c: u8) -> (m: Vec<u8>)
        ensures
            m@ == message(ShellCommands::Putc, seq![c]),
    {
        let mut m = Vec::new();
        m.push(ShellCommands::Putc.code());
        m.push(c);
        assert(m@ =~= message(ShellCommands::Putc, seq![c]));
        m
    }

    /// The area's contents that print a byte string: the command, the bytes, and a NUL
    /// after them.
    pub fn write_message(s: &[u8]) -> (m: Vec<u8>)
        ensures
            m@ == message(ShellCommands::Puts, s@.push(0u8)),
    {
        let mut m = Vec::new();
        m.push(ShellCommands::Puts.code());
        let mut i: usize = 0;
        while i < s.len()
            invariant
                i <= s@.len(),
                m@ == seq![command_code(ShellCommands::Puts)] + s@.subrange(0, i as int),
            decreases s@.len() - i,
        {
            m.push(s[i]);
            i = i + 1;
            assert(m@ =~= seq![command_code(ShellCommands::Puts)] + s@.subrange(0, i as int));
        }
        m.push(0u8);
        assert(s@.subrange(0, s@.len() as int) =~= s@);
        assert(m@ =~= message(ShellCommands::Puts, s@.push(0u8)));
        m
    }

    /// The message that asks for one byte of input.
    pub fn getc_message() -> (m: Vec<u8>)
        ensures
            m@ == message(ShellCommands::Getc, Seq::empty()),
    {
        let mut m = Vec::new();
        m.push(ShellCommands::Getc.code());
        assert(m@ =~= message(ShellCommands::Getc, Seq::empty()));
        m
    }

    /// The byte that `getc` returns, from the area after the shell answered: the first byte
    /// of the area is what is read back.
    pub fn getc_result(area: &[u8]) -> (b: u8)
        requires
            area@.len() >= 1,
        ensures
            b == area@[0],
    {
        area[0]
    }

    /// Whether a command is done: the shell set the first byte to `Ok`.
    pub fn wait_finished(first_byte: u8) -> (done: bool)
        ensures
            done == (first_byte == command_code(ShellCommands::Success)),
    {
        first_byte == ShellCommands::Success.code()
    }

    /// Whether dropping the console must send `Exit` (and wait) before closing the area:
    /// only when the shell answered.
    pub fn needs_exit_message(&self) -> (b: bool)
        ensures
            b == self.is_fully_initialized,
    {
        self.is_fully_initialized
    }

    /// The message that ends the session.
    pub fn exit_message() -> (m: Vec<u8>)
        ensures
            m@ == message(ShellCommands::Exit, Seq::empty()),
    {
        let mut m = Vec::new();
        m.push(ShellCommands::Exit.code());
        assert(m@ =~= message(ShellCommands::Exit, Seq::empty()));
        m
    }
}

/// What a ping does after a look at the first byte of the area.
#[derive(Debug, Clone, Copy, PartialEq, Eq, Structural)]
pub enum PingAction {
    /// The shell answered.
    Ready,
    /// Sleep, then look again.
    SleepAndRetry,
    /// Sleep, then give up: the shell did not answer in ten looks.
    SleepAndGiveUp,
}

/// A ping in progress: how many looks found no answer.
#[derive(Debug, Clone, Copy, PartialEq, Eq, Structural)]
pub struct Ping {
    pub failed_looks: u32,
}

impl Ping {
    /// A ping that has not looked yet (after writing the ping message and yielding).
    pub fn new() -> (p: Ping)
        ensures
            p.failed_looks == 0,
    {
        Ping { failed_looks: 0 }
    }

    /// One look at the first byte: `Ok` ends the ping; otherwise it sleeps, and after the
    /// tenth such look it gives up.
    pub fn observe(&mut self, first_byte: u8) -> (a: PingAction)
        requires
            old(self).failed_looks < PING_ATTEMPTS,
        ensures
            first_byte == command_code(ShellCommands::Success) ==> a == PingAction::Ready
                && final(self).failed_looks == old(self).failed_looks,
            first_byte != command_code(ShellCommands::Success) ==> final(self).failed_looks == old(self).failed_looks + 1
                && (a == if final(self).failed_looks == PING_ATTEMPTS { PingAction::SleepAndGiveUp } else { PingAction::SleepAndRetry }),
    {
        if first_byte == ShellCommands::Success.code() {
            return PingAction::Ready;
        }
        self.failed_looks = self.failed_looks + 1;
        if self.failed_looks == PING_ATTEMPTS { PingAction::SleepAndGiveUp } else { PingAction::SleepAndRetry }
    }
}

/// The byte of each shell command.
pub proof fn lemma_command_code_table()
    ensures
        command_code(ShellCommands::Success) == 0,
        command_code(ShellCommands::Exit) == 1,
        command_code(ShellCommands::Putc) == 2,
        command_code(ShellCommands::Puts) == 3,
        command_code(ShellCommands::Getc) == 4,
        command_code(ShellCommands::Gets) == 5,
        command_code(ShellCommands::Cls) == 6,
        command_code(ShellCommands::Pid) == 7,
        command_code(ShellCommands::Ping) == 8,
{
}

} // verus!
