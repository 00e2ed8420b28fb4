//! Threads: the layout of a new thread's stack, what the spawn reply means, and the
//! parameters of waiting.
use vstd::prelude::*;
use crate::api::sleep_ticks;
use crate::duration::Duration;
use crate::io_error::{ErrorKind, IoError};

verus! {

/// Smallest stack a new thread gets.
pub const DEFAULT_MIN_STACK_SIZE: usize = 65536;

/// A spawned thread: its kernel id and its stack.
#[derive(Debug, Clone, Copy, PartialEq, Eq, Structural)]
pub struct Thread {
    pub id: usize,
    pub stack_area: usize,
    pub stack_size: usize,
}

/// Bytes in a machine word.
pub open spec fn word_size() -> int {
    usize::BITS as int / 8
}

/// Where the start record of a new thread goes: the entry point's argument is written to the
/// two words below the top of the stack, and the thread starts with its stack pointer at the
/// lower one.
#[derive(Debug, Clone, Copy, PartialEq, Eq, Structural)]
pub struct StackSetup {
    /// The word just below the top, reserved; it holds the start record's address too.
    pub reserved_slot: usize,
    /// The word below it: the argument of the entry point, and the initial stack pointer.
    pub stack_top: usize,
}

/// The stack layout for a new thread whose stack spans `stack_size` bytes from `stack_area`.
pub fn stack_setup(stack_area: usize, stack_size: usize) -> (s: StackSetup)
    requires
        stack_area + stack_size <= usize::MAX,
        stack_area + stack_size >= 2 * word_size(),
    ensures
        s.reserved_slot == stack_area + stack_size - word_size(),
        s.stack_top == stack_area + stack_size - 2 * word_size(),
{
    let word = (usize::BITS / 8) as usize;
    let top = stack_area + stack_size;
    StackSetup { reserved_slot: top - word, stack_top: top - 2 * word }
}

impl Thread {
    /// The thread that the spawn reply describes: -1 (in 32 bits) means the kernel could not
    /// make one, which is reported as `Other`.
    pub fn from_spawn(result: usize, stack_area: usize, stack_size: usize) -> (r: Result<Thread, IoError>)
        ensures
            result as i32 == -1 ==> r == Err::<Thread, IoError>(IoError::Simple(ErrorKind::Other)),
            result as i32 != -1 ==> r == Ok::<Thread, IoError>(Thread { id: result, stack_area, stack_size }),
    {
        if (result as i32) == -1 {
            return Err(IoError::Simple(ErrorKind::Other));
        }
        Ok(Thread { id: result, stack_area, stack_size })
    }
}

/// How many threads run at once: one, as the kernel has no SMP support.
pub fn available_parallelism() -> (r: Result<usize, IoError>)
    ensures
        r == Ok::<usize, IoError>(1),
{
    Ok(1)
}

/// The kernel id of the current thread is not known here.
pub fn current_os_id() -> (r: Option<u64>)
    ensures
        r.is_none(),
{
    None
}

/// Threads have no names on this platform; nothing is done.
pub fn set_name(_name: &[u8]) {
}

/// The argument of the "delay" system call that sleeps for `dur`: whole hundredths of a
/// second.
pub fn sleep(dur: &Duration) -> (ticks: usize)
    requires
        dur.wf(),
    ensures
        ticks == (dur.total_nanos() / 10_000_000) as usize,
{
    sleep_ticks(dur.as_nanos())
}

} // verus!
