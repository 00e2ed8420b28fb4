//! Kernel futexes: creation, and the arguments and replies of wait and wake.
use vstd::prelude::*;
use crate::duration::Duration;

verus! {

/// A kernel futex: the initial value of its word and its descriptor.
#[derive(Debug, Clone, Copy, PartialEq, Eq, Structural)]
pub struct KFutex {
    pub value: u32,
    pub fd: usize,
}

impl KFutex {
    /// The futex that the "create" reply describes: 0 means none could be made.
    pub fn try_new(value: u32, result: usize) -> (f: Option<KFutex>)
        ensures
            result == 0 ==> f.is_none(),
            result != 0 ==> f == Some(KFutex { value, fd: result }),
    {
        if result == 0 { None } else { Some(KFutex { value, fd: result }) }
    }

    /// As `try_new`, for a creation that must succeed (a failed one aborts).
    pub fn new(value: u32, result: usize) -> (f: KFutex)
        requires
            result != 0,
        ensures
            f == (KFutex { value, fd: result }),
    {
        KFutex::try_new(value, result).unwrap()
    }
}

/// A futex whose kernel object is made on first use, with the initial value given here.
#[derive(Debug, Clone, Copy, PartialEq, Eq, Structural)]
pub struct Futex {
    pub initial_value: u32,
    pub futex: Option<KFutex>,
}

impl Futex {
    /// A futex with no kernel object yet.
    pub fn new(value: u32) -> (f: Futex)
        ensures
            f == (Futex { initial_value: value, futex: None }),
    {
        Futex { initial_value: value, futex: None }
    }

    /// Whether the kernel object still has to be made.
    pub fn needs_kernel_object(&self) -> (b: bool)
        ensures
            b == self.futex.is_none(),
    {
        self.futex.is_none()
    }

    /// Installs the kernel object from the "create" reply (which must succeed), with the
    /// initial value.
    pub fn install(&mut self, result: usize)
        requires
            old(self).futex.is_none(),
            result != 0,
        ensures
            *final(self) == (Futex {
                initial_value: old(self).initial_value,
                futex: Some(KFutex { value: old(self).initial_value, fd: result }),
            }),
    {
        self.futex = Some(KFutex::new(self.initial_value, result));
    }
}

/// The timeout argument of a wait: whole milliseconds in the register width, divided by ten
/// (hundredths of a second); 0, no timeout, when none is given.
pub open spec fn wait_ticks(timeout: Option<Duration>) -> usize {
    match timeout {
        Some(d) => (((d.total_nanos() / 1_000_000) as usize) / 10) as usize,
        None => 0,
    }
}

/// The timeout argument of `futex_wait`.
pub fn futex_wait_timeout(timeout: Option<Duration>) -> (t: usize)
    requires
        timeout matches Some(d) ==> d.wf(),
    ensures
        t == wait_ticks(timeout),
        timeout is None ==> t == 0,
        timeout matches Some(d) ==> (d.total_nanos() / 1_000_000 <= usize::MAX
            ==> t == d.total_nanos() / 10_000_000),
{
    proof {
        lemma_wait_ticks_are_hundredths(timeout);
        if let Some(d) = timeout {
            d.lemma_bounds();
        }
    }
    match timeout {
        Some(d) => (d.as_millis() as usize) / 10,
        None => 0,
    }
}

/// A timeout of `d` waits its whole milliseconds divided by ten, that is its span in
/// nanoseconds divided by 10_000_000, whenever its milliseconds fit the register; no timeout
/// is 0.
pub proof fn lemma_wait_ticks_are_hundredths(timeout: Option<Duration>)
    ensures
        timeout is None ==> wait_ticks(timeout) == 0,
        timeout matches Some(d) ==> (0 <= d.total_nanos() / 1_000_000 <= usize::MAX
            ==> wait_ticks(timeout) == d.total_nanos() / 10_000_000),
{
    if let Some(d) = timeout {
        let n = d.total_nanos();
        if 0 <= n / 1_000_000 <= usize::MAX {
            assert(n >= 0) by {
                if n < 0 {
                    assert(n / 1_000_000 < 0) by (nonlinear_arith) requires n < 0;
                }
            }
            vstd::arithmetic::div_mod::lemma_div_denominator(n, 1_000_000, 10);
        }
    }
}

/// What the wait reply means: -1 (in 32 bits) is a timeout (false); anything else true.
pub fn futex_wait(result: usize) -> (b: bool)
    ensures
        b == (result as i32 != -1),
{
    let r = result as i32;
    if r == -1 { false } else { true }
}

/// What the wake reply means: whether a thread was woken.
pub fn futex_wake(result: usize) -> (b: bool)
    ensures
        b == (result > 0),
{
    result > 0
}

} // verus!
