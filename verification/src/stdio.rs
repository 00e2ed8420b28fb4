//! Standard streams: input is always empty, output goes to the console, errors to the
//! debug board.
use vstd::prelude::*;
use crate::io_error::IoError;

verus! {

/// Standard input: there is none, every read is empty.
#[derive(Debug, Clone, Copy, PartialEq, Eq, Structural, Default)]
pub struct Stdin {}

/// Standard output, written to the console.
#[derive(Debug, Clone, Copy, PartialEq, Eq, Structural, Default)]
pub struct Stdout {}

/// Standard error, written to the debug board.
#[derive(Debug, Clone, Copy, PartialEq, Eq, Structural, Default)]
pub struct Stderr {}

/// Buffer size for standard input: nothing is ever read.
pub const STDIN_BUF_SIZE: usize = 0;

/// Sum of a sequence of lengths.
pub open spec fn total_len(s: Seq<usize>) -> int
    decreases s.len(),
{
    if s.len() == 0 { 0 } else { total_len(s.drop_last()) + s.last() }
}

/// The total length of the buffers of a vectored write, given by their lengths.
fn sum_lengths(lens: &[usize]) -> (n: usize)
    requires
        total_len(lens@) <= usize::MAX,
    ensures
        n == total_len(lens@),
{
    let mut total: usize = 0;
    let mut i: usize = 0;
    while i < lens.len()
        invariant
            i <= lens@.len(),
            total == total_len(lens@.subrange(0, i as int)),
            total_len(lens@) <= usize::MAX,
        decreases lens@.len() - i,
    {
        proof {
            assert(lens@.subrange(0, i as int + 1).drop_last() =~= lens@.subrange(0, i as int));
            lemma_total_len_prefix(lens@, i as int + 1);
        }
        total = total + lens[i];
        i = i + 1;
    }
    assert(lens@.subrange(0, lens@.len() as int) =~= lens@);
    total
}

proof fn lemma_total_len_prefix(s: Seq<usize>, k: int)
    requires
        0 <= k <= s.len(),
    ensures
        total_len(s.subrange(0, k)) <= total_len(s),
    decreases s.len(),
{
    if k < s.len() {
        assert(s.drop_last().subrange(0, k) =~= s.subrange(0, k));
        lemma_total_len_prefix(s.drop_last(), k);
    } else {
        assert(s.subrange(0, k) =~= s);
    }
}

impl Stdin {
    pub fn new() -> (s: Stdin)
        ensures
            s == (Stdin {}),
    {
        Stdin {}
    }

    /// Reads nothing.
    pub fn read(&mut self, buf: &mut [u8]) -> (r: Result<usize, IoError>)
        ensures
            r == Ok::<usize, IoError>(0),
            final(buf)@ == old(buf)@,
    {
        Ok(0)
    }

    /// Fills nothing.
    pub fn read_buf(&mut self) -> (r: Result<(), IoError>)
        ensures
            r == Ok::<(), IoError>(()),
    {
        Ok(())
    }

    /// Reads nothing into any of the buffers.
    pub fn read_vectored(&mut self) -> (r: Result<usize, IoError>)
        ensures
            r == Ok::<usize, IoError>(0),
    {
        Ok(0)
    }

    pub fn is_read_vectored(&self) -> (b: bool)
        ensures
            !b,
    {
        false
    }

    /// Succeeds only for an empty buffer; any other cannot be filled.
    pub fn read_exact(&mut self, buf: &mut [u8]) -> (r: Result<(), IoError>)
        ensures
            old(buf)@.len() == 0 ==> r == Ok::<(), IoError>(()),
            old(buf)@.len() != 0 ==> r == Err::<(), IoError>(IoError::ReadExactEof),
            final(buf)@ == old(buf)@,
    {
        if buf.len() != 0 { Err(IoError::ReadExactEof) } else { Ok(()) }
    }

    /// Succeeds only for a cursor without capacity.
    pub fn read_buf_exact(&mut self, capacity: usize) -> (r: Result<(), IoError>)
        ensures
            capacity == 0 ==> r == Ok::<(), IoError>(()),
            capacity != 0 ==> r == Err::<(), IoError>(IoError::ReadExactEof),
    {
        if capacity != 0 { Err(IoError::ReadExactEof) } else { Ok(()) }
    }

    /// Appends nothing.
    pub fn read_to_end(&mut self, buf: &mut Vec<u8>) -> (r: Result<usize, IoError>)
        ensures
            r == Ok::<usize, IoError>(0),
            final(buf)@ == old(buf)@,
    {
        Ok(0)
    }

    /// Appends nothing.
    pub fn read_to_string(&mut self, buf: &mut String) -> (r: Result<usize, IoError>)
        ensures
            r == Ok::<usize, IoError>(0),
            final(buf)@ == old(buf)@,
    {
        Ok(0)
    }
}

impl Stdout {
    pub fn new() -> (s: Stdout)
        ensures
            s == (Stdout {}),
    {
        Stdout {}
    }

    /// Reports the total length of the buffers as written, without writing them.
    pub fn write_vectored(&mut self, lens: &[usize]) -> (r: Result<usize, IoError>)
        requires
            total_len(lens@) <= usize::MAX,
        ensures
            r == Ok::<usize, IoError>(total_len(lens@) as usize),
    {
        Ok(sum_lengths(lens))
    }

    pub fn is_write_vectored(&self) -> (b: bool)
        ensures
            b,
    {
        true
    }

    /// Reports success without writing.
    pub fn write_all_vectored(&mut self) -> (r: Result<(), IoError>)
        ensures
            r == Ok::<(), IoError>(()),
    {
        Ok(())
    }

    pub fn flush(&mut self) -> (r: Result<(), IoError>)
        ensures
            r == Ok::<(), IoError>(()),
    {
        Ok(())
    }
}

impl Stderr {
    pub fn new() -> (s: Stderr)
        ensures
            s == (Stderr {}),
    {
        Stderr {}
    }

    /// Reports the total length of the buffers as written, without writing them.
    pub fn write_vectored(&mut self, lens: &[usize]) -> (r: Result<usize, IoError>)
        requires
            total_len(lens@) <= usize::MAX,
        ensures
            r == Ok::<usize, IoError>(total_len(lens@) as usize),
    {
        Ok(sum_lengths(lens))
    }

    pub fn is_write_vectored(&self) -> (b: bool)
        ensures
            b,
    {
        true
    }

    /// Reports success without writing.
    pub fn write_all_vectored(&mut self) -> (r: Result<(), IoError>)
        ensures
            r == Ok::<(), IoError>(()),
    {
        Ok(())
    }

    pub fn flush(&mut self) -> (r: Result<(), IoError>)
        ensures
            r == Ok::<(), IoError>(()),
    {
        Ok(())
    }
}

/// Whether an error means a closed standard stream: never here.
pub fn is_ebadf(_err: &IoError) -> (b: bool)
    ensures
        !b,
{
    false
}

/// Where panic messages go: standard error.
pub fn panic_output() -> (o: Option<Stderr>)
    ensures
        o == Some(Stderr {}),
{
    Some(Stderr {})
}

} // verus!
