//! The program break of a heap kept as one kernel block that is resized on each move.
use vstd::prelude::*;

verus! {

/// A heap: the address of its block and the program break, an offset into it.
#[derive(Debug, Clone, Copy, PartialEq, Eq, Structural)]
pub struct Heap {
    pub start: usize,
    pub brk: usize,
}

/// The break after moving by `increment`: a decrease stops at 0; an increase past the
/// largest `usize` fails.
pub open spec fn next_brk(brk: usize, increment: isize) -> Option<usize> {
    if increment < 0 {
        if brk + increment < 0 { Some(0usize) } else { Some((brk + increment) as usize) }
    } else if brk + increment > usize::MAX {
        None
    } else {
        Some((brk + increment) as usize)
    }
}

/// What moving the break needs.
#[derive(Debug, Clone, Copy, PartialEq, Eq, Structural)]
pub enum SbrkStep {
    /// Nothing moves: the current break is this address.
    Current(usize),
    /// Resize the block to this new break, then call `Heap::resized`.
    Resize(usize),
    /// The break cannot move that far.
    Overflow,
}

impl Heap {
    /// A heap with no block yet.
    pub fn new() -> (h: Heap)
        ensures
            h == (Heap { start: 0, brk: 0 }),
    {
        Heap { start: 0, brk: 0 }
    }

    /// What moving the break by `increment` asks for.
    pub fn sbrk(&self, increment: isize) -> (s: SbrkStep)
        requires
            increment != isize::MIN,
            self.start + self.brk <= usize::MAX,
        ensures
            increment == 0 ==> s == SbrkStep::Current((self.start + self.brk) as usize),
            increment != 0 ==> match next_brk(self.brk, increment) {
                Some(b) => s == SbrkStep::Resize(b),
                None => s == SbrkStep::Overflow,
            },
    {
        if increment == 0 {
            return SbrkStep::Current(self.start + self.brk);
        }
        if increment < 0 {
            let decrement = (-increment) as usize;
            let new_brk = match self.brk.checked_sub(decrement) {
                Some(b) => b,
                None => 0,
            };
            SbrkStep::Resize(new_brk)
        } else {
            match self.brk.checked_add(increment as usize) {
                Some(value) => SbrkStep::Resize(value),
                None => SbrkStep::Overflow,
            }
        }
    }

    /// Records the block that the kernel returned for the new break, and gives the address
    /// of the old break in it: the start of the added memory.
    pub fn resized(&mut self, new_start: usize, new_brk: usize) -> (old_brk_addr: usize)
        requires
            new_start + old(self).brk <= usize::MAX,
        ensures
            old_brk_addr == new_start + old(self).brk,
            *final(self) == (Heap { start: new_start, brk: new_brk }),
    {
        let brk = new_start + self.brk;
        self.start = new_start;
        self.brk = new_brk;
        brk
    }
}

/// Moving the break up by `n` and down by `n` again brings it back.
pub proof fn lemma_grow_then_shrink(brk: usize, n: isize)
    requires
        0 < n,
        next_brk(brk, n).is_some(),
    ensures
        next_brk(next_brk(brk, n).unwrap(), -n as isize) == Some(brk),
{
}

/// Moving the break by `increment` lands exactly there whenever that lies in
/// `0..=usize::MAX`; a decrease below zero stops at 0 and an increase past the largest
/// `usize` fails.
pub proof fn lemma_next_brk_moves_by_increment(brk: usize, increment: isize)
    ensures
        0 <= brk + increment <= usize::MAX ==> next_brk(brk, increment) == Some((brk + increment) as usize),
        brk + increment < 0 ==> next_brk(brk, increment) == Some(0usize),
        brk + increment > usize::MAX ==> next_brk(brk, increment).is_none(),
        next_brk(brk, 0) == Some(brk),
{
}

} // verus!
