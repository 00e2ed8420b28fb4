//! Bytes from the clock: each byte adds the XOR of the low four bytes of the current Unix
//! time to a running seed.
use vstd::prelude::*;

verus! {

/// The seed before the first byte.
pub const INITIAL_SEED: u8 = 42;

/// Byte `k` (0 to 3) of a time value.
pub open spec fn time_byte(t: u64, k: int) -> u8 {
    if k == 0 {
        (t % 256) as u8
    } else if k == 1 {
        ((t / 0x100) % 256) as u8
    } else if k == 2 {
        ((t / 0x10000) % 256) as u8
    } else {
        ((t / 0x1000000) % 256) as u8
    }
}

/// The XOR of the low four bytes of a time value.
pub open spec fn time_mask(t: u64) -> u8 {
    time_byte(t, 3) ^ time_byte(t, 2) ^ time_byte(t, 1) ^ time_byte(t, 0)
}

/// The seed after adding (modulo 256) the mask of a time value.
pub open spec fn next_seed(seed: u8, t: u64) -> u8 {
    ((seed + time_mask(t)) % 256) as u8
}

fn mask_of(unixtime: u64) -> (m: u8)
    ensures
        m == time_mask(unixtime),
{
    let d1 = ((unixtime & 0xff_00_00_00) >> 24) as u8;
    let d2 = ((unixtime & 0x00_ff_00_00) >> 16) as u8;
    let d3 = ((unixtime & 0x00_00_ff_00) >> 8) as u8;
    let d4 = (unixtime & 0x00_00_00_ff) as u8;
    assert(d1 == ((unixtime / 0x1000000) % 256) as u8) by (bit_vector)
        requires d1 == ((unixtime & 0xff_00_00_00) >> 24) as u8;
    assert(d2 == ((unixtime / 0x10000) % 256) as u8) by (bit_vector)
        requires d2 == ((unixtime & 0x00_ff_00_00) >> 16) as u8;
    assert(d3 == ((unixtime / 0x100) % 256) as u8) by (bit_vector)
        requires d3 == ((unixtime & 0x00_00_ff_00) >> 8) as u8;
    assert(d4 == (unixtime % 256) as u8) by (bit_vector)
        requires d4 == (unixtime & 0x00_00_00_ff) as u8;
    d1 ^ d2 ^ d3 ^ d4
}

/// The next byte, from the seed and the Unix time in seconds: the seed advances by the
/// time's mask, and the new seed is the byte.
pub fn emit_u8(seed: &mut u8, unixtime: u64) -> (b: u8)
    ensures
        *final(seed) == next_seed(*old(seed), unixtime),
        b == *final(seed),
{
    let mask = mask_of(unixtime);
    *seed = seed.wrapping_add(mask);
    *seed
}

/// The seed after masks of a run of time readings have been added in turn.
pub open spec fn seed_after(seed: u8, clock: Seq<u64>) -> u8
    decreases clock.len(),
{
    if clock.len() == 0 { seed } else { next_seed(seed_after(seed, clock.drop_last()), clock.last()) }
}

/// Fills a buffer byte by byte, reading the time again for each (`clock[i]` for byte `i`).
pub fn fill_bytes(seed: &mut u8, bytes: &mut [u8], clock: &[u64])
    requires
        clock@.len() == old(bytes)@.len(),
    ensures
        final(bytes)@.len() == old(bytes)@.len(),
        forall|i: int| 0 <= i < clock@.len() ==>
            #[trigger] final(bytes)@[i] == seed_after(*old(seed), clock@.subrange(0, i + 1)),
        *final(seed) == seed_after(*old(seed), clock@),
{
    let ghost s0 = *seed;
    let mut i: usize = 0;
    while i < bytes.len()
        invariant
            i <= bytes@.len(),
            bytes@.len() == old(bytes)@.len(),
            clock@.len() == bytes@.len(),
            *seed == seed_after(s0, clock@.subrange(0, i as int)),
            s0 == *old(seed),
            forall|k: int| 0 <= k < i ==> #[trigger] bytes@[k] == seed_after(s0, clock@.subrange(0, k + 1)),
        decreases bytes@.len() - i,
    {
        let b = emit_u8(seed, clock[i]);
        proof {
            assert(clock@.subrange(0, i as int + 1).drop_last() =~= clock@.subrange(0, i as int));
        }
        bytes[i] = b;
        i = i + 1;
    }
    assert(clock@.subrange(0, clock@.len() as int) =~= clock@);
}

/// The four time bytes are the low four bytes of the time, least significant first: together
/// they give back the time modulo 2^32.
pub proof fn lemma_time_bytes_rebuild(t: u64)
    ensures
        time_byte(t, 0) + 0x100 * time_byte(t, 1) + 0x10000 * time_byte(t, 2) + 0x1000000 * time_byte(t, 3)
            == t % 0x100000000,
{
    let v = t as int;
    assert(time_byte(t, 0) == v % 256);
    assert(time_byte(t, 1) == (v / 0x100) % 256) by { assert(0 <= (v / 0x100) % 256 < 256); }
    assert(time_byte(t, 2) == (v / 0x10000) % 256) by { assert(0 <= (v / 0x10000) % 256 < 256); }
    assert(time_byte(t, 3) == (v / 0x1000000) % 256) by { assert(0 <= (v / 0x1000000) % 256 < 256); }
    vstd::arithmetic::div_mod::lemma_mod_breakdown(v, 0x100, 256);
    vstd::arithmetic::div_mod::lemma_mod_breakdown(v, 0x10000, 256);
    vstd::arithmetic::div_mod::lemma_mod_breakdown(v, 0x1000000, 256);
    assert(0x100 * 256 == 0x10000 && 0x10000 * 256 == 0x1000000 && 0x1000000 * 256 == 0x100000000);
}

} // verus!
