//! What the system-call wrappers compute around the kernel: decoding of the clock registers
//! and the sleep interval in kernel ticks.
use vstd::prelude::*;
use crate::datetime::{Date, Time, bcd_value};

verus! {

/// The kernel's debug board, a byte sink for diagnostics.
#[derive(Debug, Clone, Copy, PartialEq, Eq, Structural, Default)]
pub struct DebugBoard {}

/// The debug board.
pub fn debugboard() -> (d: DebugBoard)
    ensures
        d == (DebugBoard {}),
{
    DebugBoard {}
}

/// Byte `k` (0, 1 or 2, from the least significant) of a clock register value.
pub open spec fn clock_byte(value: usize, k: int) -> u8 {
    if k == 0 {
        (value % 256) as u8
    } else if k == 1 {
        ((value / 256) % 256) as u8
    } else {
        ((value / 65536) % 256) as u8
    }
}

/// The decimal value of a packed BCD byte (`bcd - 6 * (bcd >> 4)`).
pub fn bcd2dec(bcd: u8) -> (dec: u8)
    ensures
        dec == bcd_value(bcd),
{
    let high = bcd >> 4;
    assert(high == bcd / 16) by (bit_vector)
        requires high == bcd >> 4;
    bcd - 6 * high
}

fn register_byte(value: usize, shift: usize) -> (b: u8)
    requires
        shift == 0 || shift == 8 || shift == 16,
    ensures
        shift == 0 ==> b == clock_byte(value, 0),
        shift == 8 ==> b == clock_byte(value, 1),
        shift == 16 ==> b == clock_byte(value, 2),
{
    let r = (value >> shift) & 0xff;
    if shift == 0 {
        assert(r == value % 256) by (bit_vector)
            requires r == (value >> 0usize) & 0xff;
    } else if shift == 8 {
        assert(r == (value / 256) % 256) by (bit_vector)
            requires r == (value >> 8usize) & 0xff;
    } else {
        assert(r == (value / 65536) % 256) by (bit_vector)
            requires r == (value >> 16usize) & 0xff;
    }
    r as u8
}

/// Decodes the value of the "get time" system call: hours, minutes and seconds as packed BCD
/// in the low three bytes.
pub fn decode_time(value: usize) -> (t: Time)
    ensures
        t.hour == bcd_value(clock_byte(value, 0)),
        t.minute == bcd_value(clock_byte(value, 1)),
        t.second == bcd_value(clock_byte(value, 2)),
{
    let bcd_h = register_byte(value, 0);
    let bcd_m = register_byte(value, 8);
    let bcd_s = register_byte(value, 16);
    Time { hour: bcd2dec(bcd_h), minute: bcd2dec(bcd_m), second: bcd2dec(bcd_s) }
}

/// Decodes the value of the "get date" system call: year within the century, month and day
/// as packed BCD in the low three bytes; the year is counted from 2000.
pub fn decode_date(value: usize) -> (d: Date)
    ensures
        d.year == 2000 + bcd_value(clock_byte(value, 0)),
        d.month == bcd_value(clock_byte(value, 1)),
        d.day == bcd_value(clock_byte(value, 2)),
{
    let bcd_y = register_byte(value, 0);
    let bcd_m = register_byte(value, 8);
    let bcd_d = register_byte(value, 16);
    Date { year: bcd2dec(bcd_y) as u16 + 2000, month: bcd2dec(bcd_m), day: bcd2dec(bcd_d) }
}

/// The argument of the "delay" system call for a sleep of `nanos` nanoseconds: whole
/// hundredths of a second, truncated to the register width.
pub fn sleep_ticks(nanos: u128) -> (ticks: usize)
    ensures
        ticks == (nanos / 10_000_000) as usize,
{
    let millis = nanos / 1_000_000;
    let t = millis / 10;
    assert(t == nanos / 10_000_000) by (nonlinear_arith)
        requires millis == nanos / 1_000_000, t == millis / 10;
    t as usize
}

/// Packing a number below 100 as BCD and decoding it gives the number back.
pub proof fn lemma_bcd_round_trip(n: u8)
    requires
        n < 100,
    ensures
        bcd_value(((n / 10) * 16 + n % 10) as u8) == n,
{
    let b = ((n / 10) * 16 + n % 10) as u8;
    assert(b / 16 == n / 10);
    assert(b % 16 == n % 10);
}

/// The three clock bytes are the low three bytes of the register, least significant first:
/// together they give back the register modulo 2^24.
pub proof fn lemma_clock_bytes_rebuild_register(value: usize)
    ensures
        clock_byte(value, 0) + 256 * clock_byte(value, 1) + 65536 * clock_byte(value, 2)
            == value % 16777216,
{
    let v = value as int;
    assert(clock_byte(value, 0) == v % 256);
    assert(clock_byte(value, 1) == (v / 256) % 256) by {
        assert(0 <= (v / 256) % 256 < 256);
    }
    assert(clock_byte(value, 2) == (v / 65536) % 256) by {
        assert(0 <= (v / 65536) % 256 < 256);
    }
    vstd::arithmetic::div_mod::lemma_mod_breakdown(v, 256, 256);
    vstd::arithmetic::div_mod::lemma_mod_breakdown(v, 65536, 256);
    assert(256 * 256 == 65536 && 65536 * 256 == 16777216);
}

} // verus!
