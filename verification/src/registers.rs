use vstd::prelude::*;

verus! {

/// One register write: `value` goes to the register at `address`.
#[derive(Clone, Copy, Debug, PartialEq, Eq, Structural)]
pub struct RegisterWrite {
    pub address: usize,
    pub value: u32,
}


/// The two bits that configure GPIO pin `pin` in a two-bit-per-pin register
/// (mode, speed, pull).
pub fn two_bit_pin_mask(pin: u32) -> (m: u32)
    requires
        pin < 16,
    ensures
        m == 3u32 << (pin * 2),
{
    3u32 << (pin * 2)
}

/// The four bits that select the alternate function of pin `pin` in one half
/// of the alternate function register pair.
pub fn four_bit_pin_mask(pin: u32) -> (m: u32)
    requires
        pin < 8,
    ensures
        m == 15u32 << (pin * 4),
{
    15u32 << (pin * 4)
}

/// `value` with the two-bit field of pin `pin` replaced by `field`; the other
/// bits are kept, and a field that fits two bits reads back unchanged.
pub fn set_two_bit_field(value: u32, pin: u32, field: u32) -> (r: u32)
    requires
        pin < 16,
    ensures
        r == (value & !(3u32 << (pin * 2))) | (field << (pin * 2)),
        field < 4 ==> (r >> (pin * 2)) & 3 == field,
        field < 4 ==> r & !(3u32 << (pin * 2)) == value & !(3u32 << (pin * 2)),
{
    let shift = pin * 2;
    let r = (value & !(3u32 << shift)) | (field << shift);
    assert(field < 4 ==> (r >> shift) & 3 == field && r & !(3u32 << shift) == value & !(3u32
        << shift)) by (bit_vector)
        requires
            shift <= 30,
            r == (value & !(3u32 << shift)) | (field << shift),
    ;
    r
}

/// `value` with the four-bit field of pin `pin` replaced by `field`; the
/// other bits are kept, and a field that fits four bits reads back unchanged.
pub fn set_four_bit_field(value: u32, pin: u32, field: u32) -> (r: u32)
    requires
        pin < 8,
    ensures
        r == (value & !(15u32 << (pin * 4))) | (field << (pin * 4)),
        field < 16 ==> (r >> (pin * 4)) & 15 == field,
        field < 16 ==> r & !(15u32 << (pin * 4)) == value & !(15u32 << (pin * 4)),
{
    let shift = pin * 4;
    let r = (value & !(15u32 << shift)) | (field << shift);
    assert(field < 16 ==> (r >> shift) & 15 == field && r & !(15u32 << shift) == value & !(15u32
        << shift)) by (bit_vector)
        requires
            shift <= 28,
            r == (value & !(15u32 << shift)) | (field << shift),
    ;
    r
}

/// One step of a register programme that the caller carries out on the
/// hardware in order.
#[derive(Clone, Copy, Debug, PartialEq, Eq, Structural)]
pub enum RegisterStep<E> {
    /// Read the register, clear the bits of `clear`, set those of `set` and
    /// write it back.
    Modify { address: usize, clear: u32, set: u32 },
    /// Write `value`.
    Write { address: usize, value: u32 },
    /// Read the register and drop the value, so that a clock enable has
    /// reached the peripheral before it is used.
    Read { address: usize },
    /// Poll until the register's bits under `mask` equal `expected`; give up
    /// with `error` after `WAIT_ITERATIONS` reads.
    WaitFor { address: usize, mask: u32, expected: u32, error: E },
    /// Spin for a number of iterations.
    Delay { iterations: u32 },
}

/// How many reads a `WaitFor` step makes before it fails.
pub const WAIT_ITERATIONS: u32 = 1_000_000;

/// The value that a `Modify` step writes back.
pub open spec fn spec_modified(value: u32, clear: u32, set: u32) -> u32 {
    (value & !clear) | set
}

pub fn modified(value: u32, clear: u32, set: u32) -> (r: u32)
    ensures
        r == spec_modified(value, clear, set),
{
    (value & !clear) | set
}

} // verus!
