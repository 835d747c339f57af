use vstd::prelude::*;

use crate::hall::{spec_hall_step, spec_hall_table, HallEncoder, HallSample};

verus! {

pub const GPIOA_IDR: usize = 0x4800_0010;
/// The hall inputs are pins 0 to 2 of port A.
pub const HALL_PIN_MASK: u32 = 7;
/// The two-bit fields of pins 0 to 2.
pub const HALL_MODE_MASK: u32 = 0x3F;
/// The alternate function fields of pins 0 to 2.
pub const HALL_AFRL_MASK: u32 = 0xFFF;
/// Very high speed on pins 0 to 2.
pub const HALL_SPEED_VALUE: u32 = 0x3F;

/// The port A registers that configure the hall pins.
#[derive(Clone, Copy, Debug, PartialEq, Eq, Structural)]
pub struct HallPinConfig {
    pub moder: u32,
    pub ospeedr: u32,
    pub pupdr: u32,
    pub afrl: u32,
}

/// Pins 0 to 2 as very fast inputs without pull or alternate function; the
/// other pins are kept.
pub fn configure_hall_pins(config: HallPinConfig) -> (c: HallPinConfig)
    ensures
        c == (HallPinConfig {
            moder: config.moder & !HALL_MODE_MASK,
            ospeedr: (config.ospeedr & !HALL_MODE_MASK) | HALL_SPEED_VALUE,
            pupdr: config.pupdr & !HALL_MODE_MASK,
            afrl: config.afrl & !HALL_AFRL_MASK,
        }),
{
    HallPinConfig {
        moder: config.moder & !HALL_MODE_MASK,
        ospeedr: (config.ospeedr & !HALL_MODE_MASK) | HALL_SPEED_VALUE,
        pupdr: config.pupdr & !HALL_MODE_MASK,
        afrl: config.afrl & !HALL_AFRL_MASK,
    }
}

/// The hall sensor inputs and the encoder that counts their steps.
pub struct HallInputs {
    encoder: HallEncoder,
}

impl HallInputs {
    pub closed spec fn encoder(&self) -> HallEncoder {
        self.encoder
    }

    /// The inputs with a fresh encoder.
    pub fn init_motor_hall() -> (h: Self)
        ensures
            h.encoder().spec_count() == 0,
            h.encoder().spec_last_hall_count() == 0,
    {
        HallInputs { encoder: HallEncoder::new() }
    }

    /// The three hall bits of the input data register `idr`.
    pub fn raw_bits(&self, idr: u32) -> (b: u8)
        ensures
            b == idr % 8,
    {
        let b = idr & HALL_PIN_MASK;
        assert(b == idr % 8) by (bit_vector)
            requires
                b == idr & 7,
        ;
        b as u8
    }

    /// The count after reading the pins from `idr`.
    pub fn read_count(&mut self, idr: u32) -> (count: i32)
        requires
            spec_hall_table((idr % 8) as u8) != 0 ==> i32::MIN <= old(self).encoder().spec_count()
                + spec_hall_step(
                spec_hall_table((idr % 8) as u8),
                old(self).encoder().spec_last_hall_count(),
            ) <= i32::MAX,
        ensures
            final(self).encoder().spec_reads(old(self).encoder(), (idr % 8) as u8),
            count == final(self).encoder().spec_count(),
    {
        self.read_sample(idr).count
    }

    /// Reads the pins from `idr` as `read_sample` does when the count stays
    /// within `i32`; otherwise nothing changes and there is no sample.
    pub fn try_read_sample(&mut self, idr: u32) -> (r: Option<HallSample>)
        ensures
            r is Some <==> old(self).encoder().spec_read_fits((idr % 8) as u8),
            r is None ==> final(self).encoder() == old(self).encoder(),
            r matches Some(s) ==> {
                &&& final(self).encoder().spec_reads(old(self).encoder(), (idr % 8) as u8)
                &&& s.count == final(self).encoder().spec_count()
                &&& s.hall_count == final(self).encoder().spec_last_hall_count()
            },
    {
        let bits = self.raw_bits(idr);
        self.encoder.try_read_sample(bits)
    }

    /// The count and last valid sector after reading the pins from `idr`.
    pub fn read_sample(&mut self, idr: u32) -> (s: HallSample)
        requires
            spec_hall_table((idr % 8) as u8) != 0 ==> i32::MIN <= old(self).encoder().spec_count()
                + spec_hall_step(
                spec_hall_table((idr % 8) as u8),
                old(self).encoder().spec_last_hall_count(),
            ) <= i32::MAX,
        ensures
            final(self).encoder().spec_reads(old(self).encoder(), (idr % 8) as u8),
            s.count == final(self).encoder().spec_count(),
            s.hall_count == final(self).encoder().spec_last_hall_count(),
    {
        let bits = self.raw_bits(idr);
        self.encoder.read_sample(bits)
    }
}

} // verus!
