use vstd::prelude::*;

verus! {

/// The hall sector (1 to 6) that the three hall bits encode; 0 for the two
/// invalid patterns 0b000 and 0b111. Only the low three bits count.
pub open spec fn spec_hall_table(hall_bits: u8) -> u8 {
    let bits = hall_bits % 8;
    if bits == 1 {
        1
    } else if bits == 2 {
        3
    } else if bits == 3 {
        2
    } else if bits == 4 {
        5
    } else if bits == 5 {
        6
    } else if bits == 6 {
        4
    } else {
        0
    }
}

/// The step from sector `last` to sector `next`, taken the short way round.
pub open spec fn spec_hall_step(next: u8, last: u8) -> int {
    let d = next as int - last as int;
    if d < -3 {
        d + 6
    } else if d > 3 {
        d - 6
    } else {
        d
    }
}

/// Moving to the next sector round the circle (6 is followed by 1) counts
/// one step forward, and moving back counts one step back, the wrap
/// included.
pub proof fn lemma_adjacent_sectors_step_by_one(last: u8)
    requires
        1 <= last <= 6,
    ensures
        ({
            let next: u8 = if last == 6 {
                1
            } else {
                (last + 1) as u8
            };
            &&& spec_hall_step(next, last) == 1
            &&& spec_hall_step(last, next) == -1
        }),
{
}

/// `bits` with the bit of weight `k` flipped.
pub open spec fn spec_flip_bit(bits: u8, k: u8) -> int {
    if (bits / k) % 2 == 1 {
        bits - k
    } else {
        bits + k
    }
}

/// The six valid hall patterns are the six sectors, 0b000 and 0b111 none;
/// as the rotor turns one hall sensor changes at a time, and every change
/// of a single sensor between valid patterns moves one sector, forward or
/// back.
pub proof fn lemma_single_sensor_change_moves_one_sector(bits: u8, k: u8)
    requires
        k == 1 || k == 2 || k == 4,
    ensures
        (bits % 8 == 0 || bits % 8 == 7) <==> spec_hall_table(bits) == 0,
        1 <= bits % 8 <= 6 ==> 1 <= spec_hall_table(bits) <= 6,
        ({
            let other = spec_flip_bit(bits % 8, k);
            (1 <= bits % 8 <= 6 && 1 <= other <= 6) ==> {
                let step = spec_hall_step(spec_hall_table(other as u8), spec_hall_table(bits));
                step == 1 || step == -1
            }
        }),
{
    let b = bits % 8;
    if 1 <= b <= 6 {
        let other = spec_flip_bit(b, k);
        if 1 <= other <= 6 {
            assert((other as u8) % 8 == other);
            if k == 1 {
                assert(other == if b % 2 == 1 { b - 1 } else { b + 1 });
            } else if k == 2 {
                assert(other == if (b / 2) % 2 == 1 { b - 2 } else { b + 2 });
            } else {
                assert(other == if (b / 4) % 2 == 1 { b - 4 } else { b + 4 });
            }
        }
    }
}

/// `x` reduced into `0..6`.
pub open spec fn spec_rem_euclid_6(x: int) -> int {
    x % 6
}

/// The electrical sector is the signed count reduced into `0..6`: it
/// differs from the count by a whole number of turns, and one more hall
/// step moves it one sector on, wrapping from 5 to 0.
pub proof fn lemma_sector_of_count(x: int)
    ensures
        0 <= spec_rem_euclid_6(x) < 6,
        x == 6 * (x / 6) + spec_rem_euclid_6(x),
        spec_rem_euclid_6(x + 1) == if spec_rem_euclid_6(x) == 5 {
            0
        } else {
            spec_rem_euclid_6(x) + 1
        },
{
}

fn hall_table(hall_bits: u8) -> (h: u8)
    ensures
        h == spec_hall_table(hall_bits),
        h <= 6,
{
    let bits = hall_bits & 0x07;
    assert(bits == hall_bits % 8) by (bit_vector)
        requires
            bits == hall_bits & 0x07,
    ;
    match bits {
        1 => 1,
        2 => 3,
        3 => 2,
        4 => 5,
        5 => 6,
        6 => 4,
        _ => 0,
    }
}

/// One hall reading: the accumulated count and the last valid sector.
#[derive(Clone, Copy, Debug, Default, PartialEq, Eq, Structural)]
pub struct HallSample {
    pub count: i32,
    pub hall_count: u8,
}

/// Maps the motor position counted in hall steps to an electrical angle.
#[derive(Clone, Copy, Debug, PartialEq, Eq, Structural)]
pub struct HallElectricalAngle {
    phase_sign: i32,
    zero_count: i32,
}

impl HallElectricalAngle {
    pub closed spec fn spec_phase_sign(self) -> i32 {
        self.phase_sign
    }

    pub closed spec fn spec_zero_count(self) -> i32 {
        self.zero_count
    }

    /// The signed count of electrical sectors since the zero position.
    pub open spec fn spec_signed_count(self, count: i32) -> int {
        self.spec_phase_sign() * (count - self.spec_zero_count())
    }

    /// The orientation of the motor_hall board: counting runs against the
    /// electrical phase, and count 0 is the zero angle.
    pub fn motor_hall() -> (a: Self)
        ensures
            a.spec_phase_sign() == -1,
            a.spec_zero_count() == 0,
    {
        Self { phase_sign: -1, zero_count: 0 }
    }

    pub fn new(phase_sign: i32, zero_count: i32) -> (a: Self)
        ensures
            a.spec_phase_sign() == phase_sign,
            a.spec_zero_count() == zero_count,
    {
        Self { phase_sign, zero_count }
    }

    /// `phase_sign * (count - zero_count)`.
    pub fn signed_electrical_count(self, count: i32) -> (r: i32)
        requires
            i32::MIN <= count - self.spec_zero_count() <= i32::MAX,
            i32::MIN <= self.spec_signed_count(count) <= i32::MAX,
        ensures
            r == self.spec_signed_count(count),
    {
        self.phase_sign * (count - self.zero_count)
    }

    /// The electrical sector (0 to 5, each a sixth of a turn) that a hall
    /// count stands for; the angle is `sector * pi / 3`.
    pub fn sector(self, count: i32) -> (s: u8)
        requires
            i32::MIN <= count - self.spec_zero_count() <= i32::MAX,
            i32::MIN <= self.spec_signed_count(count) <= i32::MAX,
        ensures
            s == spec_rem_euclid_6(self.spec_signed_count(count)),
    {
        rem_euclid_6(self.signed_electrical_count(count)) as u8
    }

    /// The electrical sector for a hall sector reading (0 for "no valid
    /// reading yet"). A negative phase sign runs the sectors backwards.
    pub fn hall_count_sector(self, hall_count: u8) -> (s: u8)
        requires
            self.spec_phase_sign() < 0 ==> hall_count <= 6,
        ensures
            s == spec_hall_count_sector(self.spec_phase_sign(), hall_count),
    {
        if hall_count == 0 {
            0
        } else if self.phase_sign < 0 {
            6 - hall_count
        } else if hall_count == 6 {
            0
        } else {
            hall_count
        }
    }

    /// The electrical sector of a hall sector reading on the motor_hall board,
    /// as a direct table.
    pub fn motor_hall_sector(hall_count: u8) -> (s: u8)
        ensures
            s == spec_motor_hall_sector(hall_count),
    {
        match hall_count {
            1 => 5,
            2 => 4,
            3 => 3,
            4 => 2,
            5 => 1,
            _ => 0,
        }
    }
}

/// The electrical sector that a hall sector reading stands for under a
/// phase sign: none for 0, backwards for a negative sign, and sector 6 is
/// sector 0.
pub open spec fn spec_hall_count_sector(phase_sign: i32, hall_count: u8) -> int {
    if hall_count == 0 {
        0
    } else if phase_sign < 0 {
        6 - hall_count
    } else if hall_count == 6 {
        0
    } else {
        hall_count as int
    }
}

/// The motor_hall table: hall sectors 1 to 5 map to 5 down to 1, the rest
/// to 0.
pub open spec fn spec_motor_hall_sector(hall_count: u8) -> int {
    if 1 <= hall_count <= 5 {
        6 - hall_count
    } else {
        0
    }
}

/// The motor_hall table gives, for every hall reading, the sector that the
/// general mapping gives with the motor_hall orientation.
pub proof fn lemma_motor_hall_table_matches_general_mapping(angle: HallElectricalAngle, hall_count: u8)
    requires
        angle.spec_phase_sign() < 0,
        hall_count <= 6,
    ensures
        spec_motor_hall_sector(hall_count) == spec_hall_count_sector(angle.spec_phase_sign(), hall_count),
{
}

/// `value` reduced into `0..6`.
pub fn rem_euclid_6(value: i32) -> (r: i32)
    ensures
        r == spec_rem_euclid_6(value as int),
        0 <= r < 6,
{
    let remainder = value % 6;
    if remainder < 0 {
        remainder + 6
    } else {
        remainder
    }
}

/// The short step from sector `last` to sector `next`.
fn hall_step(next: u8, last: u8) -> (d: i8)
    requires
        next <= 6,
        last <= 6,
    ensures
        d == spec_hall_step(next, last),
        -3 <= d <= 3,
{
    let mut diff: i8 = next as i8 - last as i8;
    if diff < -3 {
        diff = diff + 6;
    } else if diff > 3 {
        diff = diff - 6;
    }
    diff
}

/// Counts hall steps from the sequence of hall sensor patterns.
#[derive(Clone, Copy, Debug, PartialEq, Eq, Structural)]
pub struct HallEncoder {
    count: i32,
    last_hall_count: u8,
}

impl HallEncoder {
    /// The last valid sector is 0 to 6, and the count agrees with it modulo 6.
    /// Every encoder satisfies it: `use_type_invariant` on one gives it.
    #[verifier::type_invariant]
    pub open spec fn inv(self) -> bool {
        &&& self.spec_last_hall_count() <= 6
        &&& (self.spec_count() - self.spec_last_hall_count()) % 6 == 0
    }

    pub closed spec fn spec_count(&self) -> i32 {
        self.count
    }

    pub closed spec fn spec_last_hall_count(self) -> u8 {
        self.last_hall_count
    }

    pub fn new() -> (e: Self)
        ensures
            e.spec_count() == 0,
            e.spec_last_hall_count() == 0,
    {
        Self { count: 0, last_hall_count: 0 }
    }

    /// The count after reading `hall_bits`.
    pub fn read(&mut self, hall_bits: u8) -> (count: i32)
        requires
            spec_hall_table(hall_bits) != 0 ==> i32::MIN <= old(self).spec_count()
                + spec_hall_step(spec_hall_table(hall_bits), old(self).spec_last_hall_count())
                <= i32::MAX,
        ensures
            final(self).spec_reads(*old(self), hall_bits),
            count == final(self).spec_count(),
    {
        self.read_sample(hall_bits).count
    }

    /// `self` is `before` after reading `hall_bits`: an invalid pattern
    /// changes nothing; a valid one moves the count by the short step from
    /// the last sector and becomes the last sector.
    pub open spec fn spec_reads(self, before: HallEncoder, hall_bits: u8) -> bool {
        let h = spec_hall_table(hall_bits);
        &&& h == 0 ==> self.spec_count() == before.spec_count() && self.spec_last_hall_count()
            == before.spec_last_hall_count()
        &&& h != 0 ==> self.spec_last_hall_count() == h && self.spec_count() == before.spec_count()
            + spec_hall_step(h, before.spec_last_hall_count())
        &&& self.spec_last_hall_count() <= 6
        &&& (self.spec_count() - self.spec_last_hall_count()) % 6 == 0
    }

    /// Reads one hall pattern and returns the count and the last valid sector.
    pub fn read_sample(&mut self, hall_bits: u8) -> (s: HallSample)
        requires
            spec_hall_table(hall_bits) != 0 ==> i32::MIN <= old(self).spec_count()
                + spec_hall_step(spec_hall_table(hall_bits), old(self).spec_last_hall_count())
                <= i32::MAX,
        ensures
            final(self).spec_reads(*old(self), hall_bits),
            s.count == final(self).spec_count(),
            s.hall_count == final(self).spec_last_hall_count(),
    {
        proof {
            use_type_invariant(&*self);
        }
        let hall_count = hall_table(hall_bits);
        if hall_count != 0 {
            let diff = hall_step(hall_count, self.last_hall_count);
            let new_count = self.count + diff as i32;
            proof {
                let step = spec_hall_step(hall_count, self.last_hall_count);
                assert(diff == step);
                assert((new_count - hall_count) % 6 == 0) by {
                    assert(new_count - hall_count == (self.count - self.last_hall_count) + (step
                        - (hall_count - self.last_hall_count)));
                    assert((step - (hall_count - self.last_hall_count)) % 6 == 0);
                    vstd::arithmetic::div_mod::lemma_add_mod_noop(
                        self.count - self.last_hall_count,
                        step - (hall_count - self.last_hall_count),
                        6,
                    );
                }
            }
            *self = HallEncoder { count: new_count, last_hall_count: hall_count };
        }
        proof {
            use_type_invariant(&*self);
        }
        HallSample { count: self.count, hall_count: self.last_hall_count }
    }

    /// Whether reading `hall_bits` keeps the count within `i32`.
    pub open spec fn spec_read_fits(self, hall_bits: u8) -> bool {
        spec_hall_table(hall_bits) != 0 ==> i32::MIN <= self.spec_count() + spec_hall_step(
            spec_hall_table(hall_bits),
            self.spec_last_hall_count(),
        ) <= i32::MAX
    }

    /// Reads one hall pattern as `read_sample` does when the count stays
    /// within `i32`; otherwise nothing changes and there is no sample.
    pub fn try_read_sample(&mut self, hall_bits: u8) -> (r: Option<HallSample>)
        ensures
            r is Some <==> old(self).spec_read_fits(hall_bits),
            r is None ==> *final(self) == *old(self),
            r matches Some(s) ==> {
                &&& final(self).spec_reads(*old(self), hall_bits)
                &&& s.count == final(self).spec_count()
                &&& s.hall_count == final(self).spec_last_hall_count()
            },
    {
        proof {
            use_type_invariant(&*self);
        }
        let hall_count = hall_table(hall_bits);
        if hall_count != 0 {
            let diff = hall_step(hall_count, self.last_hall_count);
            let next = self.count as i64 + diff as i64;
            if next < i32::MIN as i64 || next > i32::MAX as i64 {
                return None;
            }
        }
        Some(self.read_sample(hall_bits))
    }

    #[verifier::when_used_as_spec(spec_count)]
    pub fn count(&self) -> (c: i32)
        ensures
            c == self.spec_count(),
    {
        self.count
    }
}

} // verus!
