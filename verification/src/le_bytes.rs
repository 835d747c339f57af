use vstd::prelude::*;

verus! {

/// Little-endian bytes of a 16-bit value.
pub open spec fn spec_u16_le(x: u16) -> Seq<u8> {
    seq![(x % 256) as u8, (x / 256) as u8]
}

/// Little-endian bytes of a 32-bit value.
pub open spec fn spec_u32_le(x: u32) -> Seq<u8> {
    seq![
        (x % 256) as u8,
        ((x / 0x100) % 256) as u8,
        ((x / 0x1_0000) % 256) as u8,
        (x / 0x100_0000) as u8,
    ]
}

/// Little-endian bytes of a 64-bit value.
pub open spec fn spec_u64_le(x: u64) -> Seq<u8> {
    spec_u32_le((x % 0x1_0000_0000) as u32) + spec_u32_le((x / 0x1_0000_0000) as u32)
}

/// The 16-bit value of two little-endian bytes.
pub open spec fn spec_le_u16(s: Seq<u8>) -> u16
    recommends
        s.len() == 2,
{
    (s[0] + 256 * s[1]) as u16
}

/// The 32-bit value of four little-endian bytes.
pub open spec fn spec_le_u32(s: Seq<u8>) -> u32
    recommends
        s.len() == 4,
{
    (s[0] + 0x100 * s[1] + 0x1_0000 * s[2] + 0x100_0000 * s[3]) as u32
}

/// The 64-bit value of eight little-endian bytes.
pub open spec fn spec_le_u64(s: Seq<u8>) -> u64
    recommends
        s.len() == 8,
{
    (spec_le_u32(s.subrange(0, 4)) + 0x1_0000_0000 * spec_le_u32(s.subrange(4, 8))) as u64
}

/// Values travel least significant byte first: byte `i` of a value is its
/// `i`-th base-256 digit, and bytes read back as the sum of each byte times
/// 256 to the power of its place.
pub proof fn lemma_le_byte_order(a: u16, b: u32, c: u64, s: Seq<u8>)
    ensures
        spec_u16_le(a).len() == 2,
        spec_u16_le(a)[0] == a % 0x100,
        spec_u16_le(a)[1] == a / 0x100,
        spec_u32_le(b).len() == 4,
        spec_u32_le(b)[0] == b % 0x100,
        spec_u32_le(b)[1] == (b / 0x100) % 0x100,
        spec_u32_le(b)[2] == (b / 0x1_0000) % 0x100,
        spec_u32_le(b)[3] == b / 0x100_0000,
        spec_u64_le(c).len() == 8,
        spec_u64_le(c)[0] == c % 0x100,
        spec_u64_le(c)[4] == (c / 0x1_0000_0000) % 0x100,
        spec_u64_le(c)[7] == c / 0x100_0000_0000_0000,
        s.len() == 2 ==> spec_le_u16(s) == s[0] + 0x100 * s[1],
        s.len() == 4 ==> spec_le_u32(s) == s[0] + 0x100 * s[1] + 0x1_0000 * s[2] + 0x100_0000
            * s[3],
        s.len() == 8 ==> spec_le_u64(s) == s[0] + 0x100 * s[1] + 0x1_0000 * s[2] + 0x100_0000
            * s[3] + 0x1_0000_0000 * (s[4] + 0x100 * s[5] + 0x1_0000 * s[6] + 0x100_0000 * s[7]),
{
    let lo = (c % 0x1_0000_0000) as u32;
    let hi = (c / 0x1_0000_0000) as u32;
    assert(spec_u64_le(c)[0] == lo % 0x100);
    vstd::arithmetic::div_mod::lemma_mod_mod(c as int, 0x100, 0x100_0000);
    assert(spec_u64_le(c)[4] == hi % 0x100);
    assert(spec_u64_le(c)[7] == hi / 0x100_0000);
    vstd::arithmetic::div_mod::lemma_div_denominator(c as int, 0x1_0000_0000, 0x100_0000);
    if s.len() == 8 {
        assert(s.subrange(0, 4)[0] == s[0] && s.subrange(0, 4)[1] == s[1] && s.subrange(0, 4)[2]
            == s[2] && s.subrange(0, 4)[3] == s[3]);
        assert(s.subrange(4, 8)[0] == s[4] && s.subrange(4, 8)[1] == s[5] && s.subrange(4, 8)[2]
            == s[6] && s.subrange(4, 8)[3] == s[7]);
    }
}

/// Decoding the little-endian bytes of a value gives the value back, and the
/// bytes of a decoded value are the bytes decoded.
pub proof fn lemma_le_u16_roundtrip(x: u16, s: Seq<u8>)
    ensures
        spec_le_u16(spec_u16_le(x)) == x,
        s.len() == 2 ==> spec_u16_le(spec_le_u16(s)) == s,
{
    if s.len() == 2 {
        let (b0, b1) = (s[0], s[1]);
        assert(((b0 + 256 * b1) as u16) % 256 == b0 && ((b0 + 256 * b1) as u16) / 256 == b1)
            by (nonlinear_arith);
        assert(spec_u16_le(spec_le_u16(s)) =~= s);
    }
}

pub proof fn lemma_le_u32_roundtrip(x: u32, s: Seq<u8>)
    ensures
        spec_le_u32(spec_u32_le(x)) == x,
        s.len() == 4 ==> spec_u32_le(spec_le_u32(s)) == s,
{
    let b0 = (x % 256) as u8;
    let b1 = ((x / 0x100) % 256) as u8;
    let b2 = ((x / 0x1_0000) % 256) as u8;
    let b3 = (x / 0x100_0000) as u8;
    assert(b0 + 0x100 * b1 + 0x1_0000 * b2 + 0x100_0000 * b3 == x) by (bit_vector)
        requires
            b0 == x % 256,
            b1 == (x / 0x100) % 256,
            b2 == (x / 0x1_0000) % 256,
            b3 == x / 0x100_0000,
    ;
    if s.len() == 4 {
        let (c0, c1, c2, c3) = (s[0], s[1], s[2], s[3]);
        let v = spec_le_u32(s);
        assert(v % 256 == c0 && (v / 0x100) % 256 == c1 && (v / 0x1_0000) % 256 == c2 && v
            / 0x100_0000 == c3) by (bit_vector)
            requires
                v == (c0 + 0x100 * c1 + 0x1_0000 * c2 + 0x100_0000 * c3) as u32,
        ;
        assert(spec_u32_le(v) =~= s);
    }
}

pub proof fn lemma_le_u64_roundtrip(x: u64, s: Seq<u8>)
    ensures
        spec_u64_le(x).len() == 8,
        spec_le_u64(spec_u64_le(x)) == x,
        s.len() == 8 ==> spec_u64_le(spec_le_u64(s)) == s,
{
    let lo = (x % 0x1_0000_0000) as u32;
    let hi = (x / 0x1_0000_0000) as u32;
    lemma_le_u32_roundtrip(lo, seq![]);
    lemma_le_u32_roundtrip(hi, seq![]);
    let e = spec_u64_le(x);
    assert(e.subrange(0, 4) =~= spec_u32_le(lo));
    assert(e.subrange(4, 8) =~= spec_u32_le(hi));
    assert(lo + 0x1_0000_0000 * hi == x);
    if s.len() == 8 {
        let l = spec_le_u32(s.subrange(0, 4));
        let h = spec_le_u32(s.subrange(4, 8));
        lemma_le_u32_roundtrip(0, s.subrange(0, 4));
        lemma_le_u32_roundtrip(0, s.subrange(4, 8));
        let v = spec_le_u64(s);
        assert(v == l + 0x1_0000_0000 * h);
        assert((v % 0x1_0000_0000) as u32 == l && (v / 0x1_0000_0000) as u32 == h);
        assert(spec_u64_le(v) =~= s.subrange(0, 4) + s.subrange(4, 8));
        assert(s.subrange(0, 4) + s.subrange(4, 8) =~= s);
    }
}

pub fn u16_to_le(x: u16) -> (b: [u8; 2])
    ensures
        b@ == spec_u16_le(x),
{
    let b0 = (x & 0xff) as u8;
    let b1 = (x >> 8) as u8;
    assert(b0 == x % 256 && b1 == x / 256) by (bit_vector)
        requires
            b0 == (x & 0xff) as u8,
            b1 == (x >> 8) as u8,
    ;
    let b = [b0, b1];
    assert(b@ =~= spec_u16_le(x));
    b
}

pub fn u32_to_le(x: u32) -> (b: [u8; 4])
    ensures
        b@ == spec_u32_le(x),
{
    let b0 = (x & 0xff) as u8;
    let b1 = ((x >> 8) & 0xff) as u8;
    let b2 = ((x >> 16) & 0xff) as u8;
    let b3 = (x >> 24) as u8;
    assert(b0 == x % 256 && b1 == (x / 0x100) % 256 && b2 == (x / 0x1_0000) % 256 && b3 == x
        / 0x100_0000) by (bit_vector)
        requires
            b0 == (x & 0xff) as u8,
            b1 == ((x >> 8) & 0xff) as u8,
            b2 == ((x >> 16) & 0xff) as u8,
            b3 == (x >> 24) as u8,
    ;
    let b = [b0, b1, b2, b3];
    assert(b@ =~= spec_u32_le(x));
    b
}

pub fn le_to_u16(b0: u8, b1: u8) -> (x: u16)
    ensures
        x == spec_le_u16(seq![b0, b1]),
        x == b0 + 256 * b1,
{
    let x = (b0 as u16) | ((b1 as u16) << 8);
    assert(x == b0 + 256 * b1) by (bit_vector)
        requires
            x == (b0 as u16) | ((b1 as u16) << 8),
    ;
    x
}

pub fn le_to_u32(b0: u8, b1: u8, b2: u8, b3: u8) -> (x: u32)
    ensures
        x == spec_le_u32(seq![b0, b1, b2, b3]),
        x == b0 + 0x100 * b1 + 0x1_0000 * b2 + 0x100_0000 * b3,
{
    let x = (b0 as u32) | ((b1 as u32) << 8) | ((b2 as u32) << 16) | ((b3 as u32) << 24);
    assert(x == b0 + 0x100 * b1 + 0x1_0000 * b2 + 0x100_0000 * b3) by (bit_vector)
        requires
            x == (b0 as u32) | ((b1 as u32) << 8) | ((b2 as u32) << 16) | ((b3 as u32) << 24),
    ;
    x
}

pub fn u64_to_le(x: u64) -> (b: ([u8; 4], [u8; 4]))
    ensures
        b.0@ + b.1@ == spec_u64_le(x),
{
    let lo = (x & 0xffff_ffff) as u32;
    let hi = (x >> 32) as u32;
    assert(lo == x % 0x1_0000_0000 && hi == x / 0x1_0000_0000) by (bit_vector)
        requires
            lo == (x & 0xffff_ffff) as u32,
            hi == (x >> 32) as u32,
    ;
    (u32_to_le(lo), u32_to_le(hi))
}

pub fn le_to_u64(lo: u32, hi: u32) -> (x: u64)
    ensures
        x == lo + 0x1_0000_0000 * hi,
{
    let x = (lo as u64) | ((hi as u64) << 32);
    assert(x == lo + 0x1_0000_0000 * hi) by (bit_vector)
        requires
            x == (lo as u64) | ((hi as u64) << 32),
    ;
    x
}

/// Appends the little-endian bytes of `x`.
pub fn push_u16_le(out: &mut Vec<u8>, x: u16)
    ensures
        final(out)@ == old(out)@ + spec_u16_le(x),
{
    let b = u16_to_le(x);
    out.push(b[0]);
    out.push(b[1]);
    assert(final(out)@ =~= old(out)@ + spec_u16_le(x));
}

/// Appends the little-endian bytes of `x`.
pub fn push_u32_le(out: &mut Vec<u8>, x: u32)
    ensures
        final(out)@ == old(out)@ + spec_u32_le(x),
{
    let b = u32_to_le(x);
    out.push(b[0]);
    out.push(b[1]);
    out.push(b[2]);
    out.push(b[3]);
    assert(final(out)@ =~= old(out)@ + spec_u32_le(x));
}

/// Appends the little-endian bytes of `x`.
pub fn push_u64_le(out: &mut Vec<u8>, x: u64)
    ensures
        final(out)@ == old(out)@ + spec_u64_le(x),
{
    let (lo, hi) = u64_to_le(x);
    let ghost before = out@;
    push_bytes(out, &lo);
    push_bytes(out, &hi);
    assert(final(out)@ =~= before + (lo@ + hi@));
}

/// Appends `bytes`.
pub fn push_bytes(out: &mut Vec<u8>, bytes: &[u8])
    ensures
        final(out)@ == old(out)@ + bytes@,
{
    let ghost before = out@;
    let mut i: usize = 0;
    while i < bytes.len()
        invariant
            i <= bytes@.len(),
            out@ == before + bytes@.subrange(0, i as int),
        decreases bytes@.len() - i,
    {
        out.push(bytes[i]);
        i = i + 1;
        assert(out@ =~= before + bytes@.subrange(0, i as int));
    }
    assert(bytes@.subrange(0, i as int) =~= bytes@);
}

/// The bytes of `v` as a fixed-size array.
pub fn to_array<const N: usize>(v: &Vec<u8>) -> (a: [u8; N])
    requires
        v@.len() == N,
    ensures
        a@ == v@,
{
    let mut a: [u8; N] = vstd::array::array_fill_for_copy_types(0u8);
    let mut i: usize = 0;
    while i < N
        invariant
            i <= N,
            v@.len() == N,
            a@.len() == N,
            forall|j: int| 0 <= j < i ==> a@[j] == v@[j],
        decreases N - i,
    {
        a[i] = v[i];
        i = i + 1;
    }
    assert(a@ =~= v@);
    a
}

} // verus!
