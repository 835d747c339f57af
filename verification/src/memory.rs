use vstd::prelude::*;
use vstd::arithmetic::power2::pow2;
use vstd::bits::low_bits_mask;

verus! {

/// The word painted over unused stack so that the high-water mark can be
/// found later.
pub const STACK_PATTERN: u32 = 0xA5A5_A5A5;
/// Bytes left unpainted below the stack pointer while painting.
pub const STACK_PAINT_GUARD_BYTES: usize = 512;

/// No allocator is linked, so no heap is free.
pub fn heap_free_bytes() -> (n: u32)
    ensures
        n == 0,
{
    0
}

/// No allocator is linked, so no heap is in use.
pub fn heap_used_bytes() -> (n: u32)
    ensures
        n == 0,
{
    0
}

/// On a host build there is no stack region to paint.
pub fn init_stack_watermark() {
}

/// On a host build no stack is measured: nothing is reported free.
pub fn stack_free_bytes() -> (n: u32)
    ensures
        n == 0,
{
    0
}

/// On a host build no stack is measured: nothing is reported used.
pub fn stack_used_bytes() -> (n: u32)
    ensures
        n == 0,
{
    0
}

/// A power of two that fits a `usize` is two to some exponent below the
/// word size.
proof fn lemma_power_of_two_exponent(a: usize) -> (n: nat)
    requires
        a > 0,
        a & ((a - 1) as usize) == 0,
    ensures
        n < usize::BITS,
        pow2(n) == a,
    decreases a,
{
    vstd::arithmetic::power2::lemma2_to64();
    if a == 1 {
        0
    } else {
        let h = a / 2;
        assert(a % 2 == 0 && h > 0 && h & ((h - 1) as usize) == 0) by (bit_vector)
            requires
                a > 1,
                a & ((a - 1) as usize) == 0,
                h == a / 2,
        ;
        let m = lemma_power_of_two_exponent(h);
        vstd::arithmetic::power2::lemma_pow2_unfold(m + 1);
        let n = m + 1;
        if n >= usize::BITS {
            if n > usize::BITS {
                vstd::arithmetic::power2::lemma_pow2_strictly_increases(usize::BITS as nat, n);
            }
            assert(usize::BITS == 32 || usize::BITS == 64);
        }
        n
    }
}

/// `value` rounded up to a multiple of `align` (a power of two).
pub fn align_up(value: usize, align: usize) -> (r: usize)
    requires
        align > 0,
        align & ((align - 1) as usize) == 0,
        value + align - 1 <= usize::MAX,
    ensures
        r % align == 0,
        value <= r < value + align,
{
    let mask = align - 1;
    let sum = value + mask;
    let r = sum & !mask;
    assert(r & mask == 0 && r <= sum && sum - mask <= r) by (bit_vector)
        requires
            r == sum & !mask,
    ;
    proof {
        let n = lemma_power_of_two_exponent(align);
        vstd::bits::lemma_usize_low_bits_mask_is_mod(r, n);
        assert(low_bits_mask(n) == mask);
    }
    r
}

/// `value`, or `u32::MAX` when it does not fit.
pub fn saturating_usize_to_u32(value: usize) -> (r: u32)
    ensures
        r == (if value > u32::MAX {
            u32::MAX as int
        } else {
            value as int
        }),
{
    if value > u32::MAX as usize {
        u32::MAX
    } else {
        value as u32
    }
}

/// Where painting stops: the guard below the stack pointer, rounded down to
/// a word.
pub fn stack_paint_end(stack_pointer: usize) -> (r: usize)
    ensures
        r % 4 == 0,
        r <= stack_pointer,
        stack_pointer >= STACK_PAINT_GUARD_BYTES ==> stack_pointer - STACK_PAINT_GUARD_BYTES - 3 <= r,
{
    let guarded = stack_pointer.saturating_sub(STACK_PAINT_GUARD_BYTES);
    let r = guarded & !3usize;
    assert(r % 4 == 0 && r <= guarded && guarded - 3 <= r) by (bit_vector)
        requires
            r == guarded & !3usize,
    ;
    r
}

/// The number of leading words of `words` that still hold the paint pattern.
pub open spec fn spec_painted_words(words: Seq<u32>) -> nat
    decreases words.len(),
{
    if words.len() == 0 || words[0] != STACK_PATTERN {
        0
    } else {
        1 + spec_painted_words(words.subrange(1, words.len() as int))
    }
}

/// The painted words are the longest run of the paint pattern at the
/// bottom of the region: every word in the run holds the pattern, and the
/// word after it, if there is one, does not.
pub proof fn lemma_painted_words_run(words: Seq<u32>)
    ensures
        spec_painted_words(words) <= words.len(),
        forall|j: int| 0 <= j < spec_painted_words(words) ==> words[j] == STACK_PATTERN,
        spec_painted_words(words) < words.len() ==> words[spec_painted_words(words) as int]
            != STACK_PATTERN,
    decreases words.len(),
{
    if words.len() > 0 && words[0] == STACK_PATTERN {
        let rest = words.subrange(1, words.len() as int);
        lemma_painted_words_run(rest);
        assert forall|j: int| 0 <= j < spec_painted_words(words) implies words[j]
            == STACK_PATTERN by {
            if j > 0 {
                assert(words[j] == rest[j - 1]);
            }
        }
        if spec_painted_words(words) < words.len() {
            assert(words[spec_painted_words(words) as int] == rest[spec_painted_words(rest) as int]);
        }
    }
}

/// The bytes of stack never touched since painting: the painted words at the
/// bottom of the region `words`, saturated to `u32`.
pub fn stack_free_bytes_of(words: &[u32]) -> (n: u32)
    requires
        4 * words@.len() <= usize::MAX,
    ensures
        n == (if 4 * spec_painted_words(words@) > u32::MAX {
            u32::MAX as int
        } else {
            4 * spec_painted_words(words@) as int
        }),
{
    let mut i: usize = 0;
    assert(words@.subrange(0, words@.len() as int) =~= words@);
    while i < words.len() && words[i] == STACK_PATTERN
        invariant
            i <= words@.len(),
            4 * words@.len() <= usize::MAX,
            forall|j: int| 0 <= j < i ==> words@[j] == STACK_PATTERN,
            spec_painted_words(words@) == i + spec_painted_words(
                words@.subrange(i as int, words@.len() as int),
            ),
        decreases words@.len() - i,
    {
        assert(words@.subrange(i as int, words@.len() as int).subrange(
            1,
            words@.len() - i,
        ) =~= words@.subrange(i + 1, words@.len() as int));
        i = i + 1;
    }
    saturating_usize_to_u32(i * 4)
}

/// The stack in use: the size of the region `[start, end)`, saturated to
/// `u32`, less the bytes still free.
pub fn stack_used_bytes_of(start: usize, end: usize, free: u32) -> (n: u32)
    ensures
        ({
            let size: int = if end < start {
                0
            } else {
                end - start
            };
            let size32: int = if size > u32::MAX {
                u32::MAX as int
            } else {
                size
            };
            n == (if size32 < free {
                0
            } else {
                size32 - free
            })
        }),
{
    saturating_usize_to_u32(end.saturating_sub(start)).saturating_sub(free)
}

} // verus!
