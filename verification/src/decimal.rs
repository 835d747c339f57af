use vstd::prelude::*;

verus! {

/// The decimal digits of `n`, most significant first, with no leading zero.
pub open spec fn spec_decimal(n: nat) -> Seq<u8>
    decreases n,
{
    if n < 10 {
        seq![(48 + n) as u8]
    } else {
        spec_decimal(n / 10).push((48 + n % 10) as u8)
    }
}

/// `"true"` or `"false"`.
pub open spec fn spec_bool_text(value: bool) -> Seq<u8> {
    if value {
        seq![116u8, 114u8, 117u8, 101u8]
    } else {
        seq![102u8, 97u8, 108u8, 115u8, 101u8]
    }
}

/// A decimal rendering is at least one digit long, and every
/// byte of it is an ASCII digit.
pub proof fn lemma_decimal_shape(n: nat)
    ensures
        1 <= spec_decimal(n).len(),
        forall|i: int| 0 <= i < spec_decimal(n).len() ==> 48 <= #[trigger] spec_decimal(n)[i] <= 57,
    decreases n,
{
    if n >= 10 {
        lemma_decimal_shape(n / 10);
    }
}

/// The decimal digits of `value`.
pub fn decimal_u64(value: u64) -> (d: Vec<u8>)
    ensures
        d@ == spec_decimal(value as nat),
{
    let mut digits: Vec<u8> = Vec::new();
    digits.push(48 + (value % 10) as u8);
    let mut v = value / 10;
    assert(digits@ =~= seq![(48 + value % 10) as u8]);
    while v > 0
        invariant
            v > 0 ==> spec_decimal(value as nat) == spec_decimal(v as nat) + digits@,
            v == 0 ==> spec_decimal(value as nat) == digits@,
        decreases v,
    {
        let d = (v % 10) as u8;
        let ghost before = digits@;
        let ghost old_v = v;
        digits.insert(0, 48 + d);
        v = v / 10;
        proof {
            if old_v >= 10 {
                assert(spec_decimal(old_v as nat) == spec_decimal(v as nat).push((48 + d) as u8));
                assert(spec_decimal(v as nat) + digits@ =~= spec_decimal(v as nat).push(
                    (48 + d) as u8,
                ) + before);
            } else {
                assert(digits@ =~= seq![(48 + d) as u8] + before);
            }
        }
    }
    digits
}

/// Appends the decimal digits of `value`.
pub fn push_decimal_u64(out: &mut Vec<u8>, value: u64)
    ensures
        final(out)@ == old(out)@ + spec_decimal(value as nat),
{
    let d = decimal_u64(value);
    crate::le_bytes::push_bytes(out, d.as_slice());
}

/// Appends `"true"` or `"false"`.
pub fn push_bool(out: &mut Vec<u8>, value: bool)
    ensures
        final(out)@ == old(out)@ + spec_bool_text(value),
{
    let ghost before = out@;
    if value {
        out.push(116);
        out.push(114);
        out.push(117);
        out.push(101);
    } else {
        out.push(102);
        out.push(97);
        out.push(108);
        out.push(115);
        out.push(101);
    }
    assert(out@ =~= before + spec_bool_text(value));
}

} // verus!
