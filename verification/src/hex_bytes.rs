use vstd::prelude::*;
use vstd::string::StringSliceAdditionalSpecFns;
use vstd::utf8::{encode_utf8, is_char_boundary, is_continuation_byte, valid_utf8};

use crate::bench_debug::{
    digit_value, lemma_texts_ascii, message, spec_digit_value, HEX_TOKEN, INVALID_HEX_BYTE,
    ODD_DIGITS,
};
use crate::le_bytes::push_bytes;
use crate::text::{spec_is_ascii_bytes, utf8_string};

verus! {

/// The bytes that split hex input into tokens: ASCII whitespace, `,`, `:`
/// and `=`.
pub open spec fn spec_is_hex_separator(b: u8) -> bool {
    b == 32 || b == 9 || b == 10 || b == 12 || b == 13 || b == 44 || b == 58 || b == 61
}

/// The length of the UTF-8 encoding of a whitespace character (Unicode
/// `White_Space`) at the front of `t`; 0 when there is none.
pub open spec fn spec_space_prefix_len(t: Seq<u8>) -> nat {
    if t.len() >= 1 && (9 <= t[0] <= 13 || t[0] == 32) {
        1
    } else if t.len() >= 2 && t[0] == 0xC2 && (t[1] == 0x85 || t[1] == 0xA0) {
        2
    } else if t.len() >= 3 && spec_is_wide_space(t[0], t[1], t[2]) {
        3
    } else {
        0
    }
}

/// The three-byte encodings of whitespace: U+1680, U+2000 to U+200A,
/// U+2028, U+2029, U+202F, U+205F and U+3000.
pub open spec fn spec_is_wide_space(a: u8, b: u8, c: u8) -> bool {
    ||| (a == 0xE1 && b == 0x9A && c == 0x80)
    ||| (a == 0xE2 && b == 0x80 && ((0x80 <= c <= 0x8A) || c == 0xA8 || c == 0xA9 || c == 0xAF))
    ||| (a == 0xE2 && b == 0x81 && c == 0x9F)
    ||| (a == 0xE3 && b == 0x80 && c == 0x80)
}

/// The length of the encoding of a whitespace character at the end of `t`;
/// 0 when there is none.
pub open spec fn spec_space_suffix_len(t: Seq<u8>) -> nat {
    let n = t.len() as int;
    if n >= 1 && (9 <= t[n - 1] <= 13 || t[n - 1] == 32) {
        1
    } else if n >= 2 && t[n - 2] == 0xC2 && (t[n - 1] == 0x85 || t[n - 1] == 0xA0) {
        2
    } else if n >= 3 && spec_is_wide_space(t[n - 3], t[n - 2], t[n - 1]) {
        3
    } else {
        0
    }
}

/// `t` without leading and trailing whitespace.
pub open spec fn spec_trim_space(t: Seq<u8>) -> Seq<u8>
    decreases t.len(),
{
    let p = spec_space_prefix_len(t) as int;
    let s = spec_space_suffix_len(t) as int;
    if p > 0 {
        spec_trim_space(t.subrange(p, t.len() as int))
    } else if s > 0 {
        spec_trim_space(t.subrange(0, t.len() - s))
    } else {
        t
    }
}

/// `t` without a leading `0x` or `0X`.
pub open spec fn spec_strip_hex_prefix(t: Seq<u8>) -> Seq<u8> {
    if t.len() >= 2 && t[0] == 48 && (t[1] == 120 || t[1] == 88) {
        t.subrange(2, t.len() as int)
    } else {
        t
    }
}

/// The value of a two-byte chunk as `u8::from_str_radix(.., 16)` reads it:
/// two hex digits, or a `+` and one.
pub open spec fn spec_chunk_value(a: u8, b: u8) -> Option<u8> {
    match (spec_digit_value(a, 16), spec_digit_value(b, 16)) {
        (Some(x), Some(y)) => Some((x * 16 + y) as u8),
        (None, Some(y)) => if a == 43 {
            Some(y as u8)
        } else {
            None
        },
        _ => None,
    }
}

/// The hex digit of `x` (below 16), in upper or lower case.
pub open spec fn spec_hex_char(x: u8, upper: bool) -> u8 {
    if x < 10 {
        (48 + x) as u8
    } else if upper {
        (55 + x) as u8
    } else {
        (87 + x) as u8
    }
}

/// Two hex digits, in either case, read as the byte whose high and low
/// halves they spell; a pair whose second byte is not a hex digit is not a
/// byte.
pub proof fn lemma_hex_chunk_reads_byte(
    high: u8,
    low: u8,
    upper_high: bool,
    upper_low: bool,
    a: u8,
    b: u8,
)
    requires
        high < 16,
        low < 16,
    ensures
        spec_chunk_value(spec_hex_char(high, upper_high), spec_hex_char(low, upper_low)) == Some(
            (high * 16 + low) as u8,
        ),
        !(48 <= b <= 57 || 65 <= b <= 70 || 97 <= b <= 102) ==> spec_chunk_value(a, b) is None,
{
}

/// What reading hex input comes to: its bytes, a token with an odd number
/// of digits, or a token whose chunk at the index given is not a hex byte.
pub enum HexScan {
    Bytes(Seq<u8>),
    OddToken(Seq<u8>),
    BadChunk(Seq<u8>, int),
}

/// The bytes of the chunks of `d` from `i` on.
pub open spec fn spec_chunks(d: Seq<u8>, i: int) -> HexScan
    decreases d.len() - i,
{
    if i < 0 || i + 2 > d.len() {
        HexScan::Bytes(Seq::empty())
    } else {
        match spec_chunk_value(d[i], d[i + 1]) {
            None => HexScan::BadChunk(d, i),
            Some(v) => match spec_chunks(d, i + 2) {
                HexScan::Bytes(rest) => HexScan::Bytes(seq![v] + rest),
                other => other,
            },
        }
    }
}

/// One token: trimmed of whitespace; nothing when that leaves it empty;
/// then without a `0x` prefix, an even number of digits read two at a time.
pub open spec fn spec_token(t: Seq<u8>) -> HexScan {
    let u = spec_trim_space(t);
    let d = spec_strip_hex_prefix(u);
    if u.len() == 0 {
        HexScan::Bytes(Seq::empty())
    } else if d.len() % 2 == 1 {
        HexScan::OddToken(d)
    } else {
        spec_chunks(d, 0)
    }
}

/// `bytes` written as hex digit pairs, high half first, in upper or lower
/// case.
pub open spec fn spec_hex_pairs(bytes: Seq<u8>, upper: bool) -> Seq<u8>
    decreases bytes.len(),
{
    if bytes.len() == 0 {
        Seq::empty()
    } else {
        seq![spec_hex_char(bytes[0] / 16, upper), spec_hex_char(bytes[0] % 16, upper)]
            + spec_hex_pairs(bytes.drop_first(), upper)
    }
}

proof fn lemma_hex_pairs_shape(bytes: Seq<u8>, upper: bool)
    ensures
        spec_hex_pairs(bytes, upper).len() == 2 * bytes.len(),
        forall|i: int|
            0 <= i < bytes.len() ==> spec_hex_pairs(bytes, upper)[2 * i] == spec_hex_char(
                #[trigger] bytes[i] / 16,
                upper,
            ) && spec_hex_pairs(bytes, upper)[2 * i + 1] == spec_hex_char(bytes[i] % 16, upper),
    decreases bytes.len(),
{
    if bytes.len() > 0 {
        let rest = bytes.drop_first();
        lemma_hex_pairs_shape(rest, upper);
        assert forall|i: int| 0 <= i < bytes.len() implies spec_hex_pairs(bytes, upper)[2 * i]
            == spec_hex_char(#[trigger] bytes[i] / 16, upper) && spec_hex_pairs(bytes, upper)[2 * i
            + 1] == spec_hex_char(bytes[i] % 16, upper) by {
            if i > 0 {
                assert(bytes[i] == rest[i - 1]);
            }
        }
    }
}

proof fn lemma_hex_chunks_from(bytes: Seq<u8>, upper: bool, i: int)
    requires
        0 <= i <= bytes.len(),
    ensures
        spec_chunks(spec_hex_pairs(bytes, upper), 2 * i) == HexScan::Bytes(
            bytes.subrange(i, bytes.len() as int),
        ),
    decreases bytes.len() - i,
{
    let d = spec_hex_pairs(bytes, upper);
    lemma_hex_pairs_shape(bytes, upper);
    if i < bytes.len() {
        lemma_hex_chunks_from(bytes, upper, i + 1);
        let b = bytes[i];
        lemma_hex_chunk_reads_byte(b / 16, b % 16, upper, upper, 0, 48);
        assert(d[2 * i] == spec_hex_char(b / 16, upper));
        assert(d[2 * i + 1] == spec_hex_char(b % 16, upper));
        assert(((b / 16) * 16 + b % 16) as u8 == b);
        assert(2 * i + 2 == 2 * (i + 1));
        assert(seq![b] + bytes.subrange(i + 1, bytes.len() as int) =~= bytes.subrange(
            i,
            bytes.len() as int,
        ));
    } else {
        assert(bytes.subrange(i, bytes.len() as int) =~= Seq::<u8>::empty());
    }
}

/// A token of hex digit pairs, in either case, reads as the bytes the pairs
/// spell, in order.
pub proof fn lemma_hex_token_reads_bytes(bytes: Seq<u8>, upper: bool)
    ensures
        spec_token(spec_hex_pairs(bytes, upper)) == HexScan::Bytes(bytes),
{
    let d = spec_hex_pairs(bytes, upper);
    lemma_hex_pairs_shape(bytes, upper);
    lemma_hex_chunks_from(bytes, upper, 0);
    assert(bytes.subrange(0, bytes.len() as int) =~= bytes);
    if bytes.len() == 0 {
        assert(d =~= Seq::<u8>::empty());
        assert(spec_trim_space(d) =~= Seq::<u8>::empty());
    } else {
        let n = d.len() as int;
        assert(d[0] == spec_hex_char(bytes[0] / 16, upper));
        assert(d[1] == spec_hex_char(bytes[0] % 16, upper));
        assert(d[n - 1] == d[2 * (bytes.len() - 1) + 1]);
        assert(d[n - 1] == spec_hex_char(bytes[bytes.len() - 1] % 16, upper));
        assert(spec_space_prefix_len(d) == 0);
        assert(spec_space_suffix_len(d) == 0);
        assert(spec_trim_space(d) == d);
        assert(spec_strip_hex_prefix(d) == d);
    }
}

/// The length of the token at the front of `b`: up to the first separator.
pub open spec fn spec_token_end(b: Seq<u8>) -> nat
    decreases b.len(),
{
    if b.len() == 0 || spec_is_hex_separator(b[0]) {
        0
    } else {
        1 + spec_token_end(b.drop_first())
    }
}

/// Hex input read token by token; the first token that fails decides.
#[verifier::opaque]
pub open spec fn spec_hex_scan(b: Seq<u8>) -> HexScan
    decreases b.len(),
{
    if b.len() == 0 {
        HexScan::Bytes(Seq::empty())
    } else if spec_is_hex_separator(b[0]) {
        spec_hex_scan(b.drop_first())
    } else {
        let k = spec_token_end(b) as int;
        if 0 < k <= b.len() {
            match spec_token(b.subrange(0, k)) {
                HexScan::Bytes(x) => match spec_hex_scan(b.subrange(k, b.len() as int)) {
                    HexScan::Bytes(y) => HexScan::Bytes(x + y),
                    other => other,
                },
                other => other,
            }
        } else {
            HexScan::Bytes(Seq::empty())
        }
    }
}

/// Reading the input would slice a character in two: the bad chunk ends
/// inside a multi-byte character.
pub open spec fn spec_hex_scan_splits_char(b: Seq<u8>) -> bool {
    match spec_hex_scan(b) {
        HexScan::BadChunk(d, i) => i + 2 < d.len() && is_continuation_byte(d[i + 2]),
        _ => false,
    }
}

/// Around an ASCII byte, valid UTF-8 splits into valid UTF-8.
proof fn lemma_split_at_ascii(b: Seq<u8>, k: int)
    requires
        valid_utf8(b),
        0 <= k < b.len(),
        b[k] < 0x80,
    ensures
        valid_utf8(b.subrange(0, k)),
        valid_utf8(b.subrange(k + 1, b.len() as int)),
{
    vstd::utf8::is_char_boundary_iff_not_is_continuation_byte(b, k);
    vstd::utf8::valid_utf8_split(b, k);
    let t = b.subrange(k, b.len() as int);
    assert(t.len() > 0);
    assert(vstd::utf8::length_of_first_scalar(t) == 1);
    assert(vstd::utf8::pop_first_scalar(t) =~= b.subrange(k + 1, b.len() as int));
}

/// Valid UTF-8 cut before an ASCII byte (or at its end) gives valid UTF-8
/// on both sides.
proof fn lemma_split_before_ascii(b: Seq<u8>, k: int)
    requires
        valid_utf8(b),
        0 <= k <= b.len(),
        k == b.len() || b[k] < 0x80,
    ensures
        valid_utf8(b.subrange(0, k)),
        valid_utf8(b.subrange(k, b.len() as int)),
{
    if k == b.len() {
        assert(b.subrange(0, k) =~= b);
        assert(b.subrange(k, b.len() as int) =~= Seq::<u8>::empty());
    } else {
        vstd::utf8::is_char_boundary_iff_not_is_continuation_byte(b, k);
        vstd::utf8::valid_utf8_split(b, k);
    }
}

/// Trimming whitespace keeps valid UTF-8 valid.
proof fn lemma_trim_valid(t: Seq<u8>)
    requires
        valid_utf8(t),
    ensures
        valid_utf8(spec_trim_space(t)),
    decreases t.len(),
{
    let p = spec_space_prefix_len(t) as int;
    let s = spec_space_suffix_len(t) as int;
    if p > 0 {
        assert(vstd::utf8::length_of_first_scalar(t) == p);
        assert(vstd::utf8::pop_first_scalar(t) =~= t.subrange(p, t.len() as int));
        lemma_trim_valid(t.subrange(p, t.len() as int));
    } else if s > 0 {
        let n = t.len() - s;
        vstd::utf8::is_char_boundary_iff_not_is_continuation_byte(t, n);
        vstd::utf8::valid_utf8_split(t, n);
        lemma_trim_valid(t.subrange(0, n));
    }
}

/// Dropping a `0x` prefix keeps valid UTF-8 valid.
proof fn lemma_strip_valid(u: Seq<u8>)
    requires
        valid_utf8(u),
    ensures
        valid_utf8(spec_strip_hex_prefix(u)),
{
    if u.len() >= 2 && u[0] == 48 && (u[1] == 120 || u[1] == 88) {
        lemma_split_at_ascii(u, 0);
        let v = u.subrange(1, u.len() as int);
        lemma_split_at_ascii(v, 0);
        assert(v.subrange(1, v.len() as int) =~= u.subrange(2, u.len() as int));
    }
}

/// A chunk that starts after ASCII bytes and does not end inside a
/// character is valid UTF-8.
proof fn lemma_chunk_valid(d: Seq<u8>, i: int)
    requires
        valid_utf8(d),
        0 <= i,
        i + 2 <= d.len(),
        forall|j: int| 0 <= j < i ==> d[j] < 0x80,
        !(i + 2 < d.len() && is_continuation_byte(d[i + 2])),
    ensures
        valid_utf8(d.subrange(i, i + 2)),
{
    let e = d.subrange(i, d.len() as int);
    if i > 0 {
        lemma_split_at_ascii(d, i - 1);
    } else {
        assert(e =~= d);
    }
    if i + 2 == d.len() {
        assert(e =~= d.subrange(i, i + 2));
    } else {
        vstd::utf8::is_char_boundary_iff_not_is_continuation_byte(e, 2);
        vstd::utf8::valid_utf8_split(e, 2);
        assert(e.subrange(0, 2) =~= d.subrange(i, i + 2));
    }
}

/// `x` in front of the bytes of `s`; a failure passes through.
pub open spec fn spec_prepend(x: Seq<u8>, s: HexScan) -> HexScan {
    match s {
        HexScan::Bytes(y) => HexScan::Bytes(x + y),
        other => other,
    }
}

/// The scan does not end in a chunk cut inside a character.
pub open spec fn spec_no_split(s: HexScan) -> bool {
    match s {
        HexScan::BadChunk(d, i) => !(i + 2 < d.len() && is_continuation_byte(d[i + 2])),
        _ => true,
    }
}

/// `r` is what the scan `s` gives: its bytes appended to `before`, or the
/// message for its failure.
pub open spec fn spec_scan_result(s: HexScan, before: Seq<u8>, after: Seq<u8>, r: Result<(), String>) -> bool {
    match s {
        HexScan::Bytes(x) => r is Ok && after == before + x,
        HexScan::OddToken(d) => r matches Err(e) && encode_utf8(e@) == HEX_TOKEN@ + d + ODD_DIGITS@,
        HexScan::BadChunk(d, i) => r matches Err(e) && encode_utf8(e@) == INVALID_HEX_BYTE@
            + d.subrange(i, i + 2) + seq![96u8],
    }
}

fn is_wide_space(a: u8, b: u8, c: u8) -> (r: bool)
    ensures
        r == spec_is_wide_space(a, b, c),
{
    (a == 0xE1 && b == 0x9A && c == 0x80) || (a == 0xE2 && b == 0x80 && ((0x80 <= c && c <= 0x8A)
        || c == 0xA8 || c == 0xA9 || c == 0xAF)) || (a == 0xE2 && b == 0x81 && c == 0x9F) || (a
        == 0xE3 && b == 0x80 && c == 0x80)
}

fn space_prefix_len(t: &[u8]) -> (p: usize)
    ensures
        p == spec_space_prefix_len(t@),
{
    let n = t.len();
    if n >= 1 && ((9 <= t[0] && t[0] <= 13) || t[0] == 32) {
        1
    } else if n >= 2 && t[0] == 0xC2 && (t[1] == 0x85 || t[1] == 0xA0) {
        2
    } else if n >= 3 && is_wide_space(t[0], t[1], t[2]) {
        3
    } else {
        0
    }
}

fn space_suffix_len(t: &[u8]) -> (p: usize)
    ensures
        p == spec_space_suffix_len(t@),
{
    let n = t.len();
    if n >= 1 && ((9 <= t[n - 1] && t[n - 1] <= 13) || t[n - 1] == 32) {
        1
    } else if n >= 2 && t[n - 2] == 0xC2 && (t[n - 1] == 0x85 || t[n - 1] == 0xA0) {
        2
    } else if n >= 3 && is_wide_space(t[n - 3], t[n - 2], t[n - 1]) {
        3
    } else {
        0
    }
}

/// The bounds of `t` once trimmed of whitespace.
fn trim_space_range(t: &[u8]) -> (r: (usize, usize))
    ensures
        r.0 <= r.1 <= t@.len(),
        t@.subrange(r.0 as int, r.1 as int) == spec_trim_space(t@),
{
    let mut a: usize = 0;
    let mut e: usize = t.len();
    assert(t@.subrange(0, t@.len() as int) =~= t@);
    loop
        invariant
            a <= e <= t@.len(),
            spec_trim_space(t@) == spec_trim_space(t@.subrange(a as int, e as int)),
        decreases e - a,
    {
        let cur = &t[a..e];
        assert(cur@ =~= t@.subrange(a as int, e as int));
        let p = space_prefix_len(cur);
        if p > 0 {
            assert(cur@.subrange(p as int, cur@.len() as int) =~= t@.subrange(a + p, e as int));
            a = a + p;
        } else {
            let s = space_suffix_len(cur);
            if s > 0 {
                assert(cur@.subrange(0, cur@.len() - s) =~= t@.subrange(a as int, e - s));
                e = e - s;
            } else {
                return (a, e);
            }
        }
    }
}

fn chunk_value(a: u8, b: u8) -> (r: Option<u8>)
    ensures
        r == spec_chunk_value(a, b),
{
    match (digit_value(a, 16), digit_value(b, 16)) {
        (Some(x), Some(y)) => Some((x * 16 + y) as u8),
        (None, Some(y)) => if a == 43 {
            Some(y as u8)
        } else {
            None
        },
        _ => None,
    }
}

/// Appends the bytes of the chunks of `d`, or gives the message for its
/// first bad chunk.
fn chunks_into(d: &[u8], out: &mut Vec<u8>) -> (r: Result<(), String>)
    requires
        valid_utf8(d@),
        d@.len() % 2 == 0,
        spec_no_split(spec_chunks(d@, 0)),
    ensures
        spec_scan_result(spec_chunks(d@, 0), old(out)@, final(out)@, r),
{
    let ghost start = out@;
    let n = d.len();
    let mut i: usize = 0;
    while i < n
        invariant
            n == d@.len(),
            n % 2 == 0,
            i <= n,
            i % 2 == 0,
            valid_utf8(d@),
            start == old(out)@,
            forall|j: int| 0 <= j < i ==> d@[j] < 0x80,
            spec_chunks(d@, 0) == spec_prepend(out@.subrange(start.len() as int, out@.len() as int), spec_chunks(d@, i as int)),
            out@.subrange(0, start.len() as int) == start,
            out@.len() >= start.len(),
            spec_no_split(spec_chunks(d@, 0)),
        decreases n - i,
    {
        match chunk_value(d[i], d[i + 1]) {
            None => {
                proof {
                    lemma_chunk_valid(d@, i as int);
                    lemma_texts_ascii();
                    assert(spec_is_ascii_bytes(seq![96u8]));
                }
                let tick: [u8; 1] = [96];
                assert(tick@ =~= seq![96u8]);
                let chunk = &d[i..i + 2];
                assert(chunk@ =~= d@.subrange(i as int, i + 2));
                return Err(message(&INVALID_HEX_BYTE, chunk, &tick));
            },
            Some(v) => {
                let ghost before = out@;
                out.push(v);
                proof {
                    assert(d@[i as int] < 0x80 && d@[i + 1] < 0x80);
                    let pushed = before.subrange(start.len() as int, before.len() as int);
                    assert(out@.subrange(start.len() as int, out@.len() as int) =~= pushed.push(v));
                    assert(out@.subrange(0, start.len() as int) =~= before.subrange(0, start.len() as int));
                    match spec_chunks(d@, i + 2) {
                        HexScan::Bytes(rest) => {
                            assert(pushed + (seq![v] + rest) =~= pushed.push(v) + rest);
                        },
                        _ => {},
                    }
                }
                i = i + 2;
            },
        }
    }
    proof {
        assert(out@ =~= start + out@.subrange(start.len() as int, out@.len() as int));
        assert(out@.subrange(start.len() as int, out@.len() as int) + Seq::<u8>::empty() =~= out@.subrange(start.len() as int, out@.len() as int));
    }
    Ok(())
}

/// Appends the bytes of one token, or gives the message for its failure.
fn token_into(t: &[u8], out: &mut Vec<u8>) -> (r: Result<(), String>)
    requires
        valid_utf8(t@),
        spec_no_split(spec_token(t@)),
    ensures
        spec_scan_result(spec_token(t@), old(out)@, final(out)@, r),
{
    let (a, e) = trim_space_range(t);
    let u = &t[a..e];
    assert(u@ =~= spec_trim_space(t@));
    proof {
        lemma_trim_valid(t@);
    }
    if u.len() == 0 {
        assert(out@ =~= out@ + Seq::<u8>::empty());
        return Ok(());
    }
    let start: usize = if u.len() >= 2 && u[0] == 48 && (u[1] == 120 || u[1] == 88) {
        2
    } else {
        0
    };
    let d = &u[start..u.len()];
    assert(d@ =~= spec_strip_hex_prefix(u@));
    proof {
        lemma_strip_valid(u@);
    }
    if d.len() % 2 == 1 {
        proof {
            lemma_texts_ascii();
        }
        return Err(message(&HEX_TOKEN, d, &ODD_DIGITS));
    }
    chunks_into(d, out)
}

/// Reads hex bytes from text: tokens are separated by ASCII whitespace,
/// `,`, `:` or `=`, trimmed of whitespace, and may start with `0x`; each
/// holds an even number of hex digits. A token with an odd number of
/// digits, or a pair that is not a hex byte, is refused with a message
/// quoting it.
pub fn parse_hex_bytes(input: &str) -> (r: Result<Vec<u8>, String>)
    requires
        !spec_hex_scan_splits_char(input.spec_bytes()),
    ensures
        match spec_hex_scan(input.spec_bytes()) {
            HexScan::Bytes(x) => r matches Ok(v) && v@ == x,
            HexScan::OddToken(d) => r matches Err(e) && encode_utf8(e@) == HEX_TOKEN@ + d
                + ODD_DIGITS@,
            HexScan::BadChunk(d, i) => r matches Err(e) && encode_utf8(e@) == INVALID_HEX_BYTE@
                + d.subrange(i, i + 2) + seq![96u8],
        },
{
    let b = input.as_bytes();
    proof {
        vstd::utf8::encode_utf8_valid_utf8(input@);
    }
    let ghost all = spec_hex_scan(b@);
    let mut out: Vec<u8> = Vec::new();
    let mut pos: usize = 0;
    assert(b@.subrange(0, b@.len() as int) =~= b@);
    assert(out@ + Seq::<u8>::empty() =~= Seq::<u8>::empty());
    while pos < b.len()
        invariant
            pos <= b@.len(),
            b@ == input.spec_bytes(),
            valid_utf8(b@.subrange(pos as int, b@.len() as int)),
            all == spec_hex_scan(b@),
            all == spec_prepend(out@, spec_hex_scan(b@.subrange(pos as int, b@.len() as int))),
            spec_no_split(all),
        decreases b@.len() - pos,
    {
        let ghost rest = b@.subrange(pos as int, b@.len() as int);
        proof {
            reveal(spec_hex_scan);
        }
        if b[pos] == 32 || b[pos] == 9 || b[pos] == 10 || b[pos] == 12 || b[pos] == 13 || b[pos]
            == 44 || b[pos] == 58 || b[pos] == 61 {
            proof {
                assert(rest.drop_first() =~= b@.subrange(pos + 1, b@.len() as int));
                lemma_split_at_ascii(rest, 0);
            }
            pos = pos + 1;
        } else {
            let mut k: usize = pos;
            while k < b.len() && !(b[k] == 32 || b[k] == 9 || b[k] == 10 || b[k] == 12 || b[k] == 13
                || b[k] == 44 || b[k] == 58 || b[k] == 61)
                invariant
                    pos <= k <= b@.len(),
                    forall|j: int| pos <= j < k ==> !spec_is_hex_separator(b@[j]),
                decreases b@.len() - k,
            {
                k = k + 1;
            }
            proof {
                lemma_token_end(rest, k - pos);
                lemma_split_before_ascii(rest, k - pos);
                assert(rest.subrange(0, k - pos) =~= b@.subrange(pos as int, k as int));
                assert(rest.subrange(k - pos, rest.len() as int) =~= b@.subrange(
                    k as int,
                    b@.len() as int,
                ));
            }
            let token = &b[pos..k];
            let ghost before = out@;
            let ghost tail = spec_hex_scan(b@.subrange(k as int, b@.len() as int));
            proof {
                assert(token@ =~= b@.subrange(pos as int, k as int));
                match spec_token(token@) {
                    HexScan::Bytes(x) => {
                        match tail {
                            HexScan::Bytes(y) => {
                                assert(before + (x + y) =~= (before + x) + y);
                            },
                            _ => {},
                        }
                    },
                    _ => {},
                }
            }
            match token_into(token, &mut out) {
                Ok(()) => {},
                Err(e) => {
                    return Err(e);
                },
            }
            pos = k;
        }
    }
    proof {
        reveal(spec_hex_scan);
        assert(b@.subrange(pos as int, b@.len() as int) =~= Seq::<u8>::empty());
        assert(out@ + Seq::<u8>::empty() =~= out@);
    }
    Ok(out)
}

proof fn lemma_token_end(b: Seq<u8>, k: int)
    requires
        0 <= k <= b.len(),
        forall|j: int| 0 <= j < k ==> !spec_is_hex_separator(b[j]),
        k == b.len() || spec_is_hex_separator(b[k]),
    ensures
        spec_token_end(b) == k,
        k == b.len() || b[k] < 0x80,
    decreases k,
{
    if k > 0 {
        lemma_token_end(b.drop_first(), k - 1);
    }
}

/// Whether the chunks of `d` fail, and whether they fail on a chunk cut
/// inside a character.
fn chunks_check(d: &[u8]) -> (r: (bool, bool))
    ensures
        r.0 == !(spec_chunks(d@, 0) is Bytes),
        r.1 == !spec_no_split(spec_chunks(d@, 0)),
{
    let n = d.len();
    let mut i: usize = 0;
    while n - i >= 2
        invariant
            n == d@.len(),
            i <= n,
            spec_no_split(spec_chunks(d@, 0)) == spec_no_split(spec_chunks(d@, i as int)),
            (spec_chunks(d@, 0) is Bytes) == (spec_chunks(d@, i as int) is Bytes),
        decreases n - i,
    {
        match chunk_value(d[i], d[i + 1]) {
            None => {
                return (true, i + 2 < n && 0x80 <= d[i + 2] && d[i + 2] <= 0xBF);
            },
            Some(_) => {
                i = i + 2;
            },
        }
    }
    (false, false)
}

/// Whether one token fails, and whether it fails on a chunk cut inside a
/// character.
fn token_check(t: &[u8]) -> (r: (bool, bool))
    ensures
        r.0 == !(spec_token(t@) is Bytes),
        r.1 == !spec_no_split(spec_token(t@)),
{
    let (a, e) = trim_space_range(t);
    let u = &t[a..e];
    assert(u@ =~= spec_trim_space(t@));
    if u.len() == 0 {
        return (false, false);
    }
    let start: usize = if u.len() >= 2 && u[0] == 48 && (u[1] == 120 || u[1] == 88) {
        2
    } else {
        0
    };
    let d = &u[start..u.len()];
    assert(d@ =~= spec_strip_hex_prefix(u@));
    if d.len() % 2 == 1 {
        return (true, false);
    }
    chunks_check(d)
}

/// Whether reading `input` as hex would slice a character in two: the
/// input that `parse_hex_bytes` does not take.
pub fn hex_input_splits_char(input: &str) -> (r: bool)
    ensures
        r == spec_hex_scan_splits_char(input.spec_bytes()),
{
    let b = input.as_bytes();
    let ghost all = spec_hex_scan(b@);
    let ghost mut acc: Seq<u8> = Seq::empty();
    let mut pos: usize = 0;
    assert(b@.subrange(0, b@.len() as int) =~= b@);
    assert(acc + Seq::<u8>::empty() =~= Seq::<u8>::empty());
    while pos < b.len()
        invariant
            pos <= b@.len(),
            b@ == input.spec_bytes(),
            all == spec_hex_scan(b@),
            all == spec_prepend(acc, spec_hex_scan(b@.subrange(pos as int, b@.len() as int))),
        decreases b@.len() - pos,
    {
        let ghost rest = b@.subrange(pos as int, b@.len() as int);
        proof {
            reveal(spec_hex_scan);
        }
        if b[pos] == 32 || b[pos] == 9 || b[pos] == 10 || b[pos] == 12 || b[pos] == 13 || b[pos]
            == 44 || b[pos] == 58 || b[pos] == 61 {
            assert(rest.drop_first() =~= b@.subrange(pos + 1, b@.len() as int));
            pos = pos + 1;
        } else {
            let mut k: usize = pos;
            while k < b.len() && !(b[k] == 32 || b[k] == 9 || b[k] == 10 || b[k] == 12 || b[k] == 13
                || b[k] == 44 || b[k] == 58 || b[k] == 61)
                invariant
                    pos <= k <= b@.len(),
                    forall|j: int| pos <= j < k ==> !spec_is_hex_separator(b@[j]),
                decreases b@.len() - k,
            {
                k = k + 1;
            }
            proof {
                lemma_token_end(rest, k - pos);
                assert(rest.subrange(0, k - pos) =~= b@.subrange(pos as int, k as int));
                assert(rest.subrange(k - pos, rest.len() as int) =~= b@.subrange(
                    k as int,
                    b@.len() as int,
                ));
            }
            let token = &b[pos..k];
            assert(token@ =~= b@.subrange(pos as int, k as int));
            let (fails, splits) = token_check(token);
            if fails {
                return splits;
            }
            proof {
                let tail = spec_hex_scan(b@.subrange(k as int, b@.len() as int));
                match spec_token(token@) {
                    HexScan::Bytes(x) => {
                        match tail {
                            HexScan::Bytes(y) => {
                                assert(acc + (x + y) =~= (acc + x) + y);
                            },
                            _ => {},
                        }
                        acc = acc + x;
                    },
                    _ => {},
                }
            }
            pos = k;
        }
    }
    proof {
        reveal(spec_hex_scan);
        assert(b@.subrange(pos as int, b@.len() as int) =~= Seq::<u8>::empty());
    }
    false
}
} // verus!
