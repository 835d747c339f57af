use vstd::prelude::*;
use vstd::string::StringSliceAdditionalSpecFns;

use crate::decimal::{
    lemma_decimal_shape, push_bool, push_decimal_u64, spec_bool_text, spec_decimal,
};
use crate::le_bytes::push_bytes;

verus! {

pub const SPACE: u8 = 32;
pub const EQUALS: u8 = 61;
pub const MINUS: u8 = 45;
pub const DOT: u8 = 46;

/// The name that turns a set request into a lookup of the n-th name.
pub const API_NAME_KEY: [u8; 8] = [97, 112, 105, 95, 110, 97, 109, 101];

/// A parsed text request; names and values are the bytes of the request.
#[derive(Clone, Copy, Debug, PartialEq, Eq)]
pub enum ApiRequest<'a> {
    Get { name: &'a [u8] },
    Assign { name: &'a [u8], value: &'a [u8] },
    NameAt { index: u16 },
}

/// A text request as values.
pub enum SpecApiRequest {
    Get { name: Seq<u8> },
    Assign { name: Seq<u8>, value: Seq<u8> },
    NameAt { index: u16 },
}

impl<'a> View for ApiRequest<'a> {
    type V = SpecApiRequest;

    open spec fn view(&self) -> SpecApiRequest {
        match *self {
            ApiRequest::Get { name } => SpecApiRequest::Get { name: name@ },
            ApiRequest::Assign { name, value } => SpecApiRequest::Assign { name: name@, value: value@ },
            ApiRequest::NameAt { index } => SpecApiRequest::NameAt { index },
        }
    }
}

#[derive(Clone, Copy, Debug, PartialEq, Eq, Structural)]
pub enum ApiParseError {
    Empty,
    MissingName,
    MissingValue,
    InvalidIndex,
}

/// A value that the text API can report.
#[derive(Clone, Copy, Debug, PartialEq, Eq)]
pub enum ApiValue<'a> {
    Bool(bool),
    U8(u8),
    U16(u16),
    U32(u32),
    I32(i32),
    /// Thousandths: 435_708 reads as 435.708.
    Fixed3(i64),
    Str(&'a str),
}

/// A named, read-only value.
#[derive(Clone, Copy, Debug, PartialEq, Eq)]
pub struct ApiEntry<'a> {
    pub name: &'a str,
    pub value: ApiValue<'a>,
}

#[derive(Clone, Copy, Debug, PartialEq, Eq, Structural)]
pub enum ApiDispatchError {
    Parse(ApiParseError),
    UnknownName,
    ReadOnly,
    NameIndexOutOfRange,
    ResponseTooLong,
}

// ----- parsing ----------------------------------------------------------------

/// The first index at or after `i` that does not hold a space.
pub open spec fn spec_skip_spaces(s: Seq<u8>, i: int) -> int
    decreases s.len() - i,
{
    if i >= s.len() || i < 0 || s[i] != SPACE {
        i
    } else {
        spec_skip_spaces(s, i + 1)
    }
}

/// The end of `s[start..end]` once trailing spaces are dropped.
pub open spec fn spec_skip_spaces_back(s: Seq<u8>, start: int, end: int) -> int
    decreases end - start,
{
    if end <= start || s[end - 1] != SPACE {
        end
    } else {
        spec_skip_spaces_back(s, start, end - 1)
    }
}

/// `s` without leading and trailing spaces.
pub open spec fn spec_trim_spaces(s: Seq<u8>) -> Seq<u8> {
    let start = spec_skip_spaces(s, 0);
    s.subrange(start, spec_skip_spaces_back(s, start, s.len() as int))
}

/// The index of the first `needle` in `s`, if any.
pub open spec fn spec_find_byte(s: Seq<u8>, needle: u8) -> Option<int> {
    if exists|i: int| 0 <= i < s.len() && s[i] == needle {
        Some(choose|i: int| 0 <= i < s.len() && s[i] == needle && forall|j: int| 0 <= j < i ==> s[j] != needle)
    } else {
        None
    }
}

pub open spec fn spec_is_digit(b: u8) -> bool {
    48 <= b <= 57
}

/// The number that a string of decimal digits spells.
pub open spec fn spec_digits_value(s: Seq<u8>) -> nat
    decreases s.len(),
{
    if s.len() == 0 {
        0
    } else {
        spec_digits_value(s.drop_last()) * 10 + (s.last() - 48) as nat
    }
}

/// A string of decimal digits (possibly empty) whose value fits 16 bits.
pub open spec fn spec_parse_u16(s: Seq<u8>) -> Option<u16> {
    if (forall|i: int| 0 <= i < s.len() ==> spec_is_digit(s[i])) && spec_digits_value(s) <= u16::MAX {
        Some(spec_digits_value(s) as u16)
    } else {
        None
    }
}

/// A request is `name` (a read), `name = value` (a write), or
/// `api_name = n` (the n-th name); spaces around each part are ignored.
pub open spec fn spec_parse_request(s: Seq<u8>) -> Result<SpecApiRequest, ApiParseError> {
    let t = spec_trim_spaces(s);
    if t.len() == 0 {
        Err(ApiParseError::Empty)
    } else {
        match spec_find_byte(t, EQUALS) {
            None => Ok(SpecApiRequest::Get { name: t }),
            Some(k) => {
                let name = spec_trim_spaces(t.subrange(0, k));
                let value = spec_trim_spaces(t.subrange(k + 1, t.len() as int));
                if name.len() == 0 {
                    Err(ApiParseError::MissingName)
                } else if value.len() == 0 {
                    Err(ApiParseError::MissingValue)
                } else if name == API_NAME_KEY@ {
                    match spec_parse_u16(value) {
                        Some(index) => Ok(SpecApiRequest::NameAt { index }),
                        None => Err(ApiParseError::InvalidIndex),
                    }
                } else {
                    Ok(SpecApiRequest::Assign { name, value })
                }
            },
        }
    }
}

/// `input` without leading and trailing spaces.
pub fn trim_spaces(input: &[u8]) -> (r: &[u8])
    ensures
        r@ == spec_trim_spaces(input@),
{
    let mut start: usize = 0;
    let mut end: usize = input.len();
    while start < end && input[start] == SPACE
        invariant
            0 <= start <= end == input@.len(),
            spec_skip_spaces(input@, start as int) == spec_skip_spaces(input@, 0),
        decreases end - start,
    {
        start = start + 1;
    }
    let ghost s = spec_skip_spaces(input@, 0);
    assert(start == s);
    while end > start && input[end - 1] == SPACE
        invariant
            start <= end <= input@.len(),
            start == s,
            spec_skip_spaces_back(input@, start as int, end as int) == spec_skip_spaces_back(
                input@,
                start as int,
                input@.len() as int,
            ),
        decreases end - start,
    {
        end = end - 1;
    }
    &input[start..end]
}

/// The index of the first `needle` in `input`.
pub fn find_byte(input: &[u8], needle: u8) -> (r: Option<usize>)
    ensures
        r matches Some(i) ==> i < input@.len() && input@[i as int] == needle && forall|j: int|
            0 <= j < i ==> input@[j] != needle,
        r is None ==> forall|j: int| 0 <= j < input@.len() ==> input@[j] != needle,
        r matches Some(i) ==> spec_find_byte(input@, needle) == Some(i as int),
        r is None ==> spec_find_byte(input@, needle) is None,
{
    let mut i: usize = 0;
    while i < input.len()
        invariant
            i <= input@.len(),
            forall|j: int| 0 <= j < i ==> input@[j] != needle,
        decreases input@.len() - i,
    {
        if input[i] == needle {
            let ghost k = spec_find_byte(input@, needle);
            proof {
                assert(0 <= i < input@.len() && input@[i as int] == needle);
                let c = choose|c: int|
                    0 <= c < input@.len() && input@[c] == needle && forall|j: int|
                        0 <= j < c ==> input@[j] != needle;
                assert(0 <= i as int && i < input@.len() && input@[i as int] == needle
                    && forall|j: int| 0 <= j < i ==> input@[j] != needle);
                if c < i {
                } else if c > i {
                    assert(input@[i as int] != needle);
                }
            }
            return Some(i);
        }
        i = i + 1;
    }
    None
}

/// Every prefix of a digit string has at most its value.
pub proof fn lemma_digits_value_prefix(s: Seq<u8>, k: int)
    requires
        0 <= k <= s.len(),
    ensures
        spec_digits_value(s.subrange(0, k)) <= spec_digits_value(s),
    decreases s.len() - k,
{
    if k < s.len() {
        lemma_digits_value_prefix(s, k + 1);
        let p = s.subrange(0, k + 1);
        assert(p.drop_last() =~= s.subrange(0, k));
        assert(spec_digits_value(p) >= spec_digits_value(s.subrange(0, k)));
    } else {
        assert(s.subrange(0, k) =~= s);
    }
}

/// The decimal number that `input` spells; `None` for any non-digit or a
/// value above 65535. An empty input reads as 0.
pub fn parse_u16(input: &[u8]) -> (r: Option<u16>)
    ensures
        r == spec_parse_u16(input@),
{
    let mut value: u16 = 0;
    let mut i: usize = 0;
    while i < input.len()
        invariant
            i <= input@.len(),
            forall|j: int| 0 <= j < i ==> spec_is_digit(input@[j]),
            value == spec_digits_value(input@.subrange(0, i as int)),
        decreases input@.len() - i,
    {
        let byte = input[i];
        let digit = byte.wrapping_sub(48);
        if digit > 9 {
            assert(!spec_is_digit(input@[i as int]));
            return None;
        }
        assert(input@.subrange(0, i + 1).drop_last() =~= input@.subrange(0, i as int));
        let next = match value.checked_mul(10) {
            Some(v) => v.checked_add(digit as u16),
            None => None,
        };
        match next {
            Some(v) => {
                value = v;
            },
            None => {
                proof {
                    lemma_digits_value_prefix(input@, i + 1);
                }
                return None;
            },
        }
        i = i + 1;
    }
    assert(input@.subrange(0, i as int) =~= input@);
    Some(value)
}

/// Whether two byte strings are equal.
pub fn bytes_eq(a: &[u8], b: &[u8]) -> (r: bool)
    ensures
        r == (a@ == b@),
{
    if a.len() != b.len() {
        return false;
    }
    let mut i: usize = 0;
    while i < a.len()
        invariant
            a@.len() == b@.len(),
            i <= a@.len(),
            forall|j: int| 0 <= j < i ==> a@[j] == b@[j],
        decreases a@.len() - i,
    {
        if a[i] != b[i] {
            return false;
        }
        i = i + 1;
    }
    assert(a@ =~= b@);
    true
}

/// Parses one text request.
pub fn parse_request(input: &str) -> (r: Result<ApiRequest<'_>, ApiParseError>)
    ensures
        match (r, spec_parse_request(input.spec_bytes())) {
            (Ok(a), Ok(b)) => a@ == b,
            (Err(a), Err(b)) => a == b,
            _ => false,
        },
{
    let input = trim_spaces(input.as_bytes());
    if input.len() == 0 {
        return Err(ApiParseError::Empty);
    }
    let equal_index = match find_byte(input, EQUALS) {
        None => return Ok(ApiRequest::Get { name: input }),
        Some(i) => i,
    };
    let name = trim_spaces(&input[0..equal_index]);
    if name.len() == 0 {
        return Err(ApiParseError::MissingName);
    }
    let value = trim_spaces(&input[equal_index + 1..input.len()]);
    if value.len() == 0 {
        return Err(ApiParseError::MissingValue);
    }
    if bytes_eq(name, &API_NAME_KEY) {
        return match parse_u16(value) {
            Some(index) => Ok(ApiRequest::NameAt { index }),
            None => Err(ApiParseError::InvalidIndex),
        };
    }
    Ok(ApiRequest::Assign { name, value })
}


// ----- formatting ---------------------------------------------------------------

/// The decimal rendering of a signed value, with a leading `-` when negative.
pub open spec fn spec_signed_decimal(v: int) -> Seq<u8> {
    if v < 0 {
        seq![MINUS] + spec_decimal((-v) as nat)
    } else {
        spec_decimal(v as nat)
    }
}

/// A fixed-point value in thousandths: the whole part, then a point and
/// the fraction with trailing zeros dropped (none at all for a whole value).
pub open spec fn spec_fixed3(value: i64) -> Seq<u8> {
    let magnitude: nat = if value < 0 {
        (-value) as nat
    } else {
        value as nat
    };
    let whole = magnitude / 1000;
    let fraction = magnitude % 1000;
    let hundreds = fraction / 100;
    let tens = (fraction % 100) / 10;
    let ones = fraction % 10;
    let sign = if value < 0 {
        seq![MINUS]
    } else {
        Seq::<u8>::empty()
    };
    if fraction == 0 {
        sign + spec_decimal(whole)
    } else {
        sign + spec_decimal(whole) + seq![DOT, (48 + hundreds) as u8] + (if tens != 0 || ones != 0 {
            seq![(48 + tens) as u8]
        } else {
            Seq::<u8>::empty()
        }) + (if ones != 0 {
            seq![(48 + ones) as u8]
        } else {
            Seq::<u8>::empty()
        })
    }
}

/// The text of a value.
pub open spec fn spec_render(value: ApiValue) -> Seq<u8> {
    match value {
        ApiValue::Bool(b) => spec_bool_text(b),
        ApiValue::U8(v) => spec_decimal(v as nat),
        ApiValue::U16(v) => spec_decimal(v as nat),
        ApiValue::U32(v) => spec_decimal(v as nat),
        ApiValue::I32(v) => spec_signed_decimal(v as int),
        ApiValue::Fixed3(v) => spec_fixed3(v),
        ApiValue::Str(t) => t.spec_bytes(),
    }
}

/// The pieces in which the text of a value is written, in order: each is
/// written whole or, when it no longer fits, not at all. A negative number
/// writes its sign apart from its digits, and a fixed-point value writes
/// the sign, the whole part, the point and each fraction digit apart.
pub open spec fn spec_pieces(value: ApiValue) -> Seq<Seq<u8>> {
    match value {
        ApiValue::Bool(b) => seq![spec_bool_text(b)],
        ApiValue::U8(v) => seq![spec_decimal(v as nat)],
        ApiValue::U16(v) => seq![spec_decimal(v as nat)],
        ApiValue::U32(v) => seq![spec_decimal(v as nat)],
        ApiValue::I32(v) => if v < 0 {
            seq![seq![MINUS], spec_decimal((-v) as nat)]
        } else {
            seq![spec_decimal(v as nat)]
        },
        ApiValue::Fixed3(v) => spec_fixed3_pieces(v),
        ApiValue::Str(t) => seq![t.spec_bytes()],
    }
}

pub open spec fn spec_fixed3_pieces(value: i64) -> Seq<Seq<u8>> {
    let magnitude: nat = if value < 0 {
        (-value) as nat
    } else {
        value as nat
    };
    let whole = magnitude / 1000;
    let fraction = magnitude % 1000;
    let hundreds = fraction / 100;
    let tens = (fraction % 100) / 10;
    let ones = fraction % 10;
    let sign = if value < 0 {
        seq![seq![MINUS]]
    } else {
        Seq::<Seq<u8>>::empty()
    };
    if fraction == 0 {
        sign + seq![spec_decimal(whole)]
    } else {
        sign + seq![spec_decimal(whole), seq![DOT], seq![(48 + hundreds) as u8]] + (if tens != 0
            || ones != 0 {
            seq![seq![(48 + tens) as u8]]
        } else {
            Seq::<Seq<u8>>::empty()
        }) + (if ones != 0 {
            seq![seq![(48 + ones) as u8]]
        } else {
            Seq::<Seq<u8>>::empty()
        })
    }
}

/// The pieces from the `i`-th on, joined.
pub open spec fn spec_text_from(pieces: Seq<Seq<u8>>, i: int) -> Seq<u8>
    decreases pieces.len() - i,
{
    if i < 0 || i >= pieces.len() {
        Seq::empty()
    } else {
        pieces[i] + spec_text_from(pieces, i + 1)
    }
}

/// All the pieces, joined.
pub open spec fn spec_text(pieces: Seq<Seq<u8>>) -> Seq<u8> {
    spec_text_from(pieces, 0)
}

/// What the pieces from the `i`-th on leave written in `room` bytes: each
/// piece in turn while it fits in what is left, up to the first that does
/// not.
pub open spec fn spec_written_from(pieces: Seq<Seq<u8>>, i: int, room: int) -> Seq<u8>
    decreases pieces.len() - i,
{
    if i < 0 || i >= pieces.len() || pieces[i].len() > room {
        Seq::empty()
    } else {
        pieces[i] + spec_written_from(pieces, i + 1, room - pieces[i].len())
    }
}

/// What the pieces leave written in a buffer of `room` bytes.
pub open spec fn spec_written(pieces: Seq<Seq<u8>>, room: int) -> Seq<u8> {
    spec_written_from(pieces, 0, room)
}

/// How writing `pieces` into `before` turned out: when they all fit they
/// stand at the front and are the result; otherwise the answer is refused
/// as too long and the pieces that fitted stay written at the front.
pub open spec fn spec_fills(
    r: Result<&[u8], ApiDispatchError>,
    pieces: Seq<Seq<u8>>,
    before: Seq<u8>,
    after: Seq<u8>,
) -> bool {
    let text = spec_text(pieces);
    if text.len() > before.len() {
        let w = spec_written(pieces, before.len() as int);
        &&& r == Err::<&[u8], ApiDispatchError>(ApiDispatchError::ResponseTooLong)
        &&& after == w + before.subrange(w.len() as int, before.len() as int)
    } else {
        &&& r matches Ok(d) && d@ == text
        &&& after == text + before.subrange(text.len() as int, before.len() as int)
    }
}

proof fn lemma_text_from_starts_with_piece(pieces: Seq<Seq<u8>>, i: int)
    requires
        0 <= i < pieces.len(),
    ensures
        spec_text_from(pieces, i).len() >= pieces[i].len(),
{
}

/// The pieces of a value joined are its text.
pub proof fn lemma_pieces_make_render(value: ApiValue)
    ensures
        spec_text(spec_pieces(value)) == spec_render(value),
{
    reveal_with_fuel(spec_text_from, 7);
    assert(spec_text(spec_pieces(value)) =~= spec_render(value));
}

/// The decimal rendering of `n` is a non-empty string of digits that spells
/// `n`.
pub proof fn lemma_decimal_reads_back(n: nat)
    ensures
        spec_decimal(n).len() >= 1,
        forall|i: int| 0 <= i < spec_decimal(n).len() ==> spec_is_digit(#[trigger] spec_decimal(n)[i]),
        spec_digits_value(spec_decimal(n)) == n,
    decreases n,
{
    lemma_decimal_shape(n);
    let s = spec_decimal(n);
    if n >= 10 {
        lemma_decimal_reads_back(n / 10);
        assert(s.drop_last() =~= spec_decimal(n / 10));
        assert(s.last() == 48 + n % 10);
        assert((n / 10) * 10 + n % 10 == n);
        assert(spec_digits_value(s) == spec_digits_value(s.drop_last()) * 10 + (s.last() - 48) as nat);
    } else {
        assert(s.drop_last() =~= Seq::<u8>::empty());
        assert(s.last() == 48 + n);
        assert(spec_digits_value(s) == spec_digits_value(s.drop_last()) * 10 + (s.last() - 48) as nat);
    }
}

/// Every 16-bit number, written in decimal, parses back as itself.
pub proof fn lemma_parse_u16_reads_decimal(n: u16)
    ensures
        spec_parse_u16(spec_decimal(n as nat)) == Some(n),
{
    lemma_decimal_reads_back(n as nat);
}

/// A fixed-point value in thousandths reads back from its text: a `-`
/// exactly when it is negative, the decimal digits of the whole part of its
/// magnitude, and, only when there is a fraction, a point followed by one
/// to three digits, the last not zero, that spell the fraction as tenths,
/// hundredths and thousandths.
pub proof fn lemma_fixed3_reads_back(value: i64)
    ensures
        ({
            let text = spec_render(ApiValue::Fixed3(value));
            let m: int = if value < 0 {
                -value
            } else {
                value as int
            };
            let sign: int = if value < 0 {
                1
            } else {
                0
            };
            let whole = spec_decimal((m / 1000) as nat);
            let k = sign + whole.len();
            let rest = text.subrange(k, text.len() as int);
            &&& k <= text.len()
            &&& (value < 0 <==> text[0] == MINUS)
            &&& text.subrange(sign, k) == whole
            &&& spec_digits_value(whole) == m / 1000
            &&& (m % 1000 == 0 <==> rest.len() == 0)
            &&& m % 1000 != 0 ==> {
                &&& 2 <= rest.len() <= 4
                &&& rest[0] == DOT
                &&& forall|i: int| 1 <= i < rest.len() ==> spec_is_digit(#[trigger] rest[i])
                &&& rest[rest.len() - 1] != 48
                &&& (rest[1] - 48) * 100 + (if rest.len() >= 3 {
                    rest[2] - 48
                } else {
                    0
                }) * 10 + (if rest.len() == 4 {
                    rest[3] - 48
                } else {
                    0
                }) == m % 1000
            }
        }),
{
    let text = spec_render(ApiValue::Fixed3(value));
    let m: int = if value < 0 {
        -value
    } else {
        value as int
    };
    let sign_seq = if value < 0 {
        seq![MINUS]
    } else {
        Seq::<u8>::empty()
    };
    let whole = spec_decimal((m / 1000) as nat);
    lemma_decimal_reads_back((m / 1000) as nat);
    let k = sign_seq.len() + whole.len();
    let rest = text.subrange(k as int, text.len() as int);
    let f = m % 1000;
    let hundreds = f / 100;
    let tens = (f % 100) / 10;
    let ones = f % 10;
    let tail = if f == 0 {
        Seq::<u8>::empty()
    } else {
        seq![DOT, (48 + hundreds) as u8] + (if tens != 0 || ones != 0 {
            seq![(48 + tens) as u8]
        } else {
            Seq::<u8>::empty()
        }) + (if ones != 0 {
            seq![(48 + ones) as u8]
        } else {
            Seq::<u8>::empty()
        })
    };
    assert(text =~= sign_seq + whole + tail);
    assert(rest =~= tail);
    assert(text.subrange(sign_seq.len() as int, k as int) =~= whole);
    if value >= 0 {
        assert(text[0] == whole[0]);
    }
}

/// A value reads back from the text written for it: a bool is the word
/// `true` or `false`, an unsigned number is a string of digits that spells
/// it, a signed number starts with `-` exactly when it is negative and the
/// digits after the sign spell its magnitude, and a string is its own bytes.
pub proof fn lemma_value_text_reads_back(value: ApiValue)
    ensures
        spec_text(spec_pieces(value)) == spec_render(value),
        value matches ApiValue::Bool(b) ==> spec_render(value) == if b {
            seq![116u8, 114u8, 117u8, 101u8]
        } else {
            seq![102u8, 97u8, 108u8, 115u8, 101u8]
        },
        value matches ApiValue::U8(v) ==> spec_digits_value(spec_render(value)) == v,
        value matches ApiValue::U16(v) ==> spec_digits_value(spec_render(value)) == v,
        value matches ApiValue::U32(v) ==> spec_digits_value(spec_render(value)) == v,
        value is U8 || value is U16 || value is U32 ==> spec_render(value).len() >= 1 && forall|
            i: int,
        | 0 <= i < spec_render(value).len() ==> spec_is_digit(#[trigger] spec_render(value)[i]),
        value matches ApiValue::I32(v) ==> {
            let text = spec_render(value);
            let digits = if v < 0 {
                text.drop_first()
            } else {
                text
            };
            &&& text.len() >= 1
            &&& (text[0] == MINUS <==> v < 0)
            &&& digits.len() >= 1
            &&& forall|i: int| 0 <= i < digits.len() ==> spec_is_digit(#[trigger] digits[i])
            &&& spec_digits_value(digits) == if v < 0 {
                -v
            } else {
                v as int
            }
        },
        value matches ApiValue::Str(t) ==> spec_render(value) == t.spec_bytes(),
{
    lemma_pieces_make_render(value);
    match value {
        ApiValue::U8(v) => lemma_decimal_reads_back(v as nat),
        ApiValue::U16(v) => lemma_decimal_reads_back(v as nat),
        ApiValue::U32(v) => lemma_decimal_reads_back(v as nat),
        ApiValue::I32(v) => {
            if v < 0 {
                lemma_decimal_reads_back((-v) as nat);
                assert(spec_render(value).drop_first() =~= spec_decimal((-v) as nat));
            } else {
                lemma_decimal_reads_back(v as nat);
            }
        },
        _ => {},
    }
}

fn one_byte(b: u8) -> (v: Vec<u8>)
    ensures
        v@ == seq![b],
{
    let mut v: Vec<u8> = Vec::new();
    v.push(b);
    assert(v@ =~= seq![b]);
    v
}

fn push_piece(p: &mut Vec<Vec<u8>>, piece: Vec<u8>)
    ensures
        final(p)@.map_values(|x: Vec<u8>| x@) == old(p)@.map_values(|x: Vec<u8>| x@).push(
            piece@,
        ),
{
    let ghost before = p@;
    let ghost v = piece@;
    p.push(piece);
    assert(p@.map_values(|x: Vec<u8>| x@) =~= before.map_values(|x: Vec<u8>| x@).push(v));
}

fn fixed3_pieces(value: i64) -> (p: Vec<Vec<u8>>)
    ensures
        p@.map_values(|x: Vec<u8>| x@) == spec_fixed3_pieces(value),
{
    let mut p: Vec<Vec<u8>> = Vec::new();
    assert(p@.map_values(|x: Vec<u8>| x@) =~= Seq::<Seq<u8>>::empty());
    let magnitude: u64 = if value < 0 {
        if value == i64::MIN {
            0x8000_0000_0000_0000u64
        } else {
            (-value) as u64
        }
    } else {
        value as u64
    };
    let whole = magnitude / 1000;
    let fraction = magnitude % 1000;
    let ghost sign: Seq<Seq<u8>> = if value < 0 {
        seq![seq![MINUS]]
    } else {
        Seq::<Seq<u8>>::empty()
    };
    if value < 0 {
        push_piece(&mut p, one_byte(MINUS));
    }
    assert(p@.map_values(|x: Vec<u8>| x@) =~= sign);
    let mut w: Vec<u8> = Vec::new();
    push_decimal_u64(&mut w, whole);
    assert(w@ =~= spec_decimal(whole as nat));
    push_piece(&mut p, w);
    if fraction != 0 {
        let hundreds = fraction / 100;
        let tens = (fraction % 100) / 10;
        let ones = fraction % 10;
        push_piece(&mut p, one_byte(DOT));
        push_piece(&mut p, one_byte(48 + hundreds as u8));
        let ghost mid = p@.map_values(|x: Vec<u8>| x@);
        assert(mid =~= sign + seq![
            spec_decimal(whole as nat),
            seq![DOT],
            seq![(48 + hundreds) as u8],
        ]);
        let ghost t: Seq<Seq<u8>> = if tens != 0 || ones != 0 {
            seq![seq![(48 + tens) as u8]]
        } else {
            Seq::<Seq<u8>>::empty()
        };
        if tens != 0 || ones != 0 {
            push_piece(&mut p, one_byte(48 + tens as u8));
        }
        assert(p@.map_values(|x: Vec<u8>| x@) =~= mid + t);
        let ghost o: Seq<Seq<u8>> = if ones != 0 {
            seq![seq![(48 + ones) as u8]]
        } else {
            Seq::<Seq<u8>>::empty()
        };
        if ones != 0 {
            push_piece(&mut p, one_byte(48 + ones as u8));
        }
        assert(p@.map_values(|x: Vec<u8>| x@) =~= mid + t + o);
    }
    assert(p@.map_values(|x: Vec<u8>| x@) =~= spec_fixed3_pieces(value));
    p
}

/// The pieces of the text of `value`.
fn value_pieces(value: ApiValue) -> (p: Vec<Vec<u8>>)
    ensures
        p@.map_values(|x: Vec<u8>| x@) == spec_pieces(value),
{
    let mut p: Vec<Vec<u8>> = Vec::new();
    assert(p@.map_values(|x: Vec<u8>| x@) =~= Seq::<Seq<u8>>::empty());
    match value {
        ApiValue::Fixed3(v) => {
            return fixed3_pieces(v);
        },
        ApiValue::I32(v) => {
            let mut digits: Vec<u8> = Vec::new();
            if v < 0 {
                push_piece(&mut p, one_byte(MINUS));
                let m: u64 = if v == i32::MIN {
                    0x8000_0000u64
                } else {
                    (-v) as u64
                };
                push_decimal_u64(&mut digits, m);
                assert(digits@ =~= spec_decimal((-v) as nat));
            } else {
                push_decimal_u64(&mut digits, v as u64);
                assert(digits@ =~= spec_decimal(v as nat));
            }
            push_piece(&mut p, digits);
        },
        _ => {
            let mut t: Vec<u8> = Vec::new();
            match value {
                ApiValue::Bool(b) => push_bool(&mut t, b),
                ApiValue::U8(v) => push_decimal_u64(&mut t, v as u64),
                ApiValue::U16(v) => push_decimal_u64(&mut t, v as u64),
                ApiValue::U32(v) => push_decimal_u64(&mut t, v as u64),
                ApiValue::Str(s) => push_bytes(&mut t, s.as_bytes()),
                _ => {},
            }
            push_piece(&mut p, t);
        },
    }
    assert(p@.map_values(|x: Vec<u8>| x@) =~= spec_pieces(value));
    p
}

/// Writes the pieces one after another at the front of `output`, each
/// whole or, once one does not fit, none further.
fn write_pieces<'out>(pieces: &Vec<Vec<u8>>, output: &'out mut [u8]) -> (r: Result<
    &'out [u8],
    ApiDispatchError,
>)
    ensures
        spec_fills(r, pieces@.map_values(|x: Vec<u8>| x@), old(output)@, final(output)@),
{
    let ghost ps = pieces@.map_values(|x: Vec<u8>| x@);
    let ghost before = output@;
    let cap = output.len();
    let mut pos: usize = 0;
    let mut i: usize = 0;
    assert(output@.subrange(0, 0) =~= Seq::<u8>::empty());
    while i < pieces.len()
        invariant
            ps == pieces@.map_values(|x: Vec<u8>| x@),
            before == old(output)@,
            before.len() == cap,
            output@.len() == cap,
            i <= pieces@.len(),
            pos <= cap,
            spec_text(ps) == output@.subrange(0, pos as int) + spec_text_from(ps, i as int),
            spec_written(ps, cap as int) == output@.subrange(0, pos as int) + spec_written_from(
                ps,
                i as int,
                cap - pos,
            ),
            forall|j: int| pos <= j < cap ==> output@[j] == before[j],
        decreases pieces@.len() - i,
    {
        let piece = &pieces[i];
        assert(ps[i as int] == piece@);
        if piece.len() > cap - pos {
            proof {
                lemma_text_from_starts_with_piece(ps, i as int);
                assert(spec_written_from(ps, i as int, cap - pos) =~= Seq::<u8>::empty());
                let w = spec_written(ps, cap as int);
                assert(w =~= output@.subrange(0, pos as int));
                assert(spec_text(ps).len() > cap);
                assert(output@ =~= w + before.subrange(w.len() as int, cap as int));
            }
            return Err(ApiDispatchError::ResponseTooLong);
        }
        let ghost out_before = output@;
        let mut k: usize = 0;
        while k < piece.len()
            invariant
                pos + piece@.len() <= cap,
                output@.len() == cap,
                out_before.len() == cap,
                k <= piece@.len(),
                forall|j: int| 0 <= j < pos ==> output@[j] == out_before[j],
                forall|j: int| 0 <= j < k ==> output@[pos + j] == piece@[j],
                forall|j: int| pos + k <= j < cap ==> output@[j] == out_before[j],
            decreases piece@.len() - k,
        {
            output[pos + k] = piece[k];
            k = k + 1;
        }
        proof {
            let np = (pos + piece@.len()) as int;
            assert(output@.subrange(0, np) =~= out_before.subrange(0, pos as int) + piece@);
            assert(spec_text_from(ps, i as int) == piece@ + spec_text_from(ps, i + 1));
            assert(spec_written_from(ps, i as int, cap - pos) == piece@ + spec_written_from(
                ps,
                i + 1,
                cap - np,
            ));
        }
        pos = pos + piece.len();
        i = i + 1;
    }
    proof {
        assert(spec_text_from(ps, i as int) =~= Seq::<u8>::empty());
        assert(spec_text(ps) =~= output@.subrange(0, pos as int));
        assert(output@ =~= spec_text(ps) + before.subrange(pos as int, cap as int));
    }
    let out: &[u8] = output;
    let d = &out[0..pos];
    assert(d@ =~= output@.subrange(0, pos as int));
    Ok(d)
}

/// Writes the text of `value` at the front of `output`, piece by piece as
/// `spec_pieces` gives them.
pub fn format_value<'out>(value: ApiValue<'_>, output: &'out mut [u8]) -> (r: Result<
    &'out [u8],
    ApiDispatchError,
>)
    ensures
        spec_fills(r, spec_pieces(value), old(output)@, final(output)@),
        r is Err <==> spec_render(value).len() > old(output)@.len(),
        r matches Ok(d) ==> d@ == spec_render(value),
{
    proof {
        lemma_pieces_make_render(value);
    }
    let pieces = value_pieces(value);
    write_pieces(&pieces, output)
}

// ----- catalog -------------------------------------------------------------------

/// The index of the first entry called `name`, if any.
pub open spec fn spec_find_entry(entries: Seq<ApiEntry>, name: Seq<u8>) -> Option<int> {
    if exists|i: int| 0 <= i < entries.len() && entries[i].name.spec_bytes() == name {
        Some(
            choose|i: int|
                0 <= i < entries.len() && entries[i].name.spec_bytes() == name && forall|j: int|
                    0 <= j < i ==> entries[j].name.spec_bytes() != name,
        )
    } else {
        None
    }
}

/// The pieces of the text of the value named `name`.
pub open spec fn spec_read(entries: Seq<ApiEntry>, name: Seq<u8>) -> Result<
    Seq<Seq<u8>>,
    ApiDispatchError,
> {
    match spec_find_entry(entries, name) {
        None => Err(ApiDispatchError::UnknownName),
        Some(i) => Ok(spec_pieces(entries[i].value)),
    }
}

/// The `index`-th name, written as one piece.
pub open spec fn spec_name_at(entries: Seq<ApiEntry>, index: u16) -> Result<
    Seq<Seq<u8>>,
    ApiDispatchError,
> {
    if index < entries.len() {
        Ok(seq![entries[index as int].name.spec_bytes()])
    } else {
        Err(ApiDispatchError::NameIndexOutOfRange)
    }
}

/// The answer to a request: a read gives the value's text, a write is
/// refused (every entry is read-only), a name lookup gives the name.
pub open spec fn spec_dispatch(entries: Seq<ApiEntry>, input: Seq<u8>) -> Result<
    Seq<Seq<u8>>,
    ApiDispatchError,
> {
    match spec_parse_request(input) {
        Err(e) => Err(ApiDispatchError::Parse(e)),
        Ok(SpecApiRequest::Get { name }) => spec_read(entries, name),
        Ok(SpecApiRequest::Assign { name, .. }) => if spec_find_entry(entries, name) is Some {
            Err(ApiDispatchError::ReadOnly)
        } else {
            Err(ApiDispatchError::UnknownName)
        },
        Ok(SpecApiRequest::NameAt { index }) => spec_name_at(entries, index),
    }
}

/// How a response written into `output` relates to the expected answer: an
/// error leaves `output` alone; an answer is written piece by piece as
/// `spec_fills` says.
pub open spec fn spec_answers(
    r: Result<&[u8], ApiDispatchError>,
    expected: Result<Seq<Seq<u8>>, ApiDispatchError>,
    before: Seq<u8>,
    after: Seq<u8>,
) -> bool {
    match expected {
        Err(e) => r == Err::<&[u8], ApiDispatchError>(e) && after == before,
        Ok(pieces) => spec_fills(r, pieces, before, after),
    }
}

/// A word with no space and no `=` in it.
pub open spec fn spec_plain_word(s: Seq<u8>) -> bool {
    s.len() >= 1 && forall|k: int| 0 <= k < s.len() ==> s[k] != SPACE && s[k] != EQUALS
}

proof fn lemma_trim_keeps(s: Seq<u8>)
    requires
        s.len() >= 1,
        s[0] != SPACE,
        s[s.len() - 1] != SPACE,
    ensures
        spec_trim_spaces(s) == s,
{
    assert(spec_skip_spaces(s, 0) == 0);
    assert(spec_skip_spaces_back(s, 0, s.len() as int) == s.len());
    assert(s.subrange(0, s.len() as int) =~= s);
}

proof fn lemma_find_byte_at(s: Seq<u8>, needle: u8, k: int)
    requires
        0 <= k < s.len(),
        s[k] == needle,
        forall|j: int| 0 <= j < k ==> s[j] != needle,
    ensures
        spec_find_byte(s, needle) == Some(k),
{
    let c = choose|i: int|
        0 <= i < s.len() && s[i] == needle && forall|j: int| 0 <= j < i ==> s[j] != needle;
    assert(0 <= c < s.len() && s[c] == needle && forall|j: int| 0 <= j < c ==> s[j] != needle);
    if c < k {
        assert(s[c] != needle);
    } else if c > k {
        assert(s[k] != needle);
    }
}

proof fn lemma_find_entry_first(entries: Seq<ApiEntry>, i: int)
    requires
        0 <= i < entries.len(),
        forall|j: int|
            0 <= j < i ==> entries[j].name.spec_bytes() != entries[i].name.spec_bytes(),
    ensures
        spec_find_entry(entries, entries[i].name.spec_bytes()) == Some(i),
{
    let name = entries[i].name.spec_bytes();
    let c = choose|c: int|
        0 <= c < entries.len() && entries[c].name.spec_bytes() == name && forall|j: int|
            0 <= j < c ==> entries[j].name.spec_bytes() != name;
    assert(0 <= c < entries.len() && entries[c].name.spec_bytes() == name && forall|j: int|
        0 <= j < c ==> entries[j].name.spec_bytes() != name);
    if c < i {
        assert(entries[c].name.spec_bytes() != name);
    } else if c > i {
        assert(entries[i].name.spec_bytes() != name);
    }
}

/// `name=value` parses as a write of `value` to `name`, or as a name lookup
/// when the name is `api_name`.
proof fn lemma_parse_assignment(name: Seq<u8>, value: Seq<u8>)
    requires
        spec_plain_word(name),
        spec_plain_word(value),
    ensures
        ({
            let input = name + seq![EQUALS] + value;
            spec_parse_request(input) == if name == API_NAME_KEY@ {
                match spec_parse_u16(value) {
                    Some(index) => Ok(SpecApiRequest::NameAt { index }),
                    None => Err(ApiParseError::InvalidIndex),
                }
            } else {
                Ok(SpecApiRequest::Assign { name, value })
            }
        }),
{
    let input = name + seq![EQUALS] + value;
    let k = name.len() as int;
    assert(input[0] == name[0]);
    assert(input[input.len() - 1] == value[value.len() - 1]);
    lemma_trim_keeps(input);
    assert forall|j: int| 0 <= j < k implies input[j] != EQUALS by {
        assert(input[j] == name[j]);
    }
    lemma_find_byte_at(input, EQUALS, k);
    assert(input.subrange(0, k) =~= name);
    assert(input.subrange(k + 1, input.len() as int) =~= value);
    lemma_trim_keeps(name);
    lemma_trim_keeps(value);
}

/// A catalog answers a request that is just the name of an entry with the
/// text of that entry's value, the first entry of that name counting.
pub proof fn lemma_dispatch_reads(entries: Seq<ApiEntry>, i: int)
    requires
        0 <= i < entries.len(),
        forall|j: int|
            0 <= j < i ==> entries[j].name.spec_bytes() != entries[i].name.spec_bytes(),
        spec_plain_word(entries[i].name.spec_bytes()),
    ensures
        spec_dispatch(entries, entries[i].name.spec_bytes()) == Ok::<
            Seq<Seq<u8>>,
            ApiDispatchError,
        >(spec_pieces(entries[i].value)),
{
    let name = entries[i].name.spec_bytes();
    lemma_trim_keeps(name);
    assert(!(exists|k: int| 0 <= k < name.len() && name[k] == EQUALS));
    lemma_find_entry_first(entries, i);
}

/// Every entry is read-only: a request `name=value` for an entry's name is
/// refused as read-only, whatever the value.
pub proof fn lemma_dispatch_refuses_writes(entries: Seq<ApiEntry>, i: int, value: Seq<u8>)
    requires
        0 <= i < entries.len(),
        spec_plain_word(entries[i].name.spec_bytes()),
        entries[i].name.spec_bytes() != API_NAME_KEY@,
        spec_plain_word(value),
    ensures
        spec_dispatch(entries, entries[i].name.spec_bytes() + seq![EQUALS] + value) == Err::<
            Seq<Seq<u8>>,
            ApiDispatchError,
        >(ApiDispatchError::ReadOnly),
{
    let name = entries[i].name.spec_bytes();
    lemma_parse_assignment(name, value);
    assert(exists|k: int| 0 <= k < entries.len() && entries[k].name.spec_bytes() == name);
}

/// `api_name=n` is answered with the name of the n-th entry, or refused as
/// out of range when there are no more than n entries.
pub proof fn lemma_dispatch_names(entries: Seq<ApiEntry>, n: u16)
    ensures
        spec_dispatch(entries, API_NAME_KEY@ + seq![EQUALS] + spec_decimal(n as nat)) == if n
            < entries.len() {
            Ok::<Seq<Seq<u8>>, ApiDispatchError>(seq![entries[n as int].name.spec_bytes()])
        } else {
            Err::<Seq<Seq<u8>>, ApiDispatchError>(ApiDispatchError::NameIndexOutOfRange)
        },
{
    let digits = spec_decimal(n as nat);
    lemma_decimal_reads_back(n as nat);
    assert(API_NAME_KEY@ =~= seq![97u8, 112u8, 105u8, 95u8, 110u8, 97u8, 109u8, 101u8]);
    assert(spec_plain_word(API_NAME_KEY@));
    assert(spec_plain_word(digits));
    lemma_parse_assignment(API_NAME_KEY@, digits);
}

/// A fixed, read-only table of named values.
pub struct ApiCatalog<'a> {
    entries: &'a [ApiEntry<'a>],
}

impl<'a> ApiEntry<'a> {
    pub fn new(name: &'a str, value: ApiValue<'a>) -> (e: Self)
        ensures
            e.name == name,
            e.value == value,
    {
        Self { name, value }
    }
}

impl<'a> ApiCatalog<'a> {
    pub closed spec fn spec_entries(&self) -> Seq<ApiEntry<'a>> {
        self.entries@
    }

    pub fn new(entries: &'a [ApiEntry<'a>]) -> (c: Self)
        ensures
            c.spec_entries() == entries@,
    {
        Self { entries }
    }

    pub fn len(&self) -> (n: usize)
        ensures
            n == self.spec_entries().len(),
    {
        self.entries.len()
    }

    pub fn is_empty(&self) -> (b: bool)
        ensures
            b == (self.spec_entries().len() == 0),
    {
        self.entries.len() == 0
    }

    /// Answers one text request into `output`.
    pub fn dispatch<'out>(&self, input: &str, output: &'out mut [u8]) -> (r: Result<
        &'out [u8],
        ApiDispatchError,
    >)
        ensures
            spec_answers(
                r,
                spec_dispatch(self.spec_entries(), input.spec_bytes()),
                old(output)@,
                final(output)@,
            ),
    {
        match parse_request(input) {
            Err(e) => Err(ApiDispatchError::Parse(e)),
            Ok(ApiRequest::Get { name }) => self.read_name(name, output),
            Ok(ApiRequest::Assign { name, .. }) => {
                if self.find(name).is_some() {
                    Err(ApiDispatchError::ReadOnly)
                } else {
                    Err(ApiDispatchError::UnknownName)
                }
            },
            Ok(ApiRequest::NameAt { index }) => self.name_at(index, output),
        }
    }

    /// Writes the text of the value named `name`.
    pub fn read<'out>(&self, name: &str, output: &'out mut [u8]) -> (r: Result<
        &'out [u8],
        ApiDispatchError,
    >)
        ensures
            spec_answers(
                r,
                spec_read(self.spec_entries(), name.spec_bytes()),
                old(output)@,
                final(output)@,
            ),
    {
        self.read_name(name.as_bytes(), output)
    }

    fn read_name<'out>(&self, name: &[u8], output: &'out mut [u8]) -> (r: Result<
        &'out [u8],
        ApiDispatchError,
    >)
        ensures
            spec_answers(r, spec_read(self.spec_entries(), name@), old(output)@, final(output)@),
    {
        match self.find(name) {
            None => Err(ApiDispatchError::UnknownName),
            Some(entry) => format_value(entry.value, output),
        }
    }

    /// Writes the `index`-th name.
    pub fn name_at<'out>(&self, index: u16, output: &'out mut [u8]) -> (r: Result<
        &'out [u8],
        ApiDispatchError,
    >)
        ensures
            spec_answers(r, spec_name_at(self.spec_entries(), index), old(output)@, final(output)@),
    {
        if index as usize >= self.entries.len() {
            return Err(ApiDispatchError::NameIndexOutOfRange);
        }
        let entry = self.entries[index as usize];
        let mut text: Vec<u8> = Vec::new();
        push_bytes(&mut text, entry.name.as_bytes());
        let mut pieces: Vec<Vec<u8>> = Vec::new();
        pieces.push(text);
        assert(pieces@.map_values(|x: Vec<u8>| x@) =~= seq![entry.name.spec_bytes()]);
        write_pieces(&pieces, output)
    }

    /// The first entry called `name`.
    fn find(&self, name: &[u8]) -> (r: Option<ApiEntry<'a>>)
        ensures
            match spec_find_entry(self.spec_entries(), name@) {
                None => r is None,
                Some(i) => r == Some(self.spec_entries()[i]),
            },
    {
        let mut i: usize = 0;
        while i < self.entries.len()
            invariant
                i <= self.entries@.len(),
                forall|j: int| 0 <= j < i ==> self.entries@[j].name.spec_bytes() != name@,
            decreases self.entries@.len() - i,
        {
            let entry = self.entries[i];
            if bytes_eq(entry.name.as_bytes(), name) {
                proof {
                    let c = choose|c: int|
                        0 <= c < self.entries@.len() && self.entries@[c].name.spec_bytes() == name@
                            && forall|j: int|
                            0 <= j < c ==> self.entries@[j].name.spec_bytes() != name@;
                    assert(0 <= i < self.entries@.len() && self.entries@[i as int].name.spec_bytes()
                        == name@);
                    if c > i {
                        assert(self.entries@[i as int].name.spec_bytes() != name@);
                    }
                }
                return Some(entry);
            }
            i = i + 1;
        }
        None
    }
}

} // verus!
