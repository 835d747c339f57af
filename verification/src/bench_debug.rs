use vstd::prelude::*;
use vstd::string::StringSliceAdditionalSpecFns;
use vstd::utf8::{encode_utf8, valid_utf8};

use crate::benchmark::BenchmarkReport;
use crate::decimal::{lemma_decimal_shape, push_decimal_u64, spec_decimal};
use crate::le_bytes::push_bytes;
use crate::protocol::{BenchmarkPacket, DecodeError, BENCHMARK_PACKET_LEN};
use crate::text::{ascii_string, spec_is_ascii_bytes, utf8_string};
use crate::text_api::bytes_eq;
use crate::usb_device::{hex_digit, spec_hex, spec_hex_digit};

verus! {

/// The name printed in the first column of the run statistics.
pub const DEFAULT_NAME: &'static str = "rust_debug";
/// The only target device the J-Link helper supports.
pub const DEFAULT_DEVICE: &'static str = "STM32G474RE";
pub const DEFAULT_ADDRESS: u32 = 0x2000_0000;
pub const DEFAULT_SPEED_KHZ: u32 = 4_000;

/// `name, max_fast_loop_cycles, max_fast_loop_period, max_main_loop_cycles, max_main_loop_period, mean_fast_loop_cycles, mean_fast_loop_period, mean_main_loop_cycles, mean_main_loop_period\n`
pub const RUN_STATS_HEADER: [u8; 185] = [110, 97, 109, 101, 44, 32, 109, 97, 120, 95, 102, 97, 115, 116, 95, 108, 111, 111, 112, 95, 99, 121, 99, 108, 101, 115, 44, 32, 109, 97, 120, 95, 102, 97, 115, 116, 95, 108, 111, 111, 112, 95, 112, 101, 114, 105, 111, 100, 44, 32, 109, 97, 120, 95, 109, 97, 105, 110, 95, 108, 111, 111, 112, 95, 99, 121, 99, 108, 101, 115, 44, 32, 109, 97, 120, 95, 109, 97, 105, 110, 95, 108, 111, 111, 112, 95, 112, 101, 114, 105, 111, 100, 44, 32, 109, 101, 97, 110, 95, 102, 97, 115, 116, 95, 108, 111, 111, 112, 95, 99, 121, 99, 108, 101, 115, 44, 32, 109, 101, 97, 110, 95, 102, 97, 115, 116, 95, 108, 111, 111, 112, 95, 112, 101, 114, 105, 111, 100, 44, 32, 109, 101, 97, 110, 95, 109, 97, 105, 110, 95, 108, 111, 111, 112, 95, 99, 121, 99, 108, 101, 115, 44, 32, 109, 101, 97, 110, 95, 109, 97, 105, 110, 95, 108, 111, 111, 112, 95, 112, 101, 114, 105, 111, 100, 10];
/// `device `
pub const SCRIPT_DEVICE: [u8; 7] = [100, 101, 118, 105, 99, 101, 32];
/// `\nif SWD\nspeed `
pub const SCRIPT_SPEED: [u8; 14] = [10, 105, 102, 32, 83, 87, 68, 10, 115, 112, 101, 101, 100, 32];
/// `\nconnect\nmem8 0x`
pub const SCRIPT_MEM8: [u8; 16] = [10, 99, 111, 110, 110, 101, 99, 116, 10, 109, 101, 109, 56, 32, 48, 120];
/// `\nexit\n`
pub const SCRIPT_EXIT: [u8; 6] = [10, 101, 120, 105, 116, 10];
/// `--address`
pub const ADDRESS_FLAG: [u8; 9] = [45, 45, 97, 100, 100, 114, 101, 115, 115];
/// `--speed`
pub const SPEED_FLAG: [u8; 7] = [45, 45, 115, 112, 101, 101, 100];
/// `--device`
pub const DEVICE_FLAG: [u8; 8] = [45, 45, 100, 101, 118, 105, 99, 101];
/// `STM32G474RE`
pub const DEFAULT_DEVICE_BYTES: [u8; 11] = [83, 84, 77, 51, 50, 71, 52, 55, 52, 82, 69];
/// ` requires a value`
pub const REQUIRES_A_VALUE: [u8; 17] = [32, 114, 101, 113, 117, 105, 114, 101, 115, 32, 97, 32, 118, 97, 108, 117, 101];
/// `invalid `
pub const INVALID_PREFIX: [u8; 8] = [105, 110, 118, 97, 108, 105, 100, 32];
/// ` value ``
pub const VALUE_QUOTE: [u8; 8] = [32, 118, 97, 108, 117, 101, 32, 96];
/// `unsupported device ``
pub const UNSUPPORTED_DEVICE: [u8; 20] = [117, 110, 115, 117, 112, 112, 111, 114, 116, 101, 100, 32, 100, 101, 118, 105, 99, 101, 32, 96];
/// ``; this helper currently supports `STM32G474RE``
pub const SUPPORTED_DEVICE_TAIL: [u8; 47] = [96, 59, 32, 116, 104, 105, 115, 32, 104, 101, 108, 112, 101, 114, 32, 99, 117, 114, 114, 101, 110, 116, 108, 121, 32, 115, 117, 112, 112, 111, 114, 116, 115, 32, 96, 83, 84, 77, 51, 50, 71, 52, 55, 52, 82, 69, 96];
/// `unknown option ``
pub const UNKNOWN_OPTION: [u8; 16] = [117, 110, 107, 110, 111, 119, 110, 32, 111, 112, 116, 105, 111, 110, 32, 96];
/// `expected `
pub const EXPECTED_PREFIX: [u8; 9] = [101, 120, 112, 101, 99, 116, 101, 100, 32];
/// ` bytes, got `
pub const BYTES_GOT: [u8; 12] = [32, 98, 121, 116, 101, 115, 44, 32, 103, 111, 116, 32];
/// `decode failed: `
pub const DECODE_FAILED: [u8; 15] = [100, 101, 99, 111, 100, 101, 32, 102, 97, 105, 108, 101, 100, 58, 32];
/// `J-Link output contained `
pub const JLINK_CONTAINED: [u8; 24] = [74, 45, 76, 105, 110, 107, 32, 111, 117, 116, 112, 117, 116, 32, 99, 111, 110, 116, 97, 105, 110, 101, 100, 32];
/// ` benchmark bytes, expected `
pub const JLINK_EXPECTED: [u8; 27] = [32, 98, 101, 110, 99, 104, 109, 97, 114, 107, 32, 98, 121, 116, 101, 115, 44, 32, 101, 120, 112, 101, 99, 116, 101, 100, 32];
/// `hex token ``
pub const HEX_TOKEN: [u8; 11] = [104, 101, 120, 32, 116, 111, 107, 101, 110, 32, 96];
/// `` has an odd number of digits`
pub const ODD_DIGITS: [u8; 29] = [96, 32, 104, 97, 115, 32, 97, 110, 32, 111, 100, 100, 32, 110, 117, 109, 98, 101, 114, 32, 111, 102, 32, 100, 105, 103, 105, 116, 115];
/// `invalid hex byte ``
pub const INVALID_HEX_BYTE: [u8; 18] = [105, 110, 118, 97, 108, 105, 100, 32, 104, 101, 120, 32, 98, 121, 116, 101, 32, 96];

/// `InvalidLength`
pub const INVALID_LENGTH_NAME: [u8; 13] = [73, 110, 118, 97, 108, 105, 100, 76, 101, 110, 103, 116, 104];
/// `usage:\n  obot-bench-debug decode-hex <81 packet bytes as hex>\n  obot-bench-debug decode-file <path-to-raw-81-byte-packet>\n  obot-bench-debug jlink-script [--address 0x20000000] [--speed 4000]\n  obot-bench-debug read-jlink [--address 0x20000000] [--speed 4000]\n`
pub const USAGE: [u8; 260] = [117, 115, 97, 103, 101, 58, 10, 32, 32, 111, 98, 111, 116, 45, 98, 101, 110, 99, 104, 45, 100, 101, 98, 117, 103, 32, 100, 101, 99, 111, 100, 101, 45, 104, 101, 120, 32, 60, 56, 49, 32, 112, 97, 99, 107, 101, 116, 32, 98, 121, 116, 101, 115, 32, 97, 115, 32, 104, 101, 120, 62, 10, 32, 32, 111, 98, 111, 116, 45, 98, 101, 110, 99, 104, 45, 100, 101, 98, 117, 103, 32, 100, 101, 99, 111, 100, 101, 45, 102, 105, 108, 101, 32, 60, 112, 97, 116, 104, 45, 116, 111, 45, 114, 97, 119, 45, 56, 49, 45, 98, 121, 116, 101, 45, 112, 97, 99, 107, 101, 116, 62, 10, 32, 32, 111, 98, 111, 116, 45, 98, 101, 110, 99, 104, 45, 100, 101, 98, 117, 103, 32, 106, 108, 105, 110, 107, 45, 115, 99, 114, 105, 112, 116, 32, 91, 45, 45, 97, 100, 100, 114, 101, 115, 115, 32, 48, 120, 50, 48, 48, 48, 48, 48, 48, 48, 93, 32, 91, 45, 45, 115, 112, 101, 101, 100, 32, 52, 48, 48, 48, 93, 10, 32, 32, 111, 98, 111, 116, 45, 98, 101, 110, 99, 104, 45, 100, 101, 98, 117, 103, 32, 114, 101, 97, 100, 45, 106, 108, 105, 110, 107, 32, 91, 45, 45, 97, 100, 100, 114, 101, 115, 115, 32, 48, 120, 50, 48, 48, 48, 48, 48, 48, 48, 93, 32, 91, 45, 45, 115, 112, 101, 101, 100, 32, 52, 48, 48, 48, 93, 10];

/// `", "`
pub open spec fn spec_sep() -> Seq<u8> {
    seq![44u8, 32u8]
}

/// The fixed texts are ASCII.
pub(crate) proof fn lemma_texts_ascii()
    ensures
        spec_is_ascii_bytes(RUN_STATS_HEADER@),
        spec_is_ascii_bytes(SCRIPT_DEVICE@),
        spec_is_ascii_bytes(SCRIPT_SPEED@),
        spec_is_ascii_bytes(SCRIPT_MEM8@),
        spec_is_ascii_bytes(SCRIPT_EXIT@),
        spec_is_ascii_bytes(ADDRESS_FLAG@),
        spec_is_ascii_bytes(SPEED_FLAG@),
        spec_is_ascii_bytes(DEVICE_FLAG@),
        spec_is_ascii_bytes(DEFAULT_DEVICE_BYTES@),
        spec_is_ascii_bytes(REQUIRES_A_VALUE@),
        spec_is_ascii_bytes(INVALID_PREFIX@),
        spec_is_ascii_bytes(VALUE_QUOTE@),
        spec_is_ascii_bytes(UNSUPPORTED_DEVICE@),
        spec_is_ascii_bytes(SUPPORTED_DEVICE_TAIL@),
        spec_is_ascii_bytes(UNKNOWN_OPTION@),
        spec_is_ascii_bytes(EXPECTED_PREFIX@),
        spec_is_ascii_bytes(BYTES_GOT@),
        spec_is_ascii_bytes(DECODE_FAILED@),
        spec_is_ascii_bytes(JLINK_CONTAINED@),
        spec_is_ascii_bytes(JLINK_EXPECTED@),
        spec_is_ascii_bytes(HEX_TOKEN@),
        spec_is_ascii_bytes(ODD_DIGITS@),
        spec_is_ascii_bytes(INVALID_HEX_BYTE@),
        spec_is_ascii_bytes(INVALID_LENGTH_NAME@),
        spec_is_ascii_bytes(USAGE@),
{
}

proof fn lemma_ascii_concat(a: Seq<u8>, b: Seq<u8>)
    requires
        spec_is_ascii_bytes(a),
        spec_is_ascii_bytes(b),
    ensures
        spec_is_ascii_bytes(a + b),
{
    assert forall|i: int| 0 <= i < (a + b).len() implies (a + b)[i] < 128 by {
        if i < a.len() {
            assert((a + b)[i] == a[i]);
        } else {
            assert((a + b)[i] == b[i - a.len()]);
        }
    }
}

proof fn lemma_decimal_ascii(n: nat)
    ensures
        spec_is_ascii_bytes(spec_decimal(n)),
{
    lemma_decimal_shape(n);
}

/// ASCII text and valid UTF-8 text together are valid UTF-8.
proof fn lemma_valid_concat(a: Seq<u8>, b: Seq<u8>)
    requires
        valid_utf8(a),
        valid_utf8(b),
    ensures
        valid_utf8(a + b),
{
    vstd::utf8::valid_utf8_concat(a, b);
}

/// Up to three decimals of a nonzero fraction `f` of a thousand, without
/// trailing zeros.
pub open spec fn spec_fraction_digits(f: nat) -> Seq<u8> {
    let d = seq![(48 + f / 100) as u8, (48 + (f / 10) % 10) as u8, (48 + f % 10) as u8];
    if f % 100 == 0 {
        d.subrange(0, 1)
    } else if f % 10 == 0 {
        d.subrange(0, 2)
    } else {
        d
    }
}

/// A count of thousandths as a decimal number: the whole part, then, when
/// there is a fraction, a point and its digits without trailing zeros.
pub open spec fn spec_milli_text(value: nat) -> Seq<u8> {
    if value % 1000 == 0 {
        spec_decimal(value / 1000)
    } else {
        spec_decimal(value / 1000) + seq![46u8] + spec_fraction_digits(value % 1000)
    }
}

/// A count of thousandths reads back from its text: the whole part in
/// decimal and, only when there is a fraction, a point and one to three
/// digits, the last of them not zero, that spell the fraction as tenths,
/// hundredths and thousandths.
pub proof fn lemma_milli_text_reads_back(value: nat)
    ensures
        value % 1000 == 0 ==> spec_milli_text(value) == spec_decimal(value / 1000),
        value % 1000 != 0 ==> {
            let f = spec_fraction_digits(value % 1000);
            let tenths = f[0] - 48;
            let hundredths = if f.len() >= 2 {
                f[1] - 48
            } else {
                0
            };
            let thousandths = if f.len() == 3 {
                f[2] - 48
            } else {
                0
            };
            &&& spec_milli_text(value) == spec_decimal(value / 1000) + seq![46u8] + f
            &&& 1 <= f.len() <= 3
            &&& forall|i: int| 0 <= i < f.len() ==> 48 <= #[trigger] f[i] <= 57
            &&& f[f.len() - 1] != 48
            &&& tenths * 100 + hundredths * 10 + thousandths == value % 1000
        },
{
}

proof fn lemma_milli_ascii(value: nat)
    ensures
        spec_is_ascii_bytes(spec_milli_text(value)),
{
    lemma_decimal_ascii(value / 1000);
    let f = value % 1000;
    if f != 0 {
        let d = spec_fraction_digits(f);
        assert(spec_is_ascii_bytes(d));
        lemma_ascii_concat(spec_decimal(value / 1000), seq![46u8]);
        lemma_ascii_concat(spec_decimal(value / 1000) + seq![46u8], d);
    }
}

fn push_milli_text(out: &mut Vec<u8>, value: u64)
    ensures
        final(out)@ == old(out)@ + spec_milli_text(value as nat),
{
    let ghost before = out@;
    push_decimal_u64(out, value / 1000);
    let f = value % 1000;
    if f != 0 {
        out.push(46);
        out.push(48 + (f / 100) as u8);
        if f % 100 != 0 {
            out.push(48 + ((f / 10) % 10) as u8);
            if f % 10 != 0 {
                out.push(48 + (f % 10) as u8);
            }
        }
        assert(out@ =~= before + spec_milli_text(value as nat));
    }
}

/// A thousandths count as the run statistics print it.
pub fn format_milli_cycles(value: u64) -> (s: String)
    ensures
        encode_utf8(s@) == spec_milli_text(value as nat),
{
    let mut out: Vec<u8> = Vec::new();
    push_milli_text(&mut out, value);
    proof {
        assert(out@ =~= spec_milli_text(value as nat));
        lemma_milli_ascii(value as nat);
    }
    ascii_string(out)
}

/// The values after the name in the run statistics row, each preceded by
/// `", "`, and the closing newline.
pub open spec fn spec_run_stats_values(r: BenchmarkReport) -> Seq<u8> {
    spec_sep() + spec_decimal(r.fast.execution.max_cycles as nat) + spec_sep() + spec_decimal(
        r.fast.period.max_cycles as nat,
    ) + spec_sep() + spec_decimal(r.main.execution.max_cycles as nat) + spec_sep() + spec_decimal(
        r.main.period.max_cycles as nat,
    ) + spec_sep() + spec_milli_text(r.fast.execution.mean_milli_cycles as nat) + spec_sep()
        + spec_milli_text(r.fast.period.mean_milli_cycles as nat) + spec_sep() + spec_milli_text(
        r.main.execution.mean_milli_cycles as nat,
    ) + spec_sep() + spec_milli_text(r.main.period.mean_milli_cycles as nat) + seq![10u8]
}

/// The run statistics as a header line and one row: the name, the four
/// maxima (fast loop execution and period, main loop execution and period)
/// and the four means in the same order.
pub open spec fn spec_run_stats_csv(name: Seq<u8>, r: BenchmarkReport) -> Seq<u8> {
    RUN_STATS_HEADER@ + name + spec_run_stats_values(r)
}

fn push_sep(out: &mut Vec<u8>)
    ensures
        final(out)@ == old(out)@ + spec_sep(),
{
    out.push(44);
    out.push(32);
    assert(out@ =~= old(out)@ + spec_sep());
}

fn run_stats_values(r: BenchmarkReport) -> (v: Vec<u8>)
    ensures
        v@ == spec_run_stats_values(r),
        spec_is_ascii_bytes(v@),
{
    let mut v: Vec<u8> = Vec::new();
    push_sep(&mut v);
    push_decimal_u64(&mut v, r.max_fast_loop_cycles() as u64);
    push_sep(&mut v);
    push_decimal_u64(&mut v, r.max_fast_loop_period_cycles() as u64);
    push_sep(&mut v);
    push_decimal_u64(&mut v, r.max_main_loop_cycles() as u64);
    push_sep(&mut v);
    push_decimal_u64(&mut v, r.max_main_loop_period_cycles() as u64);
    push_sep(&mut v);
    push_milli_text(&mut v, r.mean_fast_loop_cycles_milli_cycles());
    push_sep(&mut v);
    push_milli_text(&mut v, r.mean_fast_loop_period_milli_cycles());
    push_sep(&mut v);
    push_milli_text(&mut v, r.mean_main_loop_cycles_milli_cycles());
    push_sep(&mut v);
    push_milli_text(&mut v, r.mean_main_loop_period_milli_cycles());
    v.push(10);
    assert(v@ =~= spec_run_stats_values(r));
    proof {
        let sep = spec_sep();
        assert(spec_is_ascii_bytes(sep));
        lemma_decimal_ascii(r.fast.execution.max_cycles as nat);
        lemma_decimal_ascii(r.fast.period.max_cycles as nat);
        lemma_decimal_ascii(r.main.execution.max_cycles as nat);
        lemma_decimal_ascii(r.main.period.max_cycles as nat);
        lemma_milli_ascii(r.fast.execution.mean_milli_cycles as nat);
        lemma_milli_ascii(r.fast.period.mean_milli_cycles as nat);
        lemma_milli_ascii(r.main.execution.mean_milli_cycles as nat);
        lemma_milli_ascii(r.main.period.mean_milli_cycles as nat);
        assert forall|i: int| 0 <= i < v@.len() implies v@[i] < 128 by {
            assert(v@[i] == spec_run_stats_values(r)[i]);
        }
    }
    v
}

/// The run statistics of `packet` in the layout of the motor tool's
/// `--run-stats`, labelled `name`.
pub fn format_run_stats_csv(name: &str, packet: BenchmarkPacket) -> (s: String)
    ensures
        encode_utf8(s@) == spec_run_stats_csv(name.spec_bytes(), packet.report),
{
    let mut out: Vec<u8> = Vec::new();
    push_bytes(&mut out, &RUN_STATS_HEADER);
    push_bytes(&mut out, name.as_bytes());
    let values = run_stats_values(packet.report);
    push_bytes(&mut out, values.as_slice());
    proof {
        lemma_texts_ascii();
        crate::text::lemma_ascii_valid_utf8(RUN_STATS_HEADER@);
        crate::text::lemma_ascii_valid_utf8(values@);
        vstd::utf8::encode_utf8_valid_utf8(name@);
        lemma_valid_concat(RUN_STATS_HEADER@, name.spec_bytes());
        lemma_valid_concat(RUN_STATS_HEADER@ + name.spec_bytes(), values@);
        assert(out@ =~= spec_run_stats_csv(name.spec_bytes(), packet.report));
    }
    utf8_string(out)
}

/// The usage text.
pub fn usage() -> (s: String)
    ensures
        encode_utf8(s@) == USAGE@,
{
    let mut out: Vec<u8> = Vec::new();
    push_bytes(&mut out, &USAGE);
    proof {
        lemma_texts_ascii();
        assert(out@ =~= USAGE@);
    }
    ascii_string(out)
}

/// The length check's message: `expected 81 bytes, got {len}`.
pub open spec fn spec_length_message(len: nat) -> Seq<u8> {
    EXPECTED_PREFIX@ + spec_decimal(BENCHMARK_PACKET_LEN as nat) + BYTES_GOT@ + spec_decimal(len)
}

/// Decodes a benchmark packet; a byte string of another length is refused
/// with a message that gives both lengths.
pub fn decode_packet(bytes: &[u8]) -> (r: Result<BenchmarkPacket, String>)
    ensures
        r is Ok <==> bytes@.len() == BENCHMARK_PACKET_LEN,
        r matches Ok(p) ==> BenchmarkPacket::spec_decode(bytes@) == Ok::<BenchmarkPacket, DecodeError>(p),
        r matches Err(e) ==> encode_utf8(e@) == spec_length_message(bytes@.len()),
{
    if bytes.len() != BENCHMARK_PACKET_LEN {
        let mut out: Vec<u8> = Vec::new();
        push_bytes(&mut out, &EXPECTED_PREFIX);
        push_decimal_u64(&mut out, BENCHMARK_PACKET_LEN as u64);
        push_bytes(&mut out, &BYTES_GOT);
        push_decimal_u64(&mut out, bytes.len() as u64);
        proof {
            lemma_texts_ascii();
            lemma_decimal_ascii(BENCHMARK_PACKET_LEN as nat);
            lemma_decimal_ascii(bytes@.len());
            let m = spec_length_message(bytes@.len());
            assert(out@ =~= m);
            lemma_ascii_concat(EXPECTED_PREFIX@, spec_decimal(BENCHMARK_PACKET_LEN as nat));
            lemma_ascii_concat(EXPECTED_PREFIX@ + spec_decimal(BENCHMARK_PACKET_LEN as nat), BYTES_GOT@);
            lemma_ascii_concat(
                EXPECTED_PREFIX@ + spec_decimal(BENCHMARK_PACKET_LEN as nat) + BYTES_GOT@,
                spec_decimal(bytes@.len()),
            );
        }
        return Err(ascii_string(out));
    }
    match BenchmarkPacket::decode(bytes) {
        Ok(p) => Ok(p),
        Err(_) => {
            // The length was checked above, and a packet of that length always decodes.
            let mut out: Vec<u8> = Vec::new();
            push_bytes(&mut out, &DECODE_FAILED);
            push_bytes(&mut out, &INVALID_LENGTH_NAME);
            proof {
                lemma_texts_ascii();
                lemma_ascii_concat(DECODE_FAILED@, INVALID_LENGTH_NAME@);
                assert(out@ =~= DECODE_FAILED@ + INVALID_LENGTH_NAME@);
            }
            Err(ascii_string(out))
        },
    }
}

/// Decodes a benchmark packet and prints its run statistics under the
/// default name.
pub fn decode_packet_csv(bytes: &[u8]) -> (r: Result<String, String>)
    ensures
        r is Ok <==> bytes@.len() == BENCHMARK_PACKET_LEN,
        r matches Ok(s) ==> (match BenchmarkPacket::spec_decode(bytes@) {
            Ok(p) => encode_utf8(s@) == spec_run_stats_csv(DEFAULT_NAME.spec_bytes(), p.report),
            Err(_) => false,
        }),
        r matches Err(e) ==> encode_utf8(e@) == spec_length_message(bytes@.len()),
{
    match decode_packet(bytes) {
        Ok(packet) => Ok(format_run_stats_csv(DEFAULT_NAME, packet)),
        Err(e) => Err(e),
    }
}

/// `n` hex digits of `v`, upper case, zero padded, most significant first.
pub open spec fn spec_hex_fixed(v: nat, n: nat) -> Seq<u8>
    decreases n,
{
    if n == 0 {
        Seq::empty()
    } else {
        spec_hex_fixed(v / 16, (n - 1) as nat).push(spec_hex_digit((v % 16) as int))
    }
}

fn hex8(value: u32) -> (d: Vec<u8>)
    ensures
        d@ == spec_hex_fixed(value as nat, 8),
        spec_is_ascii_bytes(d@),
{
    let mut digits: Vec<u8> = Vec::new();
    let mut v = value;
    let mut k: usize = 0;
    while k < 8
        invariant
            k <= 8,
            spec_hex_fixed(value as nat, 8) == spec_hex_fixed(v as nat, (8 - k) as nat) + digits@,
            spec_is_ascii_bytes(digits@),
        decreases 8 - k,
    {
        let d = hex_digit((v % 16) as u8);
        let ghost before = digits@;
        let ghost old_v = v;
        digits.insert(0, d);
        v = v / 16;
        proof {
            let n = (8 - k) as nat;
            assert(spec_hex_fixed(old_v as nat, n) == spec_hex_fixed(v as nat, (n - 1) as nat).push(
                d,
            ));
            assert(spec_hex_fixed(v as nat, (n - 1) as nat) + digits@ =~= spec_hex_fixed(
                v as nat,
                (n - 1) as nat,
            ).push(d) + before);
            assert forall|i: int| 0 <= i < digits@.len() implies digits@[i] < 128 by {
                if i > 0 {
                    assert(digits@[i] == before[i - 1]);
                }
            }
        }
        k = k + 1;
    }
    assert(spec_hex_fixed(v as nat, 0) =~= Seq::<u8>::empty());
    assert(digits@ =~= spec_hex_fixed(value as nat, 8));
    digits
}

/// Where the J-Link commander reads from: the target, the interface speed
/// in kHz and the packet address.
#[derive(Clone, Copy, Debug, PartialEq, Eq)]
pub struct JlinkOptions {
    pub address: u32,
    pub speed_khz: u32,
    pub device: &'static str,
}

/// The J-Link commander script that dumps the benchmark packet: select the
/// device over SWD at the given speed, connect, read the packet's bytes at
/// the address (eight hex digits) and exit.
pub open spec fn spec_jlink_script(device: Seq<u8>, speed_khz: u32, address: u32) -> Seq<u8> {
    SCRIPT_DEVICE@ + device + SCRIPT_SPEED@ + spec_decimal(speed_khz as nat) + SCRIPT_MEM8@
        + spec_hex_fixed(address as nat, 8) + seq![32u8] + spec_decimal(
        BENCHMARK_PACKET_LEN as nat,
    ) + SCRIPT_EXIT@
}

pub fn jlink_script(options: &JlinkOptions) -> (s: String)
    ensures
        encode_utf8(s@) == spec_jlink_script(
            options.device.spec_bytes(),
            options.speed_khz,
            options.address,
        ),
{
    let mut tail: Vec<u8> = Vec::new();
    push_bytes(&mut tail, &SCRIPT_SPEED);
    push_decimal_u64(&mut tail, options.speed_khz as u64);
    push_bytes(&mut tail, &SCRIPT_MEM8);
    let hex = hex8(options.address);
    push_bytes(&mut tail, hex.as_slice());
    tail.push(32);
    push_decimal_u64(&mut tail, BENCHMARK_PACKET_LEN as u64);
    push_bytes(&mut tail, &SCRIPT_EXIT);
    let ghost t = SCRIPT_SPEED@ + spec_decimal(options.speed_khz as nat) + SCRIPT_MEM8@
        + spec_hex_fixed(options.address as nat, 8) + seq![32u8] + spec_decimal(
        BENCHMARK_PACKET_LEN as nat,
    ) + SCRIPT_EXIT@;
    assert(tail@ =~= t);
    let mut out: Vec<u8> = Vec::new();
    push_bytes(&mut out, &SCRIPT_DEVICE);
    push_bytes(&mut out, options.device.as_bytes());
    push_bytes(&mut out, tail.as_slice());
    proof {
        lemma_texts_ascii();
        lemma_decimal_ascii(options.speed_khz as nat);
        lemma_decimal_ascii(BENCHMARK_PACKET_LEN as nat);
        let s1 = SCRIPT_SPEED@ + spec_decimal(options.speed_khz as nat);
        lemma_ascii_concat(SCRIPT_SPEED@, spec_decimal(options.speed_khz as nat));
        lemma_ascii_concat(s1, SCRIPT_MEM8@);
        lemma_ascii_concat(s1 + SCRIPT_MEM8@, spec_hex_fixed(options.address as nat, 8));
        let s2 = s1 + SCRIPT_MEM8@ + spec_hex_fixed(options.address as nat, 8);
        lemma_ascii_concat(s2, seq![32u8]);
        lemma_ascii_concat(s2 + seq![32u8], spec_decimal(BENCHMARK_PACKET_LEN as nat));
        lemma_ascii_concat(
            s2 + seq![32u8] + spec_decimal(BENCHMARK_PACKET_LEN as nat),
            SCRIPT_EXIT@,
        );
        crate::text::lemma_ascii_valid_utf8(SCRIPT_DEVICE@);
        crate::text::lemma_ascii_valid_utf8(t);
        vstd::utf8::encode_utf8_valid_utf8(options.device@);
        lemma_valid_concat(SCRIPT_DEVICE@, options.device.spec_bytes());
        lemma_valid_concat(SCRIPT_DEVICE@ + options.device.spec_bytes(), t);
        assert(out@ =~= spec_jlink_script(
            options.device.spec_bytes(),
            options.speed_khz,
            options.address,
        ));
    }
    utf8_string(out)
}

/// The value of `b` as a digit in base `radix` (10 or 16), if it is one.
pub open spec fn spec_digit_value(b: u8, radix: u32) -> Option<nat> {
    if 48 <= b <= 57 && b - 48 < radix {
        Some((b - 48) as nat)
    } else if radix == 16 && 97 <= b <= 102 {
        Some((b - 87) as nat)
    } else if radix == 16 && 65 <= b <= 70 {
        Some((b - 55) as nat)
    } else {
        None
    }
}

/// Every byte of `s` is a digit in base `radix`.
pub open spec fn spec_all_digits(s: Seq<u8>, radix: u32) -> bool {
    forall|i: int| 0 <= i < s.len() ==> (#[trigger] spec_digit_value(s[i], radix)) is Some
}

/// The number that the digits `s` spell in base `radix`.
pub open spec fn spec_radix_value(s: Seq<u8>, radix: u32) -> nat
    decreases s.len(),
{
    if s.len() == 0 {
        0
    } else {
        spec_radix_value(s.drop_last(), radix) * (radix as nat) + match spec_digit_value(
            s.last(),
            radix,
        ) {
            Some(d) => d,
            None => 0,
        }
    }
}

/// What `u32::from_str_radix` accepts: an optional `+`, then at least one
/// digit, spelling a value that fits 32 bits.
pub open spec fn spec_u32_from_radix(s: Seq<u8>, radix: u32) -> Option<u32> {
    let d = if s.len() > 0 && s[0] == 43 {
        s.subrange(1, s.len() as int)
    } else {
        s
    };
    if d.len() > 0 && spec_all_digits(d, radix) && spec_radix_value(d, radix) <= u32::MAX {
        Some(spec_radix_value(d, radix) as u32)
    } else {
        None
    }
}

/// A number given in hex after `0x` or `0X`, else in decimal.
pub open spec fn spec_parse_u32(s: Seq<u8>) -> Option<u32> {
    if s.len() >= 2 && s[0] == 48 && (s[1] == 120 || s[1] == 88) {
        spec_u32_from_radix(s.subrange(2, s.len() as int), 16)
    } else {
        spec_u32_from_radix(s, 10)
    }
}

proof fn lemma_radix_value_prefix(s: Seq<u8>, radix: u32, k: int)
    requires
        0 <= k <= s.len(),
        radix >= 1,
    ensures
        spec_radix_value(s.subrange(0, k), radix) <= spec_radix_value(s, radix),
    decreases s.len() - k,
{
    if k < s.len() {
        lemma_radix_value_prefix(s, radix, k + 1);
        let p = s.subrange(0, k + 1);
        assert(p.drop_last() =~= s.subrange(0, k));
        let a = spec_radix_value(s.subrange(0, k), radix);
        assert(a * radix >= a) by (nonlinear_arith)
            requires
                radix >= 1,
        ;
    } else {
        assert(s.subrange(0, k) =~= s);
    }
}

/// The decimal digits of `n` are base-10 digits that spell `n`.
pub proof fn lemma_decimal_radix_value(n: nat)
    ensures
        spec_all_digits(spec_decimal(n), 10),
        spec_radix_value(spec_decimal(n), 10) == n,
    decreases n,
{
    lemma_decimal_shape(n);
    let s = spec_decimal(n);
    assert forall|i: int| 0 <= i < s.len() implies (#[trigger] spec_digit_value(s[i], 10)) is Some by {
        assert(48 <= s[i] <= 57);
    }
    if n >= 10 {
        lemma_decimal_radix_value(n / 10);
        assert(s.drop_last() =~= spec_decimal(n / 10));
        assert(s.last() == 48 + n % 10);
        assert(spec_radix_value(s, 10) == spec_radix_value(s.drop_last(), 10) * 10 + n % 10);
    } else {
        assert(s.drop_last() =~= Seq::<u8>::empty());
        assert(s.last() == 48 + n);
        assert(spec_radix_value(s, 10) == spec_radix_value(s.drop_last(), 10) * 10 + n);
    }
}

/// The upper-case hex digits of `n` are a non-empty string of base-16
/// digits that spells `n`.
pub proof fn lemma_hex_radix_value(n: nat)
    ensures
        spec_hex(n).len() >= 1,
        spec_all_digits(spec_hex(n), 16),
        spec_radix_value(spec_hex(n), 16) == n,
    decreases n,
{
    let s = spec_hex(n);
    if n >= 16 {
        lemma_hex_radix_value(n / 16);
        assert(s.drop_last() =~= spec_hex(n / 16));
        assert(spec_digit_value(s.last(), 16) == Some((n % 16) as nat));
        assert(spec_radix_value(s, 16) == spec_radix_value(s.drop_last(), 16) * 16 + n % 16);
        assert forall|i: int| 0 <= i < s.len() implies (#[trigger] spec_digit_value(s[i], 16)) is Some by {
            if i < s.len() - 1 {
                assert(s[i] == spec_hex(n / 16)[i]);
            }
        }
    } else {
        assert(s.drop_last() =~= Seq::<u8>::empty());
        assert(spec_digit_value(s.last(), 16) == Some(n));
        assert(spec_radix_value(s, 16) == spec_radix_value(s.drop_last(), 16) * 16 + n);
    }
}

/// Every 32-bit number, written in upper-case hex after `0x`, is read back
/// as itself.
pub proof fn lemma_parse_u32_reads_hex(n: u32)
    ensures
        spec_parse_u32(seq![48u8, 120u8] + spec_hex(n as nat)) == Some(n),
{
    let h = spec_hex(n as nat);
    let s = seq![48u8, 120u8] + h;
    lemma_hex_radix_value(n as nat);
    assert(s.subrange(2, s.len() as int) =~= h);
    assert(h[0] != 43) by {
        assert(spec_digit_value(h[0], 16) is Some);
    }
}

/// Every 32-bit number, written in decimal, is read back as itself.
pub proof fn lemma_parse_u32_reads_decimal(n: u32)
    ensures
        spec_parse_u32(spec_decimal(n as nat)) == Some(n),
{
    let s = spec_decimal(n as nat);
    lemma_decimal_radix_value(n as nat);
    lemma_decimal_shape(n as nat);
    assert(s[0] != 43);
    if s.len() >= 2 {
        assert(s[1] != 120 && s[1] != 88);
    }
}

pub(crate) fn digit_value(b: u8, radix: u32) -> (r: Option<u32>)
    requires
        radix == 10 || radix == 16,
    ensures
        match spec_digit_value(b, radix) {
            Some(d) => r == Some(d as u32),
            None => r is None,
        },
{
    if 48 <= b && b <= 57 && ((b - 48) as u32) < radix {
        Some((b - 48) as u32)
    } else if radix == 16 && 97 <= b && b <= 102 {
        Some((b - 87) as u32)
    } else if radix == 16 && 65 <= b && b <= 70 {
        Some((b - 55) as u32)
    } else {
        None
    }
}

fn u32_from_radix(s: &[u8], radix: u32) -> (r: Option<u32>)
    requires
        radix == 10 || radix == 16,
    ensures
        r == spec_u32_from_radix(s@, radix),
{
    let start: usize = if s.len() > 0 && s[0] == 43 {
        1
    } else {
        0
    };
    let ghost d = if s@.len() > 0 && s@[0] == 43 {
        s@.subrange(1, s@.len() as int)
    } else {
        s@
    };
    assert(d =~= s@.subrange(start as int, s@.len() as int));
    if start == s.len() {
        return None;
    }
    let mut value: u32 = 0;
    let mut i: usize = start;
    while i < s.len()
        invariant
            start <= i <= s@.len(),
            start < s@.len(),
            d == s@.subrange(start as int, s@.len() as int),
            d == (if s@.len() > 0 && s@[0] == 43 {
                s@.subrange(1, s@.len() as int)
            } else {
                s@
            }),
            radix == 10 || radix == 16,
            forall|j: int| start <= j < i ==> (#[trigger] spec_digit_value(s@[j], radix)) is Some,
            value == spec_radix_value(s@.subrange(start as int, i as int), radix),
        decreases s@.len() - i,
    {
        let digit = match digit_value(s[i], radix) {
            Some(v) => v,
            None => {
                assert(spec_digit_value(d[i - start], radix) is None);
                return None;
            },
        };
        assert(s@.subrange(start as int, i + 1).drop_last() =~= s@.subrange(start as int, i as int));
        let next = match value.checked_mul(radix) {
            Some(v) => v.checked_add(digit),
            None => None,
        };
        match next {
            Some(v) => {
                value = v;
            },
            None => {
                proof {
                    let p = s@.subrange(start as int, i + 1);
                    assert(p =~= d.subrange(0, i + 1 - start));
                    if spec_all_digits(d, radix) {
                        lemma_radix_value_prefix(d, radix, i + 1 - start);
                    }
                }
                return None;
            },
        }
        i = i + 1;
    }
    assert(s@.subrange(start as int, i as int) =~= d);
    assert(spec_all_digits(d, radix)) by {
        assert forall|j: int| 0 <= j < d.len() implies (#[trigger] spec_digit_value(d[j], radix)) is Some by {
            assert(d[j] == s@[j + start]);
        }
    }
    Some(value)
}

/// A number given in hex after `0x` or `0X`, else in decimal.
pub fn parse_u32(value: &str) -> (r: Option<u32>)
    ensures
        r == spec_parse_u32(value.spec_bytes()),
{
    let b = value.as_bytes();
    if b.len() >= 2 && b[0] == 48 && (b[1] == 120 || b[1] == 88) {
        u32_from_radix(&b[2..b.len()], 16)
    } else {
        u32_from_radix(b, 10)
    }
}

/// A message made of an ASCII `prefix`, a piece of UTF-8 text and an ASCII
/// `suffix`.
pub(crate) fn message(prefix: &[u8], text: &[u8], suffix: &[u8]) -> (s: String)
    requires
        spec_is_ascii_bytes(prefix@),
        valid_utf8(text@),
        spec_is_ascii_bytes(suffix@),
    ensures
        encode_utf8(s@) == prefix@ + text@ + suffix@,
{
    let mut out: Vec<u8> = Vec::new();
    push_bytes(&mut out, prefix);
    push_bytes(&mut out, text);
    push_bytes(&mut out, suffix);
    proof {
        crate::text::lemma_ascii_valid_utf8(prefix@);
        crate::text::lemma_ascii_valid_utf8(suffix@);
        lemma_valid_concat(prefix@, text@);
        lemma_valid_concat(prefix@ + text@, suffix@);
        assert(out@ =~= prefix@ + text@ + suffix@);
    }
    utf8_string(out)
}

/// The UTF-8 bytes of each argument.
pub open spec fn spec_arg_bytes(args: Seq<String>) -> Seq<Seq<u8>> {
    Seq::new(args.len(), |i: int| encode_utf8(args[i]@))
}

/// The options from `args[i..]`, starting from `address` and `speed`:
/// `--address` and `--speed` take a number each, `--device` takes the one
/// supported device; a flag without its value, a bad number, another device
/// or any other argument is refused with the message given.
pub open spec fn spec_parse_jlink(args: Seq<Seq<u8>>, i: int, address: u32, speed: u32) -> Result<
    (u32, u32),
    Seq<u8>,
>
    decreases args.len() - i,
{
    if i < 0 || i >= args.len() {
        Ok((address, speed))
    } else if args[i] == ADDRESS_FLAG@ {
        if i + 1 >= args.len() {
            Err(ADDRESS_FLAG@ + REQUIRES_A_VALUE@)
        } else {
            match spec_parse_u32(args[i + 1]) {
                Some(v) => spec_parse_jlink(args, i + 2, v, speed),
                None => Err(INVALID_PREFIX@ + ADDRESS_FLAG@ + VALUE_QUOTE@ + args[i + 1] + seq![96u8]),
            }
        }
    } else if args[i] == SPEED_FLAG@ {
        if i + 1 >= args.len() {
            Err(SPEED_FLAG@ + REQUIRES_A_VALUE@)
        } else {
            match spec_parse_u32(args[i + 1]) {
                Some(v) => spec_parse_jlink(args, i + 2, address, v),
                None => Err(INVALID_PREFIX@ + SPEED_FLAG@ + VALUE_QUOTE@ + args[i + 1] + seq![96u8]),
            }
        }
    } else if args[i] == DEVICE_FLAG@ {
        if i + 1 >= args.len() {
            Err(DEVICE_FLAG@ + REQUIRES_A_VALUE@)
        } else if args[i + 1] != DEFAULT_DEVICE_BYTES@ {
            Err(UNSUPPORTED_DEVICE@ + args[i + 1] + SUPPORTED_DEVICE_TAIL@)
        } else {
            spec_parse_jlink(args, i + 2, address, speed)
        }
    } else {
        Err(UNKNOWN_OPTION@ + args[i] + seq![96u8])
    }
}

/// The message for a flag without a value.
fn missing_value(flag: &[u8]) -> (s: String)
    requires
        spec_is_ascii_bytes(flag@),
    ensures
        encode_utf8(s@) == flag@ + REQUIRES_A_VALUE@,
{
    proof {
        lemma_texts_ascii();
        crate::text::lemma_ascii_valid_utf8(Seq::<u8>::empty());
    }
    let s = message(flag, &[], &REQUIRES_A_VALUE);
    assert(flag@ + Seq::<u8>::empty() + REQUIRES_A_VALUE@ =~= flag@ + REQUIRES_A_VALUE@);
    s
}

/// The message for a flag whose value is not a number.
fn invalid_value(flag: &[u8], value: &str) -> (s: String)
    requires
        spec_is_ascii_bytes(flag@),
    ensures
        encode_utf8(s@) == INVALID_PREFIX@ + flag@ + VALUE_QUOTE@ + value.spec_bytes() + seq![96u8],
{
    let mut prefix: Vec<u8> = Vec::new();
    push_bytes(&mut prefix, &INVALID_PREFIX);
    push_bytes(&mut prefix, flag);
    push_bytes(&mut prefix, &VALUE_QUOTE);
    proof {
        lemma_texts_ascii();
        lemma_ascii_concat(INVALID_PREFIX@, flag@);
        lemma_ascii_concat(INVALID_PREFIX@ + flag@, VALUE_QUOTE@);
        assert(prefix@ =~= INVALID_PREFIX@ + flag@ + VALUE_QUOTE@);
        vstd::utf8::encode_utf8_valid_utf8(value@);
        assert(spec_is_ascii_bytes(seq![96u8]));
    }
    let tick: [u8; 1] = [96];
    assert(tick@ =~= seq![96u8]);
    message(prefix.as_slice(), value.as_bytes(), &tick)
}

impl JlinkOptions {
    /// The options given on the command line; unset ones keep their
    /// defaults.
    pub fn parse(args: &[String]) -> (r: Result<Self, String>)
        ensures
            match r {
                Ok(o) => spec_parse_jlink(spec_arg_bytes(args@), 0, DEFAULT_ADDRESS, DEFAULT_SPEED_KHZ)
                    == Ok::<(u32, u32), Seq<u8>>((o.address, o.speed_khz)) && o.device
                    == DEFAULT_DEVICE,
                Err(e) => spec_parse_jlink(
                    spec_arg_bytes(args@),
                    0,
                    DEFAULT_ADDRESS,
                    DEFAULT_SPEED_KHZ,
                ) == Err::<(u32, u32), Seq<u8>>(encode_utf8(e@)),
            },
    {
        let ghost a = spec_arg_bytes(args@);
        let mut address = DEFAULT_ADDRESS;
        let mut speed = DEFAULT_SPEED_KHZ;
        let mut index: usize = 0;
        proof {
            lemma_texts_ascii();
        }
        while index < args.len()
            invariant
                index <= args@.len(),
                a == spec_arg_bytes(args@),
                spec_parse_jlink(a, 0, DEFAULT_ADDRESS, DEFAULT_SPEED_KHZ) == spec_parse_jlink(
                    a,
                    index as int,
                    address,
                    speed,
                ),
                spec_is_ascii_bytes(ADDRESS_FLAG@),
                spec_is_ascii_bytes(SPEED_FLAG@),
                spec_is_ascii_bytes(DEVICE_FLAG@),
                spec_is_ascii_bytes(UNSUPPORTED_DEVICE@),
                spec_is_ascii_bytes(SUPPORTED_DEVICE_TAIL@),
                spec_is_ascii_bytes(UNKNOWN_OPTION@),
            decreases args@.len() - index,
        {
            let arg = args[index].as_str();
            let arg_bytes = arg.as_bytes();
            assert(arg_bytes@ == a[index as int]);
            if bytes_eq(arg_bytes, &ADDRESS_FLAG) {
                if index + 1 >= args.len() {
                    return Err(missing_value(&ADDRESS_FLAG));
                }
                let value = args[index + 1].as_str();
                assert(value.spec_bytes() == a[index + 1]);
                match parse_u32(value) {
                    Some(v) => {
                        address = v;
                    },
                    None => {
                        return Err(invalid_value(&ADDRESS_FLAG, value));
                    },
                }
                index = index + 2;
            } else if bytes_eq(arg_bytes, &SPEED_FLAG) {
                if index + 1 >= args.len() {
                    return Err(missing_value(&SPEED_FLAG));
                }
                let value = args[index + 1].as_str();
                assert(value.spec_bytes() == a[index + 1]);
                match parse_u32(value) {
                    Some(v) => {
                        speed = v;
                    },
                    None => {
                        return Err(invalid_value(&SPEED_FLAG, value));
                    },
                }
                index = index + 2;
            } else if bytes_eq(arg_bytes, &DEVICE_FLAG) {
                if index + 1 >= args.len() {
                    return Err(missing_value(&DEVICE_FLAG));
                }
                let device = args[index + 1].as_str().as_bytes();
                assert(device@ == a[index + 1]);
                if !bytes_eq(device, &DEFAULT_DEVICE_BYTES) {
                    proof {
                        vstd::utf8::encode_utf8_valid_utf8(args@[index + 1]@);
                    }
                    return Err(message(&UNSUPPORTED_DEVICE, device, &SUPPORTED_DEVICE_TAIL));
                }
                index = index + 2;
            } else {
                proof {
                    vstd::utf8::encode_utf8_valid_utf8(args@[index as int]@);
                    assert(spec_is_ascii_bytes(seq![96u8]));
                }
                let tick: [u8; 1] = [96];
                assert(tick@ =~= seq![96u8]);
                return Err(message(&UNKNOWN_OPTION, arg_bytes, &tick));
            }
        }
        Ok(JlinkOptions { address, speed_khz: speed, device: DEFAULT_DEVICE })
    }
}

/// The whitespace that separates the byte columns of the J-Link dump.
pub open spec fn spec_is_ascii_ws(b: u8) -> bool {
    b == 32 || b == 9 || b == 10 || b == 12 || b == 13
}

pub open spec fn spec_is_hex(b: u8) -> bool {
    spec_digit_value(b, 16) is Some
}

/// `t` without its leading non-hex bytes.
pub open spec fn spec_trim_start_nonhex(t: Seq<u8>) -> Seq<u8>
    decreases t.len(),
{
    if t.len() > 0 && !spec_is_hex(t[0]) {
        spec_trim_start_nonhex(t.drop_first())
    } else {
        t
    }
}

/// `t` without its trailing non-hex bytes.
pub open spec fn spec_trim_end_nonhex(t: Seq<u8>) -> Seq<u8>
    decreases t.len(),
{
    if t.len() > 0 && !spec_is_hex(t.last()) {
        spec_trim_end_nonhex(t.drop_last())
    } else {
        t
    }
}

/// The byte a dump column stands for: once trimmed of non-hex bytes at both
/// ends, exactly two hex digits; nothing otherwise.
pub open spec fn spec_column_byte(t: Seq<u8>) -> Seq<u8> {
    let u = spec_trim_end_nonhex(spec_trim_start_nonhex(t));
    if u.len() == 2 {
        seq![(spec_digit_value(u[0], 16).unwrap() * 16 + spec_digit_value(u[1], 16).unwrap()) as u8]
    } else {
        Seq::empty()
    }
}

/// The length of the column at the front of `v`: up to the first whitespace.
pub open spec fn spec_column_end(v: Seq<u8>) -> nat
    decreases v.len(),
{
    if v.len() == 0 || spec_is_ascii_ws(v[0]) {
        0
    } else {
        1 + spec_column_end(v.drop_first())
    }
}

/// The bytes of the whitespace-separated columns of `v`.
#[verifier::opaque]
pub open spec fn spec_columns_bytes(v: Seq<u8>) -> Seq<u8>
    decreases v.len(),
{
    if v.len() == 0 {
        Seq::empty()
    } else if spec_is_ascii_ws(v[0]) {
        spec_columns_bytes(v.drop_first())
    } else {
        let k = spec_column_end(v) as int;
        if 0 < k <= v.len() {
            spec_column_byte(v.subrange(0, k)) + spec_columns_bytes(v.subrange(k, v.len() as int))
        } else {
            Seq::empty()
        }
    }
}

/// Where the first `b` in `s` is; the length of `s` when there is none.
pub open spec fn spec_index_of(s: Seq<u8>, b: u8) -> nat
    decreases s.len(),
{
    if s.len() == 0 || s[0] == b {
        0
    } else {
        1 + spec_index_of(s.drop_first(), b)
    }
}

/// The bytes of one dump line: those of the columns after its first `=`;
/// none for a line without one.
#[verifier::opaque]
pub open spec fn spec_line_bytes(line: Seq<u8>) -> Seq<u8> {
    let k = spec_index_of(line, 61) as int;
    if k < line.len() {
        spec_columns_bytes(line.subrange(k + 1, line.len() as int))
    } else {
        Seq::empty()
    }
}

/// The bytes of a J-Link `mem8` dump, line by line.
#[verifier::opaque]
pub open spec fn spec_mem8_bytes(s: Seq<u8>) -> Seq<u8>
    decreases s.len(),
{
    let k = spec_index_of(s, 10) as int;
    if s.len() == 0 {
        Seq::empty()
    } else if k < s.len() {
        spec_line_bytes(s.subrange(0, k)) + spec_mem8_bytes(s.subrange(k + 1, s.len() as int))
    } else {
        spec_line_bytes(s)
    }
}

proof fn lemma_index_of(s: Seq<u8>, b: u8, k: int)
    requires
        0 <= k <= s.len(),
        forall|j: int| 0 <= j < k ==> s[j] != b,
        k == s.len() || s[k] == b,
    ensures
        spec_index_of(s, b) == k,
    decreases k,
{
    if k > 0 {
        lemma_index_of(s.drop_first(), b, k - 1);
    }
}

/// Where the first `b` in `s` is; the length of `s` when there is none.
fn index_of(s: &[u8], b: u8) -> (k: usize)
    ensures
        k == spec_index_of(s@, b),
        k <= s@.len(),
{
    let mut k: usize = 0;
    while k < s.len() && s[k] != b
        invariant
            k <= s@.len(),
            forall|j: int| 0 <= j < k ==> s@[j] != b,
        decreases s@.len() - k,
    {
        k = k + 1;
    }
    proof {
        lemma_index_of(s@, b, k as int);
    }
    k
}

/// The short-dump message: how many bytes were found and how many were
/// expected.
pub open spec fn spec_dump_message(found: nat, expected: nat) -> Seq<u8> {
    JLINK_CONTAINED@ + spec_decimal(found) + JLINK_EXPECTED@ + spec_decimal(expected)
}

proof fn lemma_column_end(v: Seq<u8>, k: int)
    requires
        0 <= k <= v.len(),
        forall|j: int| 0 <= j < k ==> !spec_is_ascii_ws(v[j]),
        k == v.len() || spec_is_ascii_ws(v[k]),
    ensures
        spec_column_end(v) == k,
    decreases k,
{
    if k > 0 {
        lemma_column_end(v.drop_first(), k - 1);
    }
}

proof fn lemma_trim_start(t: Seq<u8>, a: int)
    requires
        0 <= a <= t.len(),
        forall|j: int| 0 <= j < a ==> !spec_is_hex(t[j]),
        a == t.len() || spec_is_hex(t[a]),
    ensures
        spec_trim_start_nonhex(t) == t.subrange(a, t.len() as int),
    decreases a,
{
    if a > 0 {
        lemma_trim_start(t.drop_first(), a - 1);
        assert(t.drop_first().subrange(a - 1, t.len() - 1) =~= t.subrange(a, t.len() as int));
    } else {
        assert(t.subrange(0, t.len() as int) =~= t);
    }
}

proof fn lemma_trim_end(t: Seq<u8>, b: int)
    requires
        0 <= b <= t.len(),
        forall|j: int| b <= j < t.len() ==> !spec_is_hex(t[j]),
        b == 0 || spec_is_hex(t[b - 1]),
    ensures
        spec_trim_end_nonhex(t) == t.subrange(0, b),
    decreases t.len() - b,
{
    if b < t.len() {
        lemma_trim_end(t.drop_last(), b);
        assert(t.drop_last().subrange(0, b) =~= t.subrange(0, b));
    } else {
        assert(t.subrange(0, b) =~= t);
    }
}

fn is_ascii_ws(b: u8) -> (r: bool)
    ensures
        r == spec_is_ascii_ws(b),
{
    b == 32 || b == 9 || b == 10 || b == 12 || b == 13
}

/// The byte that the column `t` stands for, if any.
fn column_byte(t: &[u8]) -> (r: Option<u8>)
    ensures
        match r {
            Some(b) => spec_column_byte(t@) == seq![b],
            None => spec_column_byte(t@) == Seq::<u8>::empty(),
        },
{
    let n = t.len();
    let mut a: usize = 0;
    while a < n && digit_value(t[a], 16).is_none()
        invariant
            a <= n == t@.len(),
            forall|j: int| 0 <= j < a ==> !spec_is_hex(t@[j]),
        decreases n - a,
    {
        a = a + 1;
    }
    let mut b: usize = n;
    while b > a && digit_value(t[b - 1], 16).is_none()
        invariant
            a <= b <= n == t@.len(),
            forall|j: int| b <= j < n ==> !spec_is_hex(t@[j]),
        decreases b - a,
    {
        b = b - 1;
    }
    proof {
        lemma_trim_start(t@, a as int);
        let s1 = t@.subrange(a as int, n as int);
        assert forall|j: int| b - a <= j < s1.len() implies !spec_is_hex(s1[j]) by {
            assert(s1[j] == t@[j + a]);
        }
        if b > a {
            assert(s1[b - a - 1] == t@[b - 1]);
        }
        lemma_trim_end(s1, (b - a) as int);
        assert(s1.subrange(0, (b - a) as int) =~= t@.subrange(a as int, b as int));
    }
    if b - a == 2 {
        let hi = digit_value(t[a], 16);
        let lo = digit_value(t[a + 1], 16);
        match (hi, lo) {
            (Some(h), Some(l)) => {
                let byte = (h * 16 + l) as u8;
                proof {
                    let u = t@.subrange(a as int, b as int);
                    assert(u[0] == t@[a as int] && u[1] == t@[a + 1]);
                }
                Some(byte)
            },
            _ => {
                proof {
                    if a < b {
                        assert(spec_is_hex(t@[a as int]));
                        assert(spec_is_hex(t@[b - 1]));
                    }
                }
                None
            },
        }
    } else {
        None
    }
}

/// The column that starts at `q` (not whitespace): where it ends and the
/// byte it stands for.
fn column_at(values: &[u8], q: usize) -> (r: (usize, Option<u8>))
    requires
        q < values@.len(),
        !spec_is_ascii_ws(values@[q as int]),
    ensures
        q < r.0 <= values@.len(),
        spec_columns_bytes(values@.subrange(q as int, values@.len() as int)) == (match r.1 {
            Some(b) => seq![b],
            None => Seq::<u8>::empty(),
        }) + spec_columns_bytes(values@.subrange(r.0 as int, values@.len() as int)),
{
    let ghost v = values@.subrange(q as int, values@.len() as int);
    let mut e: usize = q;
    while e < values.len() && !is_ascii_ws(values[e])
        invariant
            q <= e <= values@.len(),
            forall|j: int| q <= j < e ==> !spec_is_ascii_ws(values@[j]),
        decreases values@.len() - e,
    {
        e = e + 1;
    }
    proof {
        reveal(spec_columns_bytes);
        lemma_column_end(v, e - q);
        assert(v.subrange(0, e - q) =~= values@.subrange(q as int, e as int));
        assert(v.subrange(e - q, v.len() as int) =~= values@.subrange(e as int, values@.len() as int));
    }
    let column = &values[q..e];
    (e, column_byte(column))
}

/// Appends the bytes of the columns of `values`, stopping once `bytes`
/// holds `expected_len` bytes; says whether it got there.
fn push_column_bytes(values: &[u8], bytes: &mut Vec<u8>, expected_len: usize) -> (done: bool)
    requires
        expected_len == 0 || old(bytes)@.len() < expected_len,
    ensures
        done ==> expected_len > 0 && final(bytes)@.len() == expected_len && (old(bytes)@
            + spec_columns_bytes(values@)).len() >= expected_len && final(bytes)@ == (old(bytes)@
            + spec_columns_bytes(values@)).subrange(0, expected_len as int),
        !done ==> final(bytes)@ == old(bytes)@ + spec_columns_bytes(values@) && (expected_len == 0
            || final(bytes)@.len() < expected_len),
{
    let ghost start = bytes@;
    let ghost cols = spec_columns_bytes(values@);
    proof {
        reveal(spec_columns_bytes);
    }
    let mut q: usize = 0;
    assert(values@.subrange(0, values@.len() as int) =~= values@);
    while q < values.len()
        invariant
            q <= values@.len(),
            start == old(bytes)@,
            cols == spec_columns_bytes(values@),
            bytes@ + spec_columns_bytes(values@.subrange(q as int, values@.len() as int)) == start
                + cols,
            expected_len == 0 || bytes@.len() < expected_len,
        decreases values@.len() - q,
    {
        if is_ascii_ws(values[q]) {
            proof {
                reveal(spec_columns_bytes);
                let v = values@.subrange(q as int, values@.len() as int);
                assert(v.drop_first() =~= values@.subrange(q + 1, values@.len() as int));
            }
            q = q + 1;
        } else {
            let (e, column) = column_at(values, q);
            let ghost after = spec_columns_bytes(values@.subrange(e as int, values@.len() as int));
            let ghost before = bytes@;
            match column {
                Some(b) => {
                    bytes.push(b);
                    assert(before + (seq![b] + after) =~= bytes@ + after);
                    if bytes.len() == expected_len {
                        assert(start + cols =~= bytes@ + after);
                        assert((start + cols).subrange(0, expected_len as int) =~= bytes@);
                        return true;
                    }
                },
                None => {
                    assert(before + (Seq::<u8>::empty() + after) =~= bytes@ + after);
                },
            }
            q = e;
        }
    }
    assert(values@.subrange(q as int, values@.len() as int) =~= Seq::<u8>::empty());
    assert(bytes@ =~= start + cols);
    false
}

/// Appends the bytes of one dump line, as `push_column_bytes` does.
fn push_line_bytes(line: &[u8], bytes: &mut Vec<u8>, expected_len: usize) -> (done: bool)
    requires
        expected_len == 0 || old(bytes)@.len() < expected_len,
    ensures
        done ==> expected_len > 0 && final(bytes)@.len() == expected_len && (old(bytes)@
            + spec_line_bytes(line@)).len() >= expected_len && final(bytes)@ == (old(bytes)@
            + spec_line_bytes(line@)).subrange(0, expected_len as int),
        !done ==> final(bytes)@ == old(bytes)@ + spec_line_bytes(line@) && (expected_len == 0
            || final(bytes)@.len() < expected_len),
{
    let eq = index_of(line, 61);
    let n = line.len();
    proof {
        reveal(spec_line_bytes);
    }
    if eq < n {
        let values = &line[eq + 1..n];
        push_column_bytes(values, bytes, expected_len)
    } else {
        assert(bytes@ =~= bytes@ + spec_line_bytes(line@));
        false
    }
}

/// The line of `s` that starts at `pos`: where it ends, and where the next
/// one starts.
fn line_at(s: &[u8], pos: usize) -> (r: (usize, usize))
    requires
        pos < s@.len(),
    ensures
        pos <= r.0 <= r.1 <= s@.len(),
        r.1 > pos,
        spec_mem8_bytes(s@.subrange(pos as int, s@.len() as int)) == spec_line_bytes(
            s@.subrange(pos as int, r.0 as int),
        ) + spec_mem8_bytes(s@.subrange(r.1 as int, s@.len() as int)),
{
    let rest = &s[pos..s.len()];
    let ghost r = rest@;
    let k = index_of(rest, 10);
    proof {
        reveal(spec_mem8_bytes);
    }
    if k < rest.len() {
        proof {
            assert(s@.subrange(pos as int, pos + k) =~= r.subrange(0, k as int));
            assert(s@.subrange(pos + k + 1, s@.len() as int) =~= r.subrange(k + 1, r.len() as int));
        }
        (pos + k, pos + k + 1)
    } else {
        proof {
            assert(s@.subrange(pos as int, s@.len() as int) =~= r);
            assert(s@.subrange(s@.len() as int, s@.len() as int) =~= Seq::<u8>::empty());
            assert(spec_line_bytes(r) =~= spec_line_bytes(r) + Seq::<u8>::empty());
        }
        (s.len(), s.len())
    }
}

/// Reads the packet bytes out of J-Link `mem8` output: from every line
/// with an `=`, the whitespace-separated columns after it that are two hex
/// digits once stray characters at their ends are dropped. The first
/// `expected_len` bytes are the packet; fewer is refused with a message
/// that gives both counts.
pub fn parse_jlink_mem8_output(output: &str, expected_len: usize) -> (r: Result<Vec<u8>, String>)
    ensures
        r is Ok <==> expected_len > 0 && spec_mem8_bytes(output.spec_bytes()).len() >= expected_len,
        r matches Ok(b) ==> b@ == spec_mem8_bytes(output.spec_bytes()).subrange(
            0,
            expected_len as int,
        ),
        r matches Err(e) ==> encode_utf8(e@) == spec_dump_message(
            spec_mem8_bytes(output.spec_bytes()).len(),
            expected_len as nat,
        ),
{
    let s = output.as_bytes();
    let ghost all = spec_mem8_bytes(s@);
    let mut bytes: Vec<u8> = Vec::new();
    let mut pos: usize = 0;
    assert(s@.subrange(0, s@.len() as int) =~= s@);
    while pos < s.len()
        invariant
            pos <= s@.len(),
            s@ == output.spec_bytes(),
            all == spec_mem8_bytes(s@),
            bytes@ + spec_mem8_bytes(s@.subrange(pos as int, s@.len() as int)) == all,
            expected_len == 0 || bytes@.len() < expected_len,
        decreases s@.len() - pos,
    {
        let (line_end, next) = line_at(s, pos);
        let line = &s[pos..line_end];
        assert(line@ =~= s@.subrange(pos as int, line_end as int));
        let ghost tail = spec_mem8_bytes(s@.subrange(next as int, s@.len() as int));
        let ghost lb = spec_line_bytes(line@);
        let ghost before = bytes@;
        assert(all == before + (lb + tail));
        let done = push_line_bytes(line, &mut bytes, expected_len);
        proof {
            assert(before + (lb + tail) =~= (before + lb) + tail);
            if done {
                assert(all == (before + lb) + tail);
                assert(all.len() >= (before + lb).len());
                assert(all.len() >= expected_len);
                assert(all.subrange(0, expected_len as int) =~= (before + lb).subrange(
                    0,
                    expected_len as int,
                ));
                assert(bytes@ == all.subrange(0, expected_len as int));
            } else {
                assert(bytes@ + tail == all);
            }
        }
        if done {
            return Ok(bytes);
        }
        pos = next;
    }
    assert(s@.subrange(pos as int, s@.len() as int) =~= Seq::<u8>::empty());
    proof {
        reveal(spec_mem8_bytes);
    }
    assert(bytes@ =~= all);
    let mut out: Vec<u8> = Vec::new();
    push_bytes(&mut out, &JLINK_CONTAINED);
    push_decimal_u64(&mut out, bytes.len() as u64);
    push_bytes(&mut out, &JLINK_EXPECTED);
    push_decimal_u64(&mut out, expected_len as u64);
    proof {
        lemma_texts_ascii();
        lemma_decimal_ascii(bytes@.len());
        lemma_decimal_ascii(expected_len as nat);
        lemma_ascii_concat(JLINK_CONTAINED@, spec_decimal(bytes@.len()));
        lemma_ascii_concat(JLINK_CONTAINED@ + spec_decimal(bytes@.len()), JLINK_EXPECTED@);
        lemma_ascii_concat(
            JLINK_CONTAINED@ + spec_decimal(bytes@.len()) + JLINK_EXPECTED@,
            spec_decimal(expected_len as nat),
        );
        assert(out@ =~= spec_dump_message(all.len(), expected_len as nat));
    }
    Err(ascii_string(out))
}

} // verus!
