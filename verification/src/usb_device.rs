use vstd::prelude::*;
use vstd::string::StringSliceAdditionalSpecFns;

use crate::le_bytes::push_bytes;
use crate::protocol::{COMMAND_PACKET_LEN, DRIVER_COMMAND_PACKET_LEN};
use crate::usb_control::{
    limit_to_setup_length, spec_control_response, spec_string_descriptor,
    write_ascii_string_descriptor, control_response, ControlRequest, ControlResponse, SetupPacket,
    UsbControlError, BULK_MAX_PACKET_SIZE,
};

verus! {

pub const USB_EP0R: usize = 0x4000_5C00;
pub const USB_PMA_BASE: usize = 0x4000_6000;

pub const BTABLE_ENTRY_BYTES: usize = 8;
pub const BTABLE_ADDR_TX: usize = 0;
pub const BTABLE_COUNT_TX: usize = 2;
pub const BTABLE_ADDR_RX: usize = 4;
pub const BTABLE_COUNT_RX: usize = 6;
pub const EP0_TX_OFFSET: u16 = 64;
pub const EP0_RX_OFFSET: u16 = 128;
pub const EP1_TX_OFFSET: u16 = 224;
pub const EP1_RX_OFFSET: u16 = 288;
pub const EP2_TX_OFFSET: u16 = 384;
pub const EP2_RX_OFFSET: u16 = 448;

pub const USB_EP_CTR_RX: u16 = 0x8000;
pub const USB_EP_DTOG_RX: u16 = 0x4000;
pub const USB_EP_SETUP: u16 = 0x0800;
pub const USB_EP_T_FIELD: u16 = 0x0600;
pub const USB_EP_KIND: u16 = 0x0100;
pub const USB_EP_CTR_TX: u16 = 0x0080;
pub const USB_EP_DTOG_TX: u16 = 0x0040;
pub const USB_EPADDR_FIELD: u16 = 0x000F;
/// The bits that keep their value when written back: the transfer flags,
/// setup, type, kind and address.
pub const USB_EPREG_MASK: u16 = 0x8F8F;
/// The bits that flip when a one is written: the data toggles and the
/// transmit and receive states.
pub const USB_EP_TOGGLE_BITS: u16 = 0x7070;
pub const USB_EP_CONTROL: u16 = 0x0200;
pub const USB_EP_BULK: u16 = 0x0000;
pub const USB_EPTX_STAT: u16 = 0x0030;
pub const USB_EP_TX_STALL: u16 = 0x0010;
pub const USB_EP_TX_NAK: u16 = 0x0020;
pub const USB_EP_TX_VALID: u16 = 0x0030;
pub const USB_EPRX_STAT: u16 = 0x3000;
pub const USB_EP_RX_VALID: u16 = 0x3000;

pub const USB_COUNT_RX_COUNT_MASK: u16 = 0x03FF;
/// A receive buffer of 96 bytes: three blocks of 32.
pub const USB_COUNT_RX_96_BYTES: u16 = 0x8800;
pub const USB_DADDR_ADD: u16 = 0x007F;
pub const USB_DADDR_EF: u16 = 0x0080;
pub const NO_PENDING_ADDRESS: u8 = 0xFF;

/// The register of endpoint `endpoint`.
pub fn endpoint_register(endpoint: u8) -> (a: usize)
    requires
        endpoint < 8,
    ensures
        a == USB_EP0R + 4 * endpoint,
{
    USB_EP0R + (endpoint as usize) * 4
}

/// The offset in packet memory of field `field_offset` of the buffer table
/// entry of `endpoint`.
pub fn btable_offset(endpoint: u8, field_offset: usize) -> (o: usize)
    requires
        endpoint < 8,
        field_offset < BTABLE_ENTRY_BYTES,
    ensures
        o == BTABLE_ENTRY_BYTES * endpoint + field_offset,
{
    (endpoint as usize) * BTABLE_ENTRY_BYTES + field_offset
}

/// The endpoint register value that acknowledges a reception: the receive
/// flag written as zero clears it, the transmit flag written as one keeps
/// it, the plain fields are written back and no toggle bit flips.
pub fn clear_ctr_rx_value(value: u16) -> (w: u16)
    ensures
        w == (USB_EP_CTR_TX | (value & USB_EPREG_MASK)) & !USB_EP_CTR_RX,
        w & USB_EP_CTR_RX == 0,
        w & USB_EP_CTR_TX == USB_EP_CTR_TX,
        w & 0x0F0F == value & 0x0F0F,
        w & USB_EP_TOGGLE_BITS == 0,
{
    let w = (USB_EP_CTR_TX | (value & USB_EPREG_MASK)) & !USB_EP_CTR_RX;
    assert(w & 0x8000 == 0 && w & 0x0080 == 0x0080 && w & 0x0F0F == value & 0x0F0F && w & 0x7070
        == 0) by (bit_vector)
        requires
            w == (0x0080u16 | (value & 0x8F8Fu16)) & !0x8000u16,
    ;
    w
}

/// The endpoint register value that acknowledges a transmission, the mirror
/// of `clear_ctr_rx_value`.
pub fn clear_ctr_tx_value(value: u16) -> (w: u16)
    ensures
        w == (USB_EP_CTR_RX | (value & USB_EPREG_MASK)) & !USB_EP_CTR_TX,
        w & USB_EP_CTR_TX == 0,
        w & USB_EP_CTR_RX == USB_EP_CTR_RX,
        w & 0x0F0F == value & 0x0F0F,
        w & USB_EP_TOGGLE_BITS == 0,
{
    let w = (USB_EP_CTR_RX | (value & USB_EPREG_MASK)) & !USB_EP_CTR_TX;
    assert(w & 0x0080 == 0 && w & 0x8000 == 0x8000 && w & 0x0F0F == value & 0x0F0F && w & 0x7070
        == 0) by (bit_vector)
        requires
            w == (0x8000u16 | (value & 0x8F8Fu16)) & !0x0080u16,
    ;
    w
}

/// The endpoint register value that moves the toggle bits under `set_mask`
/// to `set_bits`: it writes one where they differ. The transfer flags are
/// written as one so that neither is cleared, and the plain fields are
/// written back.
pub fn set_toggle_value(value: u16, set_bits: u16, set_mask: u16) -> (w: u16)
    ensures
        w == (value & USB_EPREG_MASK) | ((value & set_mask) ^ set_bits) | USB_EP_CTR_TX
            | USB_EP_CTR_RX,
        set_mask & !USB_EP_TOGGLE_BITS == 0 && set_bits & !set_mask == 0 ==> {
            &&& ((value & set_mask) ^ (w & set_mask)) == set_bits
            &&& w & USB_EP_TOGGLE_BITS & !set_mask == 0
            &&& w & 0x8080 == 0x8080
            &&& w & 0x0F0F == value & 0x0F0F
        },
{
    let toggle = (value & set_mask) ^ set_bits;
    let normal = value & USB_EPREG_MASK;
    let w = normal | toggle | USB_EP_CTR_TX | USB_EP_CTR_RX;
    assert(set_mask & !0x7070u16 == 0 && set_bits & !set_mask == 0 ==> {
        &&& ((value & set_mask) ^ (w & set_mask)) == set_bits
        &&& w & 0x7070u16 & !set_mask == 0
        &&& w & 0x8080 == 0x8080
        &&& w & 0x0F0F == value & 0x0F0F
    }) by (bit_vector)
        requires
            toggle == (value & set_mask) ^ set_bits,
            normal == value & 0x8F8Fu16,
            w == normal | toggle | 0x0080u16 | 0x8000u16,
    ;
    w
}

/// An endpoint is still sending when its transmit state is valid.
pub fn tx_active(value: u16) -> (b: bool)
    ensures
        b == (value & USB_EPTX_STAT == USB_EP_TX_VALID),
{
    value & USB_EPTX_STAT == USB_EP_TX_VALID
}

/// The number of bytes received, from the buffer table count, at most one
/// packet.
pub fn rx_length(count_rx: u16) -> (n: usize)
    ensures
        n == (if count_rx & USB_COUNT_RX_COUNT_MASK < BULK_MAX_PACKET_SIZE {
            (count_rx & USB_COUNT_RX_COUNT_MASK) as int
        } else {
            BULK_MAX_PACKET_SIZE as int
        }),
{
    let count = (count_rx & USB_COUNT_RX_COUNT_MASK) as usize;
    if count < BULK_MAX_PACKET_SIZE as usize {
        count
    } else {
        BULK_MAX_PACKET_SIZE as usize
    }
}

/// The number of bytes sent of `len`: at most one packet.
pub fn tx_length(len: usize) -> (n: usize)
    ensures
        n == (if len < BULK_MAX_PACKET_SIZE {
            len as int
        } else {
            BULK_MAX_PACKET_SIZE as int
        }),
{
    if len < BULK_MAX_PACKET_SIZE as usize {
        len
    } else {
        BULK_MAX_PACKET_SIZE as usize
    }
}

/// What a packet on the realtime endpoint is, by its length.
#[derive(Clone, Copy, Debug, PartialEq, Eq, Structural)]
pub enum RealtimePacketKind {
    Command,
    DriverCommand,
    Unsupported,
}

/// A packet is a command or a driver command by its length; any other
/// length is unsupported.
pub open spec fn spec_realtime_packet_kind(len: usize) -> RealtimePacketKind {
    if len == COMMAND_PACKET_LEN {
        RealtimePacketKind::Command
    } else if len == DRIVER_COMMAND_PACKET_LEN {
        RealtimePacketKind::DriverCommand
    } else {
        RealtimePacketKind::Unsupported
    }
}

pub fn realtime_packet_kind(len: usize) -> (k: RealtimePacketKind)
    ensures
        k == spec_realtime_packet_kind(len),
{
    if len == COMMAND_PACKET_LEN {
        RealtimePacketKind::Command
    } else if len == DRIVER_COMMAND_PACKET_LEN {
        RealtimePacketKind::DriverCommand
    } else {
        RealtimePacketKind::Unsupported
    }
}

/// A realtime packet is told apart by its length alone: 14 bytes is a
/// command, 2 bytes a driver command, any other length is unsupported.
pub proof fn lemma_realtime_packet_lengths(len: usize)
    ensures
        spec_realtime_packet_kind(len) == RealtimePacketKind::Command <==> len == 14,
        spec_realtime_packet_kind(len) == RealtimePacketKind::DriverCommand <==> len == 2,
        spec_realtime_packet_kind(len) == RealtimePacketKind::Unsupported <==> (len != 14 && len
            != 2),
{
}

/// The seven address bits of a device address byte are its value mod 128.
pub proof fn lemma_address_bits(address: u8)
    ensures
        address & 0x7Fu8 == address % 128,
{
    assert(address & 0x7Fu8 == address % 128) by (bit_vector);
}

/// The address register value that applies a pending address; none when no
/// address is pending.
pub fn pending_address_value(pending: u8) -> (v: Option<u16>)
    ensures
        pending == NO_PENDING_ADDRESS ==> v is None,
        pending != NO_PENDING_ADDRESS ==> v == Some((USB_DADDR_EF + pending % 128) as u16),
{
    if pending == NO_PENDING_ADDRESS {
        None
    } else {
        let a = pending as u16;
        let v = USB_DADDR_EF | (a & USB_DADDR_ADD);
        assert(v == 0x80 + a % 128) by (bit_vector)
            requires
                v == 0x0080u16 | (a & 0x007Fu16),
        ;
        Some(v)
    }
}

pub const CONFIGURATION_STRING: &'static str = "obot-rs rust firmware";
pub const INTERFACE_STRING: &'static str = "rust_debug";

/// The packet memory word that holds bytes `2 i` and `2 i + 1` of `data`,
/// low byte first; a missing high byte reads as zero.
pub open spec fn spec_pma_word(data: Seq<u8>, i: int) -> int {
    data[2 * i] + 256 * (if 2 * i + 1 < data.len() {
        data[2 * i + 1] as int
    } else {
        0
    })
}

/// The packet memory words that hold `data`.
pub open spec fn spec_pma_words(data: Seq<u8>) -> Seq<u16> {
    Seq::new(((data.len() + 1) / 2) as nat, |i: int| spec_pma_word(data, i) as u16)
}

/// Byte `k` of the packet memory words `words`.
pub open spec fn spec_pma_byte(words: Seq<u16>, k: int) -> u8 {
    if k % 2 == 0 {
        (words[k / 2] % 256) as u8
    } else {
        (words[k / 2] / 256) as u8
    }
}

/// Packs bytes into packet memory words, two to a word, low byte first.
pub fn pack_pma_words(data: &[u8]) -> (w: Vec<u16>)
    ensures
        w@ == spec_pma_words(data@),
{
    let mut w: Vec<u16> = Vec::new();
    let n = data.len();
    let mut i: usize = 0;
    while i < n
        invariant
            n == data@.len(),
            i <= n,
            i % 2 == 0 || i == n,
            w@.len() == (i + 1) / 2,
            forall|j: int| 0 <= j < w@.len() ==> w@[j] == spec_pma_word(data@, j) as u16,
        decreases n - i,
    {
        let low = data[i] as u16;
        let high: u16 = if i + 1 < n {
            data[i + 1] as u16
        } else {
            0
        };
        let word = low | (high << 8);
        assert(word == low + 256 * high) by (bit_vector)
            requires
                low < 256,
                high < 256,
                word == low | (high << 8),
        ;
        w.push(word);
        i = if n - i > 2 {
            i + 2
        } else {
            n
        };
    }
    assert(w@ =~= spec_pma_words(data@));
    w
}

/// Unpacking packed bytes gives them back.
pub proof fn lemma_pma_round_trip(data: Seq<u8>)
    ensures
        forall|k: int| 0 <= k < data.len() ==> spec_pma_byte(spec_pma_words(data), k) == data[k],
{
    assert forall|k: int| 0 <= k < data.len() implies spec_pma_byte(spec_pma_words(data), k)
        == data[k] by {
        let i = k / 2;
        let lo = data[2 * i] as int;
        let hi: int = if 2 * i + 1 < data.len() {
            data[2 * i + 1] as int
        } else {
            0
        };
        assert(0 <= lo < 256 && 0 <= hi < 256);
        assert((lo + 256 * hi) % 256 == lo && (lo + 256 * hi) / 256 == hi) by (nonlinear_arith)
            requires
                0 <= lo < 256,
                0 <= hi < 256,
        ;
    }
}

/// Copies the first `byte_count` bytes (at most `output`'s length) out of
/// packet memory words into `output`; the rest of `output` is kept.
pub fn unpack_pma_words(words: &[u16], output: &mut [u8], byte_count: usize)
    requires
        words@.len() >= (if byte_count < old(output)@.len() {
            byte_count as int
        } else {
            old(output)@.len() as int
        } + 1) / 2,
    ensures
        final(output)@.len() == old(output)@.len(),
        forall|k: int|
            0 <= k < old(output)@.len() ==> #[trigger] final(output)@[k] == (if k < byte_count {
                spec_pma_byte(words@, k)
            } else {
                old(output)@[k]
            }),
{
    let count = if byte_count < output.len() {
        byte_count
    } else {
        output.len()
    };
    let ghost before = output@;
    let mut k: usize = 0;
    while k < count
        invariant
            count <= output@.len() == before.len(),
            count <= byte_count,
            words@.len() >= (count + 1) / 2,
            k <= count,
            forall|j: int| 0 <= j < k ==> output@[j] == spec_pma_byte(words@, j),
            forall|j: int| k <= j < before.len() ==> output@[j] == before[j],
        decreases count - k,
    {
        let word = words[k / 2];
        if k % 2 == 0 {
            let b = word as u8;
            assert(b == word % 256) by (bit_vector)
                requires
                    b == word as u8,
            ;
            output[k] = b;
        } else {
            let b = (word >> 8) as u8;
            assert(b == word / 256) by (bit_vector)
                requires
                    b == (word >> 8) as u8,
            ;
            output[k] = b;
        }
        k = k + 1;
    }
}

/// The ASCII hex digit of `digit` (upper case above 9).
pub open spec fn spec_hex_digit(digit: int) -> u8 {
    if digit <= 9 {
        (48 + digit) as u8
    } else {
        (65 + digit - 10) as u8
    }
}

/// The upper-case hex digits of `n`, most significant first, with no leading
/// zero.
pub open spec fn spec_hex(n: nat) -> Seq<u8>
    decreases n,
{
    if n < 16 {
        seq![spec_hex_digit(n as int)]
    } else {
        spec_hex(n / 16).push(spec_hex_digit((n % 16) as int))
    }
}

/// `16^k`.
pub open spec fn spec_pow16(k: nat) -> nat
    decreases k,
{
    if k == 0 {
        1
    } else {
        16 * spec_pow16((k - 1) as nat)
    }
}

/// Numbers below `16^k` (k at least 1) have at most `k` hex digits.
pub proof fn lemma_hex_len(n: nat, k: nat)
    requires
        1 <= k,
        n < spec_pow16(k),
    ensures
        spec_hex(n).len() <= k,
    decreases k,
{
    if n >= 16 {
        if k == 1 {
            assert(spec_pow16(0) == 1);
        } else {
            assert(n / 16 < spec_pow16((k - 1) as nat));
            lemma_hex_len(n / 16, (k - 1) as nat);
        }
    }
}

pub fn hex_digit(digit: u8) -> (c: u8)
    requires
        digit <= 200,
    ensures
        c == spec_hex_digit(digit as int),
{
    if digit <= 9 {
        48 + digit
    } else {
        65 + (digit - 10)
    }
}

/// The hex digits of `value`.
fn hex_u32(value: u32) -> (d: Vec<u8>)
    ensures
        d@ == spec_hex(value as nat),
{
    let mut digits: Vec<u8> = Vec::new();
    digits.push(hex_digit((value % 16) as u8));
    let mut v = value / 16;
    assert(digits@ =~= seq![spec_hex_digit((value % 16) as int)]);
    while v > 0
        invariant
            v > 0 ==> spec_hex(value as nat) == spec_hex(v as nat) + digits@,
            v == 0 ==> spec_hex(value as nat) == digits@,
        decreases v,
    {
        let d = hex_digit((v % 16) as u8);
        let ghost before = digits@;
        let ghost old_v = v;
        digits.insert(0, d);
        v = v / 16;
        proof {
            if old_v >= 16 {
                assert(spec_hex(old_v as nat) == spec_hex(v as nat).push(d));
                assert(spec_hex(v as nat) + digits@ =~= spec_hex(v as nat).push(d) + before);
            } else {
                assert(digits@ =~= seq![d] + before);
            }
        }
    }
    digits
}

/// Writes the hex digits of `value` into `buffer` from `len` on, and
/// returns where they end.
pub fn append_hex_u32(buffer: &mut [u8], len: usize, value: u32) -> (end: usize)
    requires
        len + spec_hex(value as nat).len() <= old(buffer)@.len(),
    ensures
        end == len + spec_hex(value as nat).len(),
        final(buffer)@ == old(buffer)@.subrange(0, len as int) + spec_hex(value as nat)
            + old(buffer)@.subrange(end as int, old(buffer)@.len() as int),
{
    let digits = hex_u32(value);
    let n = digits.len();
    let blen = buffer.len();
    let ghost before = buffer@;
    let mut i: usize = 0;
    while i < n
        invariant
            n == digits@.len(),
            digits@ == spec_hex(value as nat),
            len + n <= before.len(),
            before.len() == buffer@.len(),
            before.len() == blen,
            i <= n,
            forall|j: int| 0 <= j < len ==> buffer@[j] == before[j],
            forall|j: int| 0 <= j < i ==> buffer@[len + j] == digits@[j],
            forall|j: int| len + n <= j < before.len() ==> buffer@[j] == before[j],
        decreases n - i,
    {
        buffer[len + i] = digits[i];
        i = i + 1;
    }
    assert(buffer@ =~= before.subrange(0, len as int) + spec_hex(value as nat) + before.subrange(
        (len + n) as int,
        before.len() as int,
    ));
    len + n
}

/// Writes the hex digits of `value` into `buffer` from `len` on, and
/// returns where they end.
pub fn append_hex_u16(buffer: &mut [u8], len: usize, value: u16) -> (end: usize)
    requires
        len + spec_hex(value as nat).len() <= old(buffer)@.len(),
    ensures
        end == len + spec_hex(value as nat).len(),
        final(buffer)@ == old(buffer)@.subrange(0, len as int) + spec_hex(value as nat)
            + old(buffer)@.subrange(end as int, old(buffer)@.len() as int),
{
    append_hex_u32(buffer, len, value as u32)
}

/// The two numbers the serial string is made of: the sum of the first and
/// last unique ID words, wrapping, and the upper half of the middle word.
pub open spec fn spec_serial_parts(uid0: u32, uid1: u32, uid2: u32) -> (nat, nat) {
    (((uid0 + uid2) % 0x1_0000_0000) as nat, (uid1 / 0x1_0000) as nat)
}

/// Writes the serial number, the hex of both parts one after the other, at
/// the front of `buffer` and returns its length.
pub fn serial_string(uid0: u32, uid1: u32, uid2: u32, buffer: &mut [u8]) -> (len: usize)
    requires
        old(buffer)@.len() >= 12,
    ensures
        final(buffer)@.len() == old(buffer)@.len(),
        len == spec_hex(spec_serial_parts(uid0, uid1, uid2).0).len() + spec_hex(
            spec_serial_parts(uid0, uid1, uid2).1,
        ).len(),
        len <= 12,
        final(buffer)@.subrange(0, len as int) == spec_hex(spec_serial_parts(uid0, uid1, uid2).0)
            + spec_hex(spec_serial_parts(uid0, uid1, uid2).1),
        final(buffer)@.subrange(len as int, old(buffer)@.len() as int) == old(buffer)@.subrange(
            len as int,
            old(buffer)@.len() as int,
        ),
{
    let serial0 = uid0.wrapping_add(uid2);
    let serial1 = (uid1 >> 16) as u16;
    assert(serial1 == uid1 / 0x1_0000) by (bit_vector)
        requires
            serial1 == (uid1 >> 16) as u16,
    ;
    proof {
        assert(spec_pow16(8) == 0x1_0000_0000) by {
            reveal_with_fuel(spec_pow16, 9);
        }
        assert(spec_pow16(4) == 0x1_0000) by {
            reveal_with_fuel(spec_pow16, 5);
        }
        lemma_hex_len(serial0 as nat, 8);
        lemma_hex_len(serial1 as nat, 4);
    }
    let ghost b0 = buffer@;
    let len = append_hex_u32(buffer, 0, serial0);
    let ghost b1 = buffer@;
    let len = append_hex_u16(buffer, len, serial1);
    assert(buffer@.subrange(0, len as int) =~= spec_hex(serial0 as nat) + spec_hex(serial1 as nat));
    assert(buffer@.subrange(len as int, b0.len() as int) =~= b0.subrange(len as int, b0.len() as int));
    len
}

/// One past an even version, two past an odd one, wrapping: always odd.
pub open spec fn spec_publish_begin(version: u32) -> u32 {
    (if version % 2 == 0 {
        version + 1
    } else {
        (version + 2) % 0x1_0000_0000
    }) as u32
}

/// Two past an even version, one past an odd one, wrapping: always even.
pub open spec fn spec_publish_end(version: u32) -> u32 {
    (if version % 2 == 0 {
        (version + 2) % 0x1_0000_0000
    } else {
        (version + 1) % 0x1_0000_0000
    }) as u32
}

/// The version a writer stores before writing a packet: odd, marking the
/// packet as being written; one past an even version, two past an odd one,
/// wrapping.
pub fn publish_begin_version(version: u32) -> (v: u32)
    ensures
        v == spec_publish_begin(version),
        v % 2 == 1,
        version % 2 == 0 ==> v == version + 1,
        version % 2 == 1 ==> v == (version + 2) % 0x1_0000_0000,
{
    let w = version.wrapping_add(1);
    let v = w | 1;
    assert(v % 2 == 1 && (version % 2 == 0 ==> v == version + 1) && (version % 2 == 1 && version
        < 0xFFFF_FFFF ==> v == version + 2) && (version == 0xFFFF_FFFF ==> v == 1)) by (bit_vector)
        requires
            version < 0xFFFF_FFFF ==> w == version + 1,
            version == 0xFFFF_FFFF ==> w == 0,
            v == w | 1,
    ;
    v
}

/// The version a writer stores after writing a packet: even; two past an
/// even version, one past an odd one, wrapping.
pub fn publish_end_version(version: u32) -> (v: u32)
    ensures
        v == spec_publish_end(version),
        v % 2 == 0,
        version % 2 == 0 ==> v == (version + 2) % 0x1_0000_0000,
        version % 2 == 1 ==> v == (version + 1) % 0x1_0000_0000,
{
    let w = version.wrapping_add(2);
    let v = w & !1u32;
    assert(v % 2 == 0 && (version < 0xFFFF_FFFE ==> (version % 2 == 0 ==> v == version + 2) && (
    version % 2 == 1 ==> v == version + 1)) && (version == 0xFFFF_FFFE ==> v == 0) && (version
        == 0xFFFF_FFFF ==> v == 0)) by (bit_vector)
        requires
            version < 0xFFFF_FFFE ==> w == version + 2,
            version == 0xFFFF_FFFE ==> w == 0,
            version == 0xFFFF_FFFF ==> w == 1,
            v == w & !1u32,
    ;
    v
}

/// A published packet is waiting: its version is complete (even) and not
/// the one last consumed.
pub open spec fn spec_version_fresh(consumed: u32, version: u32) -> bool {
    version != consumed && version % 2 == 0
}

/// While a packet is being written no reader takes it, whatever it last
/// consumed; once the write is done, a reader that had consumed the version
/// the writer started from finds the new packet waiting, and after taking it
/// (consuming that version) does not find it again.
pub proof fn lemma_publish_then_poll(consumed: u32, version: u32)
    ensures
        !spec_version_fresh(consumed, spec_publish_begin(version)),
        spec_version_fresh(version, spec_publish_end(version)),
        !spec_version_fresh(spec_publish_end(version), spec_publish_end(version)),
{
}

pub fn version_fresh(consumed: u32, version: u32) -> (b: bool)
    ensures
        b == spec_version_fresh(consumed, version),
{
    let low = version & 1;
    assert(low == version % 2) by (bit_vector)
        requires
            low == version & 1,
    ;
    version != consumed && low == 0
}

/// What a reader does after copying a packet and reading the version again.
#[derive(Clone, Copy, Debug, PartialEq, Eq, Structural)]
pub enum PollCheck {
    /// The version did not move: the copy is whole; consume it.
    Accept,
    /// A newer packet was published meanwhile: copy again.
    Retry,
    /// The packet is being written or was already consumed: give up.
    Stop,
}

pub fn poll_check(consumed: u32, version: u32, check: u32) -> (c: PollCheck)
    ensures
        c == (if check == version {
            PollCheck::Accept
        } else if spec_version_fresh(consumed, check) {
            PollCheck::Retry
        } else {
            PollCheck::Stop
        }),
{
    if check == version {
        PollCheck::Accept
    } else if version_fresh(consumed, check) {
        PollCheck::Retry
    } else {
        PollCheck::Stop
    }
}

/// How many times a reader copies a packet before it gives up.
pub const POLL_ATTEMPTS: u8 = 3;

/// A read of a versioned packet in progress: the version the reader last
/// consumed, the version it is copying, and how many copies it has made.
#[derive(Clone, Copy, Debug, PartialEq, Eq, Structural)]
pub struct MailboxRead {
    pub consumed: u32,
    pub version: u32,
    pub attempts: u8,
}

/// What a reader does after a copy.
#[derive(Clone, Copy, Debug, PartialEq, Eq, Structural)]
pub enum MailboxStep {
    /// The copy is whole: decode it, and store `consumed` as the version
    /// consumed.
    Take { consumed: u32 },
    /// A newer packet was published meanwhile: copy again.
    CopyAgain,
    /// Nothing to deliver: the packet is being written, was consumed
    /// already, or kept changing for every allowed copy.
    GiveUp,
}

impl MailboxRead {
    /// A read that may go on: the version being copied is complete and not
    /// the one consumed, and a copy is still allowed.
    pub open spec fn wf(self) -> bool {
        &&& spec_version_fresh(self.consumed, self.version)
        &&& self.attempts < POLL_ATTEMPTS
    }

    /// Starts a read when the version just read is waiting; none otherwise.
    pub fn begin(consumed: u32, version: u32) -> (r: Option<MailboxRead>)
        ensures
            r is Some <==> spec_version_fresh(consumed, version),
            r matches Some(m) ==> m == (MailboxRead { consumed, version, attempts: 0 }) && m.wf(),
    {
        if version_fresh(consumed, version) {
            Some(MailboxRead { consumed, version, attempts: 0 })
        } else {
            None
        }
    }

    /// The step after one more copy, given the version `check` read again
    /// after copying.
    pub fn after_copy(&mut self, check: u32) -> (step: MailboxStep)
        requires
            old(self).wf(),
        ensures
            final(self).consumed == old(self).consumed,
            final(self).attempts == old(self).attempts + 1,
            check == old(self).version ==> step == (MailboxStep::Take { consumed: check })
                && final(self).version == old(self).version,
            check != old(self).version && spec_version_fresh(old(self).consumed, check)
                && old(self).attempts + 1 < POLL_ATTEMPTS ==> step == MailboxStep::CopyAgain
                && final(self).version == check,
            check != old(self).version && !(spec_version_fresh(old(self).consumed, check)
                && old(self).attempts + 1 < POLL_ATTEMPTS) ==> step == MailboxStep::GiveUp,
            step == MailboxStep::CopyAgain ==> final(self).wf(),
            step matches MailboxStep::Take { consumed } ==> spec_version_fresh(
                old(self).consumed,
                consumed,
            ),
    {
        self.attempts = self.attempts + 1;
        match poll_check(self.consumed, self.version, check) {
            PollCheck::Accept => MailboxStep::Take { consumed: check },
            PollCheck::Retry => {
                if self.attempts < POLL_ATTEMPTS {
                    self.version = check;
                    MailboxStep::CopyAgain
                } else {
                    MailboxStep::GiveUp
                }
            },
            PollCheck::Stop => MailboxStep::GiveUp,
        }
    }
}

/// What the control endpoint does with a setup packet.
#[derive(Clone, Copy, Debug, PartialEq, Eq, Structural)]
pub enum Ep0Action {
    /// The packet or request is not understood.
    Stall,
    /// Remember the address and acknowledge; it applies after the status stage.
    SetAddress(u8),
    /// Set up the bulk endpoints and acknowledge.
    ConfigureBulkEndpoints,
    /// Acknowledge with an empty data stage.
    Ack,
    /// Answer with the request's data.
    Respond(SetupPacket, ControlRequest),
}

pub open spec fn spec_ep0_action(setup_bytes: Seq<u8>) -> Ep0Action {
    if setup_bytes.len() != 8 {
        Ep0Action::Stall
    } else {
        let setup = SetupPacket::spec_from_bytes(setup_bytes);
        match setup.spec_control_request() {
            Err(_) => Ep0Action::Stall,
            Ok(request) => match request {
                ControlRequest::SetAddress(address) => Ep0Action::SetAddress(
                    (address % 128) as u8,
                ),
                ControlRequest::SetConfiguration(_) => Ep0Action::ConfigureBulkEndpoints,
                ControlRequest::SetInterface { .. } => Ep0Action::Ack,
                ControlRequest::DfuDetach { .. } => Ep0Action::Ack,
                _ => Ep0Action::Respond(setup, request),
            },
        }
    }
}

/// What endpoint 0 does with a setup packet: one that is not eight bytes
/// long, or asks for an unsupported request, stalls; set address
/// acknowledges and keeps the seven address bits of the value's low byte;
/// set configuration sets up the bulk endpoints; set interface and DFU
/// detach are acknowledged; get status, get descriptor and DFU get status
/// are answered with data.
pub proof fn lemma_ep0_actions(b: Seq<u8>)
    ensures
        b.len() != 8 ==> spec_ep0_action(b) == Ep0Action::Stall,
        b.len() == 8 ==> (spec_ep0_action(b) == Ep0Action::Stall <==> !((b[0] == 0x80 && (b[1]
            == 0x00 || b[1] == 0x06)) || (b[0] == 0x00 && (b[1] == 0x05 || b[1] == 0x09)) || (b[0]
            == 0x01 && b[1] == 0x0B) || (b[0] == 0xA1 && b[1] == 0x03) || (b[0] == 0x21 && b[1]
            == 0x00))),
        b.len() == 8 && b[0] == 0x00 && b[1] == 0x05 ==> spec_ep0_action(b) == Ep0Action::SetAddress(
            (b[2] % 128) as u8,
        ),
        b.len() == 8 && b[0] == 0x00 && b[1] == 0x09 ==> spec_ep0_action(b)
            == Ep0Action::ConfigureBulkEndpoints,
        b.len() == 8 && ((b[0] == 0x01 && b[1] == 0x0B) || (b[0] == 0x21 && b[1] == 0x00))
            ==> spec_ep0_action(b) == Ep0Action::Ack,
        b.len() == 8 && ((b[0] == 0x80 && (b[1] == 0x00 || b[1] == 0x06)) || (b[0] == 0xA1 && b[1]
            == 0x03)) ==> (spec_ep0_action(b) matches Ep0Action::Respond(setup, _) && setup
            == SetupPacket::spec_from_bytes(b)),
{
    if b.len() == 8 {
        let setup = SetupPacket::spec_from_bytes(b);
        assert(setup.value % 256 == b[2]);
    }
}

pub fn ep0_setup_action(setup_bytes: &[u8]) -> (a: Ep0Action)
    ensures
        a == spec_ep0_action(setup_bytes@),
{
    let setup = match SetupPacket::decode(setup_bytes) {
        Ok(s) => s,
        Err(_) => return Ep0Action::Stall,
    };
    let request = match setup.control_request() {
        Ok(r) => r,
        Err(_) => return Ep0Action::Stall,
    };
    match request {
        ControlRequest::SetAddress(address) => {
            let a = address & (USB_DADDR_ADD as u8);
            proof {
                lemma_address_bits(address);
            }
            Ep0Action::SetAddress(a)
        },
        ControlRequest::SetConfiguration(_) => Ep0Action::ConfigureBulkEndpoints,
        ControlRequest::SetInterface { .. } => Ep0Action::Ack,
        ControlRequest::DfuDetach { .. } => Ep0Action::Ack,
        _ => Ep0Action::Respond(setup, request),
    }
}

/// The front `limit` bytes of `data`, or all of it when shorter.
pub open spec fn spec_limited(data: Seq<u8>, limit: u16) -> Seq<u8> {
    data.subrange(
        0,
        if data.len() < limit {
            data.len() as int
        } else {
            limit as int
        },
    )
}

/// The data stage that answers `request`: its bytes, or its string as a
/// descriptor built in a 64-byte buffer, cut to the length the host asked
/// for; an empty stage for a bare acknowledgement; none (a stall) when the
/// request is refused or the descriptor does not fit.
pub open spec fn spec_control_reply(setup: SetupPacket, request: ControlRequest, serial: &str) -> Option<
    Seq<u8>,
> {
    match spec_control_response(request, serial, CONFIGURATION_STRING, INTERFACE_STRING) {
        Err(_) => None,
        Ok(ControlResponse::Bytes(b)) => Some(spec_limited(b@, setup.length)),
        Ok(ControlResponse::StringAscii(s)) => if 2 * s.spec_bytes().len() + 2 > 64 {
            None
        } else {
            Some(spec_limited(spec_string_descriptor(s.spec_bytes()), setup.length))
        },
        Ok(ControlResponse::StatusAck) => Some(Seq::empty()),
    }
}

pub fn control_reply(setup: SetupPacket, request: ControlRequest, serial: &str) -> (r: Option<
    Vec<u8>,
>)
    ensures
        match r {
            None => spec_control_reply(setup, request, serial) is None,
            Some(v) => spec_control_reply(setup, request, serial) == Some(v@),
        },
{
    let response = match control_response(request, serial, CONFIGURATION_STRING, INTERFACE_STRING) {
        Ok(r) => r,
        Err(_) => return None,
    };
    match response {
        ControlResponse::Bytes(bytes) => {
            let limited = limit_to_setup_length(bytes, setup);
            let mut v: Vec<u8> = Vec::new();
            push_bytes(&mut v, limited);
            assert(v@ =~= limited@);
            Some(v)
        },
        ControlResponse::StringAscii(value) => {
            let mut descriptor = [0u8; 64];
            match write_ascii_string_descriptor(value, &mut descriptor) {
                Ok(d) => {
                    let limited = limit_to_setup_length(d, setup);
                    let mut v: Vec<u8> = Vec::new();
                    push_bytes(&mut v, limited);
                    assert(v@ =~= limited@);
                    Some(v)
                },
                Err(_) => None,
            }
        },
        ControlResponse::StatusAck => Some(Vec::new()),
    }
}

} // verus!
