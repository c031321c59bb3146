//! Decoding of the EtherCAT gateway's UDP frames.
//!
//! Layout (little endian): timestamp `i64`, machine id `u16`, spindle id `u8`,
//! then the vibration, temperature and displacement channel counts (one byte
//! each), the spindle speed as an IEEE-754 `f64`, and finally the channel
//! samples as `f64` values, vibration first. Floating-point values are carried
//! as their 64-bit patterns; the library never interprets them.

use vstd::prelude::*;
use byteorder::{ByteOrder, LittleEndian};
use crate::models::SensorData;

verus! {

/// Little-endian value of the `n` bytes of `s` starting at `pos`.
pub open spec fn le_bytes(s: Seq<u8>, pos: int, n: nat) -> int
    decreases n,
{
    if n == 0 {
        0
    } else {
        s[pos] as int + 256 * le_bytes(s, pos + 1, (n - 1) as nat)
    }
}

/// Two's-complement reading of an unsigned 64-bit value.
pub open spec fn as_signed64(v: int) -> int {
    if v < 0x8000_0000_0000_0000 {
        v
    } else {
        v - 0x1_0000_0000_0000_0000
    }
}

/// Bytes taken by the fixed header that precedes the samples.
pub open spec fn header_len() -> int {
    22
}

/// Total number of `f64` samples announced by a header.
pub open spec fn sample_count(s: Seq<u8>) -> int {
    s[11] as int + s[12] as int + s[13] as int
}

/// Bytes a well-formed frame with this header occupies.
pub open spec fn frame_len(s: Seq<u8>) -> int {
    header_len() + 8 * sample_count(s)
}

/// Whether `s` holds a complete frame (extra trailing bytes are ignored).
pub open spec fn frame_complete(s: Seq<u8>) -> bool {
    s.len() >= header_len() && s.len() >= frame_len(s)
}

/// The `count` consecutive 64-bit little-endian words starting at `start`.
pub open spec fn words(s: Seq<u8>, start: int, count: nat) -> Seq<u64> {
    Seq::new(count, |i: int| le_bytes(s, start + 8 * i, 8) as u64)
}

/// Why a frame could not be decoded.
#[derive(Debug, Clone, Copy, PartialEq, Eq, Structural)]
pub enum FrameError {
    /// The datagram ended before the header or the announced samples did.
    Truncated,
}

/// `LittleEndian::read_u16` (byteorder): the first two bytes of the slice,
/// least significant first.
#[verifier::external_body]
fn read_u16_le(data: &[u8], pos: usize) -> (r: u16)
    requires
        pos + 2 <= data@.len(),
    ensures
        r as int == le_bytes(data@, pos as int, 2),
{
    <LittleEndian as ByteOrder>::read_u16(&data[pos..])
}

/// `LittleEndian::read_u64` (byteorder): the first eight bytes of the slice,
/// least significant first.
#[verifier::external_body]
fn read_u64_le(data: &[u8], pos: usize) -> (r: u64)
    requires
        pos + 8 <= data@.len(),
    ensures
        r as int == le_bytes(data@, pos as int, 8),
{
    <LittleEndian as ByteOrder>::read_u64(&data[pos..])
}

/// `LittleEndian::read_i64` (byteorder): the first eight bytes of the slice,
/// least significant first, read as a two's-complement value.
#[verifier::external_body]
fn read_i64_le(data: &[u8], pos: usize) -> (r: i64)
    requires
        pos + 8 <= data@.len(),
    ensures
        r as int == as_signed64(le_bytes(data@, pos as int, 8)),
{
    <LittleEndian as ByteOrder>::read_i64(&data[pos..])
}

/// Reads `count` consecutive 64-bit words starting at byte `start`.
fn read_words(data: &[u8], start: usize, count: usize) -> (v: Vec<u64>)
    requires
        start + 8 * count <= data@.len(),
    ensures
        v@ == words(data@, start as int, count as nat),
{
    let n = data.len();
    let mut v: Vec<u64> = Vec::with_capacity(count);
    let mut k: usize = 0;
    while k < count
        invariant
            n == data@.len(),
            k <= count,
            start + 8 * count <= data@.len(),
            v@.len() == k,
            forall|i: int| 0 <= i < k ==> v@[i] == words(data@, start as int, count as nat)[i],
        decreases count - k,
    {
        assert(8 * k + 8 <= 8 * count) by (nonlinear_arith)
            requires
                k < count,
        ;
        let w = read_u64_le(data, start + 8 * k);
        v.push(w);
        k = k + 1;
    }
    assert(v@ =~= words(data@, start as int, count as nat));
    v
}

/// Decodes one UDP frame.
///
/// Succeeds exactly when the datagram holds the whole header and every
/// announced sample; bytes after the last sample are ignored.
pub fn parse_udp_packet(data: &[u8]) -> (r: Result<SensorData, FrameError>)
    ensures
        r is Ok <==> frame_complete(data@),
        r matches Ok(f) ==> {
            let s = data@;
            let v = s[11] as nat;
            let t = s[12] as nat;
            let d = s[13] as nat;
            &&& f.timestamp as int == as_signed64(le_bytes(s, 0, 8))
            &&& f.machine_id as int == le_bytes(s, 8, 2)
            &&& f.spindle_id == s[10]
            &&& f.rpm_bits as int == le_bytes(s, 14, 8)
            &&& f.vibration_bits@ == words(s, 22, v)
            &&& f.temperature_bits@ == words(s, 22 + 8 * v as int, t)
            &&& f.displacement_bits@ == words(s, 22 + 8 * (v + t) as int, d)
        },
{
    let len = data.len();
    if len < 22 {
        return Err(FrameError::Truncated);
    }
    let vib_count = data[11] as usize;
    let temp_count = data[12] as usize;
    let disp_count = data[13] as usize;
    let total = vib_count + temp_count + disp_count;
    if len - 22 < 8 * total {
        return Err(FrameError::Truncated);
    }
    let timestamp = read_i64_le(data, 0);
    let machine_id = read_u16_le(data, 8);
    let spindle_id = data[10];
    let rpm_bits = read_u64_le(data, 14);
    let vib_start: usize = 22;
    let temp_start: usize = vib_start + 8 * vib_count;
    let disp_start: usize = temp_start + 8 * temp_count;
    let vibration_bits = read_words(data, vib_start, vib_count);
    let temperature_bits = read_words(data, temp_start, temp_count);
    let displacement_bits = read_words(data, disp_start, disp_count);
    Ok(SensorData {
        timestamp,
        machine_id,
        spindle_id,
        vibration_bits,
        temperature_bits,
        displacement_bits,
        rpm_bits,
    })
}

} // verus!
