//! Decoding of the Temperature Measurement notification payload.
//!
//! A well-formed payload is exactly five bytes: a flags byte whose bit 0
//! names the unit (clear = Celsius, set = Fahrenheit), followed by a
//! little-endian 32-bit word of which only the low 24 bits carry data. The
//! low 24 bits are a millidegree count in the unit named by the flags byte.
//! Any payload of another length yields no sample.

use vstd::prelude::*;

verus! {

/// Temperature unit named by bit 0 of the payload's flags byte.
#[derive(Clone, Copy, PartialEq, Eq, Structural, Debug)]
pub enum Unit {
    Celsius,
    Fahrenheit,
}

/// One decoded sample: a millidegree count in the unit it was reported in.
///
/// The displayed value is `millis / 1000` degrees, converted to Celsius by
/// the (floating-point, unverified) display side when the unit is
/// Fahrenheit. The verified core stops at the exact integer reading.
#[derive(Clone, Copy, PartialEq, Eq, Structural, Debug)]
pub struct Sample {
    pub unit: Unit,
    pub millis: u32,
}

/// The unit bit: bit 0 of the flags byte, set for Fahrenheit.
pub open spec fn spec_is_fahrenheit(flags: u8) -> bool {
    flags & 1 == 1
}

/// The millidegree count of a five-byte payload: the low 24 bits of the
/// little-endian word at offsets 1..5. The byte at offset 4 is the top byte
/// of that word and is masked off entirely.
pub open spec fn spec_millis(b: Seq<u8>) -> u32
    recommends
        b.len() == 5,
{
    (b[1] + b[2] * 0x100 + b[3] * 0x10000) as u32
}

/// What decoding a raw payload yields: a sample exactly when the buffer is
/// five bytes long; the unit from bit 0 of the flags byte and the
/// millidegree count from the low 24 bits of the trailing word.
pub open spec fn spec_decode(b: Seq<u8>) -> Option<Sample> {
    if b.len() == 5 {
        Some(
            Sample {
                unit: if spec_is_fahrenheit(b[0]) {
                    Unit::Fahrenheit
                } else {
                    Unit::Celsius
                },
                millis: spec_millis(b),
            },
        )
    } else {
        None
    }
}

/// Decode one notification payload, or report that it is malformed.
pub fn decode(buf: &[u8]) -> (r: Option<Sample>)
    ensures
        r == spec_decode(buf@),
{
    if buf.len() != 5 {
        return None;
    }
    let unit = if buf[0] & 1 == 1 {
        Unit::Fahrenheit
    } else {
        Unit::Celsius
    };
    let millis: u32 = buf[1] as u32 + (buf[2] as u32) * 0x100 + (buf[3] as u32) * 0x10000;
    Some(Sample { unit, millis })
}

/// Length discipline: a payload yields a sample exactly when it is five
/// bytes long.
pub proof fn lemma_decode_length(b: Seq<u8>)
    ensures
        spec_decode(b) is Some <==> b.len() == 5,
{
}

/// Celsius identity: a clear unit bit and the three little-endian data bytes
/// of any 24-bit count `m` decode to `m` millidegrees Celsius, whatever the
/// flags byte's other bits and the payload's last byte hold.
pub proof fn lemma_decode_celsius(m: u32, flags: u8, tail: u8)
    requires
        m < 0x1000000,
        flags & 1 == 0,
    ensures
        spec_decode(
            seq![flags, (m & 0xff) as u8, ((m >> 8) & 0xff) as u8, ((m >> 16) & 0xff) as u8, tail],
        ) == Some(Sample { unit: Unit::Celsius, millis: m }),
{
    let b = seq![flags, (m & 0xff) as u8, ((m >> 8) & 0xff) as u8, ((m >> 16) & 0xff) as u8, tail];
    assert(b.len() == 5);
    assert(((m & 0xff) as u8) as u32 == m & 0xff) by (bit_vector);
    assert((((m >> 8) & 0xff) as u8) as u32 == (m >> 8) & 0xff) by (bit_vector);
    assert((((m >> 16) & 0xff) as u8) as u32 == (m >> 16) & 0xff) by (bit_vector);
    assert((m & 0xff) + ((m >> 8) & 0xff) * 0x100 + ((m >> 16) & 0xff) * 0x10000 == m)
        by (bit_vector)
        requires
            m < 0x1000000,
    ;
    assert(spec_millis(b) == m);
}

/// Any decoded millidegree count fits in 24 bits: the top byte of the
/// trailing word is masked off.
pub proof fn lemma_millis_bound(b: Seq<u8>)
    ensures
        spec_decode(b) matches Some(s) ==> s.millis < 0x1000000,
{
}

/// Fahrenheit flag: a set unit bit marks the sample Fahrenheit and leaves
/// the millidegree count untouched. The division by 1000 and the conversion
/// `(v - 32) / 1.8` are floating point and live outside the verified core.
pub proof fn lemma_decode_fahrenheit(b: Seq<u8>)
    requires
        b.len() == 5,
        b[0] & 1 == 1,
    ensures
        spec_decode(b) == Some(Sample { unit: Unit::Fahrenheit, millis: spec_millis(b) }),
{
}

/// Masking: the payload's last byte — the top eight bits of the trailing
/// little-endian word — never affects what is decoded.
pub proof fn lemma_decode_masks_top_byte(b1: Seq<u8>, b2: Seq<u8>)
    requires
        b1.len() == 5,
        b2.len() == 5,
        forall|i: int| 0 <= i < 4 ==> b1[i] == b2[i],
    ensures
        spec_decode(b1) == spec_decode(b2),
{
    assert(b1[0] == b2[0]);
    assert(spec_millis(b1) == spec_millis(b2));
}

} // verus!
