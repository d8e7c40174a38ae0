//! The telemetry record schema: each sample becomes one fixed-length opaque
//! byte record.
//!
//! Layout of the 16 bytes: byte 0 is the direction code (the output index
//! `0..8` of the bucket, or 8 for flat); bytes 1..7 hold the three unit
//! vector components, each biased by 1000 and stored little endian in two
//! bytes; bytes 7..16 are zero padding.

use crate::direction::Direction;
use crate::vector::UnitVector;
use crate::vector::unit_in_range;
use vstd::prelude::*;

verus! {

use vstd::arithmetic::div_mod::lemma_fundamental_div_mod;

/// Length in bytes of one telemetry record.
pub const PAYLOAD_LEN: usize = 16;

/// The direction code stored in byte 0: the output index of the bucket, or
/// 8 for flat.
pub open spec fn code_of(d: Option<Direction>) -> int {
    match d {
        Option::None => 8,
        Option::Some(dd) => dd.index_spec(),
    }
}

/// Low byte of a biased component.
pub open spec fn comp_lo(c: int) -> u8 {
    ((c + 1000) % 256) as u8
}

/// High byte of a biased component.
pub open spec fn comp_hi(c: int) -> u8 {
    ((c + 1000) / 256) as u8
}

/// The record encoding a classified sample.
pub open spec fn payload_spec(u: UnitVector, d: Option<Direction>) -> Seq<u8> {
    seq![
        code_of(d) as u8,
        comp_lo(u.x as int),
        comp_hi(u.x as int),
        comp_lo(u.y as int),
        comp_hi(u.y as int),
        comp_lo(u.z as int),
        comp_hi(u.z as int),
        0u8,
        0u8,
        0u8,
        0u8,
        0u8,
        0u8,
        0u8,
        0u8,
        0u8,
    ]
}

/// The biased component held in two little-endian bytes, unbiased again.
pub open spec fn decoded_comp(lo: u8, hi: u8) -> int {
    lo + 256 * hi - 1000
}

/// `b` is a well-formed record: right length, a known direction code, and
/// every component within one unit.
pub open spec fn payload_ok(b: Seq<u8>) -> bool {
    &&& b.len() == PAYLOAD_LEN
    &&& b[0] <= 8
    &&& -1000 <= decoded_comp(b[1], b[2]) <= 1000
    &&& -1000 <= decoded_comp(b[3], b[4]) <= 1000
    &&& -1000 <= decoded_comp(b[5], b[6]) <= 1000
}

/// The unit vector a well-formed record carries.
pub open spec fn decoded_unit(b: Seq<u8>) -> UnitVector {
    UnitVector {
        x: decoded_comp(b[1], b[2]) as i32,
        y: decoded_comp(b[3], b[4]) as i32,
        z: decoded_comp(b[5], b[6]) as i32,
    }
}

/// The classification a well-formed record carries.
pub open spec fn decoded_direction(b: Seq<u8>) -> Option<Direction> {
    if b[0] == 8 {
        Option::None
    } else {
        Option::Some(Direction::from_index_spec(b[0] as int))
    }
}

/// A decoded telemetry record: the unit vector and its classification.
#[derive(Clone, Copy, Debug)]
pub struct TelemetryRecord {
    pub unit: UnitVector,
    pub direction: Option<Direction>,
}

fn encode_component(c: i32) -> (r: (u8, u8))
    requires
        -1000 <= c <= 1000,
    ensures
        r.0 == comp_lo(c as int),
        r.1 == comp_hi(c as int),
{
    let b: u32 = (c + 1000) as u32;
    ((b % 256) as u8, (b / 256) as u8)
}

/// Encodes one classified sample as a 16-byte record.
pub fn encode_payload(u: &UnitVector, d: Option<Direction>) -> (v: Vec<u8>)
    requires
        unit_in_range(*u),
    ensures
        v@ == payload_spec(*u, d),
        v@.len() == PAYLOAD_LEN,
{
    let code: u8 = match d {
        Option::None => 8,
        Option::Some(dd) => dd.index() as u8,
    };
    let x = encode_component(u.x);
    let y = encode_component(u.y);
    let z = encode_component(u.z);
    let mut v: Vec<u8> = Vec::new();
    v.push(code);
    v.push(x.0);
    v.push(x.1);
    v.push(y.0);
    v.push(y.1);
    v.push(z.0);
    v.push(z.1);
    let mut i: usize = 0;
    while i < 9
        invariant
            v@.len() == 7 + i,
            i <= 9,
            v@ == payload_spec(*u, d).take(7 + i as int),
        decreases 9 - i,
    {
        v.push(0u8);
        proof {
            assert(v@ =~= payload_spec(*u, d).take(7 + (i + 1)));
        }
        i = i + 1;
    }
    proof {
        assert(v@ =~= payload_spec(*u, d));
    }
    v
}

/// Decodes a record; yields the carried sample exactly for well-formed
/// records and rejects every other byte string.
pub fn decode_payload(bytes: &Vec<u8>) -> (r: Option<TelemetryRecord>)
    ensures
        r is Some <==> payload_ok(bytes@),
        r matches Some(rec) ==> rec.unit == decoded_unit(bytes@) && rec.direction
            == decoded_direction(bytes@),
{
    if bytes.len() != PAYLOAD_LEN {
        return None;
    }
    let code: u8 = bytes[0];
    if code > 8 {
        return None;
    }
    let x: i32 = (bytes[1] as i32) + 256 * (bytes[2] as i32) - 1000;
    let y: i32 = (bytes[3] as i32) + 256 * (bytes[4] as i32) - 1000;
    let z: i32 = (bytes[5] as i32) + 256 * (bytes[6] as i32) - 1000;
    if x < -1000 || x > 1000 || y < -1000 || y > 1000 || z < -1000 || z > 1000 {
        return None;
    }
    let direction: Option<Direction> = if code == 8 {
        None
    } else {
        Some(Direction::from_index(code as usize))
    };
    Some(TelemetryRecord { unit: UnitVector { x, y, z }, direction })
}

/// Round-trip law: every record encoded from an in-range sample is
/// well formed and decodes back to exactly that sample.
pub proof fn lemma_payload_round_trip(u: UnitVector, d: Option<Direction>)
    requires
        unit_in_range(u),
    ensures
        payload_spec(u, d).len() == PAYLOAD_LEN,
        payload_ok(payload_spec(u, d)),
        decoded_unit(payload_spec(u, d)) == u,
        decoded_direction(payload_spec(u, d)) == d,
{
    let b = payload_spec(u, d);
    lemma_fundamental_div_mod(u.x + 1000, 256);
    lemma_fundamental_div_mod(u.y + 1000, 256);
    lemma_fundamental_div_mod(u.z + 1000, 256);
    assert(decoded_comp(b[1], b[2]) == u.x);
    assert(decoded_comp(b[3], b[4]) == u.y);
    assert(decoded_comp(b[5], b[6]) == u.z);
    match d {
        Option::None => {
            assert(b[0] == 8);
        }
        Option::Some(dd) => {
            crate::direction::lemma_direction_index_bijective(dd, dd);
            assert(b[0] == dd.index_spec());
        }
    }
}

} // verus!
