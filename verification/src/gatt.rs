//! GATT identifiers: expansion of 16-bit assigned numbers against the
//! Bluetooth base UUID, and lookup of the Temperature Measurement
//! characteristic in a peripheral's characteristic list.
//!
//! A 128-bit UUID is carried as a plain `u128`, most significant byte first,
//! as in its textual form.

use vstd::prelude::*;

verus! {

/// The Bluetooth base UUID `00000000-0000-1000-8000-00805F9B34FB`.
pub const BLUETOOTH_BASE_UUID: u128 = 0x00000000_0000_1000_8000_00805F9B34FB;

/// Assigned number of the Temperature Measurement characteristic.
pub const TEMPERATURE_MEASUREMENT: u16 = 0x2A1C;

/// Expansion of a 16-bit assigned number against the base UUID: the number
/// fills bits 96..112, the rest is the base.
pub open spec fn spec_uuid_from_u16(short: u16) -> u128 {
    ((short as u128) << 96) | BLUETOOTH_BASE_UUID
}

/// Expand a 16-bit assigned number to its full 128-bit UUID.
pub fn uuid_from_u16(short: u16) -> (r: u128)
    ensures
        r == spec_uuid_from_u16(short),
{
    ((short as u128) << 96) | BLUETOOTH_BASE_UUID
}

/// The Temperature Measurement characteristic expands to
/// `00002A1C-0000-1000-8000-00805F9B34FB`.
pub proof fn lemma_temperature_measurement_uuid()
    ensures
        spec_uuid_from_u16(TEMPERATURE_MEASUREMENT) == 0x00002A1C_0000_1000_8000_00805F9B34FBu128,
{
    assert(((0x2A1Cu16 as u128) << 96) | 0x00000000_0000_1000_8000_00805F9B34FBu128
        == 0x00002A1C_0000_1000_8000_00805F9B34FBu128) by (bit_vector);
}

/// Index of the first characteristic whose UUID equals `target`, if any.
pub fn find_characteristic(uuids: &Vec<u128>, target: u128) -> (r: Option<usize>)
    ensures
        match r {
            Some(i) => i < uuids@.len() && uuids@[i as int] == target && (forall|j: int|
                0 <= j < i ==> uuids@[j] != target),
            None => forall|j: int| 0 <= j < uuids@.len() ==> uuids@[j] != target,
        },
{
    let mut i: usize = 0;
    while i < uuids.len()
        invariant
            i <= uuids@.len(),
            forall|j: int| 0 <= j < i ==> uuids@[j] != target,
        decreases uuids@.len() - i,
    {
        if uuids[i] == target {
            return Some(i);
        }
        i += 1;
    }
    None
}

} // verus!
