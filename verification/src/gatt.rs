//! What the bridge asks of a Bluetooth device: who made it, and whether it
//! offers the Heart Rate service with its measurement characteristic.
//!
//! UUIDs are handled as their 128-bit values.

use vstd::prelude::*;

verus! {

/// Short UUID of the Heart Rate service.
pub const HEART_RATE_SERVICE_UUID: u16 = 0x180D;

/// Short UUID of the Heart Rate Measurement characteristic.
pub const HEART_RATE_MEASUREMENT_CHARACTERISTIC_UUID: u16 = 0x2A37;

pub const POLAR_ELECTRO_OY_MANUFACTURER_ID: u16 = 0x6B;

pub const POLAR_ELECTRO_EU_MANUFACTURER_ID: u16 = 0xD1;

/// The Bluetooth Base UUID, `00000000-0000-1000-8000-00805f9b34fb`.
pub const BLUETOOTH_BASE_UUID: u128 = 0x00000000_0000_1000_8000_00805f9b34fb;

/// Weight of a short UUID inside a full one: it fills the bits from 96 up.
pub const SHORT_UUID_UNIT: u128 = 0x1_0000_0000_0000_0000_0000_0000;

/// The full UUID that a 16-bit short UUID stands for: the Bluetooth Base
/// UUID with the short value in its first group, `0000xxxx-0000-1000-...`.
pub open spec fn full_uuid(short: u16) -> u128 {
    (short as int * SHORT_UUID_UNIT as int + BLUETOOTH_BASE_UUID as int) as u128
}

/// Expands a 16-bit short UUID to its full 128-bit value. Nothing is cut
/// off: the sum fits in 128 bits for every short UUID.
pub fn uuid_from_u16(short: u16) -> (uuid: u128)
    ensures
        uuid == full_uuid(short),
        uuid == short as int * SHORT_UUID_UNIT as int + BLUETOOTH_BASE_UUID as int,
{
    short as u128 * SHORT_UUID_UNIT + BLUETOOTH_BASE_UUID
}

/// The manufacturers whose sensors the bridge accepts.
pub open spec fn accepted_manufacturer(id: u16) -> bool {
    id == POLAR_ELECTRO_OY_MANUFACTURER_ID || id == POLAR_ELECTRO_EU_MANUFACTURER_ID
}

/// A device is compatible when one of the manufacturer ids that it
/// advertises is an accepted one.
pub open spec fn compatible(manufacturer_ids: Seq<u16>) -> bool {
    exists|i: int|
        0 <= i < manufacturer_ids.len() && accepted_manufacturer(#[trigger] manufacturer_ids[i])
}

/// Whether `i` is where `uuid` first occurs in `uuids`.
pub open spec fn is_first_index_of(uuids: Seq<u128>, uuid: u128, i: int) -> bool {
    &&& 0 <= i < uuids.len()
    &&& uuids[i] == uuid
    &&& forall|j: int| 0 <= j < i ==> uuids[j] != uuid
}

/// Index of the first occurrence of `uuid`, if there is one.
pub open spec fn first_index_of(uuids: Seq<u128>, uuid: u128) -> Option<int> {
    if uuids.contains(uuid) {
        Some(choose|i: int| is_first_index_of(uuids, uuid, i))
    } else {
        None
    }
}

/// An index is the first occurrence exactly when [`first_index_of`] gives it.
pub proof fn lemma_first_index_of(uuids: Seq<u128>, uuid: u128, i: int)
    ensures
        is_first_index_of(uuids, uuid, i) <==> first_index_of(uuids, uuid) == Some(i),
        first_index_of(uuids, uuid) is None <==> !uuids.contains(uuid),
{
    if is_first_index_of(uuids, uuid, i) {
        let chosen = choose|k: int| is_first_index_of(uuids, uuid, k);
        assert(is_first_index_of(uuids, uuid, chosen));
        assert(chosen == i);
    }
    if first_index_of(uuids, uuid) == Some(i) {
        let k = choose|k: int| 0 <= k < uuids.len() && uuids[k] == uuid;
        lemma_first_occurrence_exists(uuids, uuid, k);
    }
}

proof fn lemma_first_occurrence_exists(uuids: Seq<u128>, uuid: u128, k: int)
    requires
        0 <= k < uuids.len(),
        uuids[k] == uuid,
    ensures
        exists|i: int| is_first_index_of(uuids, uuid, i),
    decreases k,
{
    if forall|j: int| 0 <= j < k ==> uuids[j] != uuid {
        assert(is_first_index_of(uuids, uuid, k));
    } else {
        let j = choose|j: int| 0 <= j < k && uuids[j] == uuid;
        lemma_first_occurrence_exists(uuids, uuid, j);
    }
}

/// Whether the keys of a device's advertised manufacturer data name an
/// accepted manufacturer.
pub fn is_compatible_manufacturer(manufacturer_ids: &[u16]) -> (accepted: bool)
    ensures
        accepted == compatible(manufacturer_ids@),
{
    let mut i: usize = 0;
    while i < manufacturer_ids.len()
        invariant
            0 <= i <= manufacturer_ids@.len(),
            forall|j: int| 0 <= j < i ==> !accepted_manufacturer(#[trigger] manufacturer_ids@[j]),
        decreases manufacturer_ids@.len() - i,
    {
        let id = manufacturer_ids[i];
        if id == POLAR_ELECTRO_OY_MANUFACTURER_ID || id == POLAR_ELECTRO_EU_MANUFACTURER_ID {
            return true;
        }
        i = i + 1;
    }
    false
}

/// Position of the first of `uuids` that equals `uuid`.
fn position_of(uuids: &[u128], uuid: u128) -> (position: Option<usize>)
    ensures
        match position {
            Some(i) => first_index_of(uuids@, uuid) == Some(i as int) && is_first_index_of(
                uuids@,
                uuid,
                i as int,
            ),
            None => first_index_of(uuids@, uuid) is None && !uuids@.contains(uuid),
        },
{
    let mut i: usize = 0;
    while i < uuids.len()
        invariant
            0 <= i <= uuids@.len(),
            forall|j: int| 0 <= j < i ==> uuids@[j] != uuid,
        decreases uuids@.len() - i,
    {
        if uuids[i] == uuid {
            proof {
                lemma_first_index_of(uuids@, uuid, i as int);
            }
            return Some(i);
        }
        i = i + 1;
    }
    None
}

/// Whether the services that a device offers include the Heart Rate service.
pub fn has_heartrate_service(service_uuids: &[u128]) -> (present: bool)
    ensures
        present == service_uuids@.contains(full_uuid(HEART_RATE_SERVICE_UUID)),
{
    position_of(service_uuids, uuid_from_u16(HEART_RATE_SERVICE_UUID)).is_some()
}

/// Finds the Heart Rate Measurement characteristic among the
/// characteristics of a device: the index of the first that carries its
/// UUID, or `None` where none does.
pub fn get_heartrate_measurement_characteristic(characteristic_uuids: &[u128]) -> (found: Option<
    usize,
>)
    ensures
        match found {
            Some(i) => first_index_of(
                characteristic_uuids@,
                full_uuid(HEART_RATE_MEASUREMENT_CHARACTERISTIC_UUID),
            ) == Some(i as int) && is_first_index_of(
                characteristic_uuids@,
                full_uuid(HEART_RATE_MEASUREMENT_CHARACTERISTIC_UUID),
                i as int,
            ),
            None => !characteristic_uuids@.contains(
                full_uuid(HEART_RATE_MEASUREMENT_CHARACTERISTIC_UUID),
            ),
        },
{
    position_of(characteristic_uuids, uuid_from_u16(HEART_RATE_MEASUREMENT_CHARACTERISTIC_UUID))
}

} // verus!
