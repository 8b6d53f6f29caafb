//! The Heart Rate Measurement characteristic (GATT 0x2A37) and its decoder.
//!
//! A payload opens with a flags byte. Bit 0 selects an 8-bit or a 16-bit
//! little-endian heart rate, bits 1 and 2 report sensor contact, bit 3
//! announces a 16-bit energy field and bit 4 announces that every remaining
//! complete pair of bytes is an R-R interval.

use vstd::prelude::*;

verus! {

/// Flags bit 0: the heart rate is a 16-bit value.
pub const FLAG_HEART_RATE_16BIT: u8 = 0x01;

/// Flags bit 1: the sensor reports skin contact.
pub const FLAG_SENSOR_CONTACT_DETECTED: u8 = 0x02;

/// Flags bit 2: the sensor is able to report skin contact.
pub const FLAG_SENSOR_CONTACT_SUPPORTED: u8 = 0x04;

/// Flags bit 3: an energy-expended field follows the heart rate.
pub const FLAG_ENERGY_EXPENDED_PRESENT: u8 = 0x08;

/// Flags bit 4: R-R intervals fill the rest of the payload.
pub const FLAG_RR_INTERVAL_PRESENT: u8 = 0x10;

/// Why a payload was rejected.
#[derive(Clone, Copy, Debug, PartialEq, Eq)]
pub enum DecodeError {
    /// The buffer is empty or shorter than its flags byte declares.
    MalformedPayload,
}

/// One decoded notification of the Heart Rate Measurement characteristic.
#[derive(Debug, PartialEq, Eq)]
pub struct HeartRateMeasurement {
    /// Beats per minute.
    pub heart_rate: u16,
    pub sensor_contact_detected: bool,
    pub sensor_contact_supported: bool,
    pub energy_expended_present: bool,
    /// Kilojoules; zero when the field is absent.
    pub energy_expended: u16,
    /// Milliseconds between beats, in the order received; empty when absent.
    pub rr_intervals: Vec<u16>,
}

/// The mathematical value of a [`HeartRateMeasurement`].
pub struct Measurement {
    pub heart_rate: u16,
    pub sensor_contact_detected: bool,
    pub sensor_contact_supported: bool,
    pub energy_expended_present: bool,
    pub energy_expended: u16,
    pub rr_intervals: Seq<u16>,
}

impl View for HeartRateMeasurement {
    type V = Measurement;

    open spec fn view(&self) -> Measurement {
        Measurement {
            heart_rate: self.heart_rate,
            sensor_contact_detected: self.sensor_contact_detected,
            sensor_contact_supported: self.sensor_contact_supported,
            energy_expended_present: self.energy_expended_present,
            energy_expended: self.energy_expended,
            rr_intervals: self.rr_intervals@,
        }
    }
}

impl Clone for HeartRateMeasurement {
    fn clone(&self) -> (copy: Self)
        ensures
            copy@ == self@,
    {
        HeartRateMeasurement {
            heart_rate: self.heart_rate,
            sensor_contact_detected: self.sensor_contact_detected,
            sensor_contact_supported: self.sensor_contact_supported,
            energy_expended_present: self.energy_expended_present,
            energy_expended: self.energy_expended,
            rr_intervals: self.rr_intervals.clone(),
        }
    }
}

pub open spec fn heart_rate_is_16bit(flags: u8) -> bool {
    flags % 2 == 1
}

pub open spec fn contact_detected(flags: u8) -> bool {
    (flags / 2) % 2 == 1
}

pub open spec fn contact_supported(flags: u8) -> bool {
    (flags / 4) % 2 == 1
}

pub open spec fn energy_present(flags: u8) -> bool {
    (flags / 8) % 2 == 1
}

pub open spec fn rr_present(flags: u8) -> bool {
    (flags / 16) % 2 == 1
}

/// The 16-bit value whose little-endian bytes are `low`, `high`.
pub open spec fn u16_le(low: u8, high: u8) -> u16 {
    (low + 256 * high) as u16
}

/// Offset of the field that follows the heart rate.
pub open spec fn energy_offset(flags: u8) -> int {
    if heart_rate_is_16bit(flags) {
        3
    } else {
        2
    }
}

/// Number of bytes that the flags byte declares: the flags themselves, the
/// heart rate and, where announced, the energy field. R-R intervals follow
/// from here.
pub open spec fn declared_len(flags: u8) -> int {
    if energy_present(flags) {
        energy_offset(flags) + 2
    } else {
        energy_offset(flags)
    }
}

/// A payload can be decoded when it holds all that its flags byte declares.
pub open spec fn decodable(bytes: Seq<u8>) -> bool {
    bytes.len() >= 1 && bytes.len() >= declared_len(bytes[0])
}

/// Number of R-R intervals in a decodable payload: every complete pair of
/// bytes after the declared fields, where the flags announce them.
pub open spec fn rr_count(bytes: Seq<u8>) -> int {
    if rr_present(bytes[0]) {
        (bytes.len() - declared_len(bytes[0])) / 2
    } else {
        0
    }
}

/// Number of bytes of a decodable payload that its decoding reads.
pub open spec fn consumed_len(bytes: Seq<u8>) -> int {
    declared_len(bytes[0]) + 2 * rr_count(bytes)
}

/// What a decodable payload means.
pub open spec fn decoded(bytes: Seq<u8>) -> Measurement {
    let flags = bytes[0];
    let energy_at = energy_offset(flags);
    let rr_at = declared_len(flags);
    Measurement {
        heart_rate: if heart_rate_is_16bit(flags) {
            u16_le(bytes[1], bytes[2])
        } else {
            bytes[1] as u16
        },
        sensor_contact_detected: contact_detected(flags),
        sensor_contact_supported: contact_supported(flags),
        energy_expended_present: energy_present(flags),
        energy_expended: if energy_present(flags) {
            u16_le(bytes[energy_at], bytes[energy_at + 1])
        } else {
            0
        },
        rr_intervals: Seq::new(
            rr_count(bytes) as nat,
            |i: int| u16_le(bytes[rr_at + 2 * i], bytes[rr_at + 2 * i + 1]),
        ),
    }
}

proof fn lemma_flag_masks(flags: u8)
    by (bit_vector)
    ensures
        (flags & 0x01 != 0) == (flags % 2 == 1),
        (flags & 0x02 != 0) == ((flags / 2) % 2 == 1),
        (flags & 0x04 != 0) == ((flags / 4) % 2 == 1),
        (flags & 0x08 != 0) == ((flags / 8) % 2 == 1),
        (flags & 0x10 != 0) == ((flags / 16) % 2 == 1),
{
}

fn read_u16_le(low: u8, high: u8) -> (value: u16)
    ensures
        value == u16_le(low, high),
{
    low as u16 + 256 * (high as u16)
}

/// Decodes one notification payload.
///
/// Fails exactly when the buffer is empty or ends before a field that its
/// flags byte declares. Bytes after the last complete R-R pair (or, without
/// R-R intervals, after the declared fields) are not read.
pub fn decode(bytes: &[u8]) -> (result: Result<HeartRateMeasurement, DecodeError>)
    ensures
        decodable(bytes@) ==> result is Ok && result->Ok_0@ == decoded(bytes@),
        !decodable(bytes@) ==> result == Err::<HeartRateMeasurement, DecodeError>(
            DecodeError::MalformedPayload,
        ),
{
    let len = bytes.len();
    if len < 2 {
        return Err(DecodeError::MalformedPayload);
    }
    let flags = bytes[0];
    proof {
        lemma_flag_masks(flags);
    }
    let heart_rate_16bit = flags & FLAG_HEART_RATE_16BIT != 0;
    let sensor_contact_detected = flags & FLAG_SENSOR_CONTACT_DETECTED != 0;
    let sensor_contact_supported = flags & FLAG_SENSOR_CONTACT_SUPPORTED != 0;
    let energy_expended_present = flags & FLAG_ENERGY_EXPENDED_PRESENT != 0;
    let rr_interval_present = flags & FLAG_RR_INTERVAL_PRESENT != 0;

    let mut offset: usize = 1;
    let heart_rate: u16;
    if heart_rate_16bit {
        if len < 3 {
            return Err(DecodeError::MalformedPayload);
        }
        heart_rate = read_u16_le(bytes[1], bytes[2]);
        offset = 3;
    } else {
        heart_rate = bytes[1] as u16;
        offset = 2;
    }

    let energy_expended: u16;
    if energy_expended_present {
        if len - offset < 2 {
            return Err(DecodeError::MalformedPayload);
        }
        energy_expended = read_u16_le(bytes[offset], bytes[offset + 1]);
        offset = offset + 2;
    } else {
        energy_expended = 0;
    }

    let rr_at = offset;
    let mut rr_intervals: Vec<u16> = Vec::new();
    if rr_interval_present {
        while len - offset >= 2
            invariant
                len == bytes@.len(),
                rr_at <= offset <= len,
                offset == rr_at + 2 * rr_intervals@.len(),
                forall|i: int|
                    0 <= i < rr_intervals@.len() ==> rr_intervals@[i] == u16_le(
                        bytes@[rr_at + 2 * i],
                        bytes@[rr_at + 2 * i + 1],
                    ),
            decreases len - offset,
        {
            let interval = read_u16_le(bytes[offset], bytes[offset + 1]);
            rr_intervals.push(interval);
            offset = offset + 2;
        }
    }
    let measurement = HeartRateMeasurement {
        heart_rate,
        sensor_contact_detected,
        sensor_contact_supported,
        energy_expended_present,
        energy_expended,
        rr_intervals,
    };
    assert(measurement@.rr_intervals =~= decoded(bytes@).rr_intervals);
    Ok(measurement)
}

/// The decoder reads a prefix of the payload whose length follows from the
/// flags byte and the payload's length alone, and nothing after it: the
/// declared fields and, where R-R intervals are announced, every complete
/// pair after them, which leaves at most one byte unread. Cutting the payload
/// down to that prefix changes nothing of what is decoded. Fields that the
/// flags do not announce come out empty or zero.
pub proof fn lemma_decode_reads_exact_prefix(bytes: Seq<u8>)
    requires
        decodable(bytes),
    ensures
        2 <= declared_len(bytes[0]) <= consumed_len(bytes) <= bytes.len(),
        rr_present(bytes[0]) ==> bytes.len() - consumed_len(bytes) <= 1,
        !rr_present(bytes[0]) ==> consumed_len(bytes) == declared_len(bytes[0]),
        !rr_present(bytes[0]) ==> decoded(bytes).rr_intervals.len() == 0,
        !energy_present(bytes[0]) ==> decoded(bytes).energy_expended == 0,
        decodable(bytes.subrange(0, consumed_len(bytes))),
        consumed_len(bytes.subrange(0, consumed_len(bytes))) == consumed_len(bytes),
        decoded(bytes.subrange(0, consumed_len(bytes))) == decoded(bytes),
{
    let prefix = bytes.subrange(0, consumed_len(bytes));
    assert(prefix[0] == bytes[0]);
    assert(rr_count(prefix) == rr_count(bytes));
    assert(decoded(prefix).rr_intervals =~= decoded(bytes).rr_intervals);
}

/// A single byte left over after the last complete R-R pair is ignored: the
/// payload still decodes, and to the same measurement.
pub proof fn lemma_dangling_byte_ignored(bytes: Seq<u8>, extra: u8)
    requires
        decodable(bytes),
        rr_present(bytes[0]),
        (bytes.len() - declared_len(bytes[0])) % 2 == 0,
    ensures
        decodable(bytes.push(extra)),
        decoded(bytes.push(extra)) == decoded(bytes),
{
    let longer = bytes.push(extra);
    assert(longer[0] == bytes[0]);
    assert(rr_count(longer) == rr_count(bytes));
    assert(decoded(longer).rr_intervals =~= decoded(bytes).rr_intervals);
}

} // verus!
