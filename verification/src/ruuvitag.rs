//! The 24-byte payload of data format 5 and the readings decoded from it.
//!
//! | Offset | Bytes | Field                       | Encoding                          |
//! |--------|-------|-----------------------------|-----------------------------------|
//! | 0      | 1     | format version              | not examined                      |
//! | 1      | 2     | temperature                 | signed, units of 0.005 °C         |
//! | 3      | 2     | humidity                    | unsigned, units of 0.0025 %       |
//! | 5      | 2     | pressure                    | unsigned, offset from 50 000 Pa   |
//! | 7      | 6     | acceleration X, Y, Z        | signed, mG                        |
//! | 13     | 2     | power information           | 11 bits battery, 5 bits tx power  |
//! | 15     | 1     | movement counter            | unsigned                          |
//! | 16     | 2     | measurement sequence number | unsigned                          |
//! | 18     | 6     | MAC address                 | octets in transmission order      |
//!
//! Words of two bytes are big-endian.

use crate::envelope::{manufacturer_payload, payload_of, ChangedProperties};
use crate::error::DecodeError;
use crate::text::{hex_octet, push_hex_octet};
use vstd::prelude::*;

verus! {

/// The number of bytes of a payload in data format 5.
pub const PAYLOAD_LENGTH: usize = 24;

/// Millivolts that the battery field counts from.
pub const BATTERY_OFFSET: u16 = 1600;

/// Decibel-milliwatts that the transmit power field counts from.
pub const TX_POWER_OFFSET: i8 = -40;

/// Pascals that the pressure field counts from.
pub const PRESSURE_OFFSET: u32 = 50000;

/// The 16-bit word with `left` as its high byte and `right` as its low byte.
pub open spec fn joined(left: u8, right: u8) -> int {
    left as int * 256 + right as int
}

/// A 16-bit word read as a two's-complement number.
pub open spec fn signed16(word: int) -> int
    recommends
        0 <= word < 0x1_0000,
{
    if word < 0x8000 {
        word
    } else {
        word - 0x1_0000
    }
}

/// Joins two bytes into one big-endian word: `0xA1` and `0xB2` give `0xA1B2`.
pub fn join_u8(left: u8, right: u8) -> (word: u16)
    ensures
        word as int == joined(left, right),
{
    let word: u16 = (left as u16) << 8 | right as u16;
    assert(((left as u16) << 8 | right as u16) as int == left as int * 256 + right as int)
        by (bit_vector);
    word
}

/// Joins two bytes into one big-endian word and reads it as a signed number.
pub fn join_i16(left: u8, right: u8) -> (value: i16)
    ensures
        value as int == signed16(joined(left, right)),
{
    let word: u16 = join_u8(left, right);
    let value: i16 = word as i16;
    assert(word < 0x8000 ==> (word as i16) as int == word as int) by (bit_vector);
    assert(word >= 0x8000 ==> (word as i16) as int == word as int - 0x1_0000) by (bit_vector);
    value
}

/// Acceleration along the three axes, in milli-g.
#[derive(Debug, Clone, Copy, PartialEq, Eq, Structural)]
pub struct Acceleration {
    pub x: i16,
    pub y: i16,
    pub z: i16,
}

impl Acceleration {
    /// An acceleration with the given components.
    pub fn new(x: i16, y: i16, z: i16) -> (acceleration: Acceleration)
        ensures
            acceleration == (Acceleration { x, y, z }),
    {
        Acceleration { x, y, z }
    }
}

/// What a reading holds, as mathematical values: the raw fields of the payload.
pub struct Reading {
    /// Temperature in units of 0.005 °C.
    pub temperature: int,
    /// Relative humidity in units of 0.0025 %.
    pub humidity: int,
    /// Pressure in pascals above 50 000 Pa.
    pub pressure: int,
    /// Acceleration along the X axis in milli-g.
    pub acceleration_x: int,
    /// Acceleration along the Y axis in milli-g.
    pub acceleration_y: int,
    /// Acceleration along the Z axis in milli-g.
    pub acceleration_z: int,
    /// Battery voltage and transmit power, packed into one word.
    pub power_info: int,
    /// How often the tag has noticed movement; wraps.
    pub movement_counter: int,
    /// The number of the measurement; wraps.
    pub measurement_number: int,
    /// The six octets of the tag's MAC address.
    pub mac: Seq<u8>,
}

impl Reading {
    /// Every field is within the range of its encoding, and the MAC address has
    /// six octets.
    pub open spec fn is_well_formed(self) -> bool {
        &&& -0x8000 <= self.temperature < 0x8000
        &&& 0 <= self.humidity < 0x1_0000
        &&& 0 <= self.pressure < 0x1_0000
        &&& -0x8000 <= self.acceleration_x < 0x8000
        &&& -0x8000 <= self.acceleration_y < 0x8000
        &&& -0x8000 <= self.acceleration_z < 0x8000
        &&& 0 <= self.power_info < 0x1_0000
        &&& 0 <= self.movement_counter < 0x100
        &&& 0 <= self.measurement_number < 0x1_0000
        &&& self.mac.len() == 6
    }
}

/// The reading that the layout of data format 5 assigns to a payload.
pub open spec fn reading_of(payload: Seq<u8>) -> Reading
    recommends
        payload.len() == PAYLOAD_LENGTH,
{
    Reading {
        temperature: signed16(joined(payload[1], payload[2])),
        humidity: joined(payload[3], payload[4]),
        pressure: joined(payload[5], payload[6]),
        acceleration_x: signed16(joined(payload[7], payload[8])),
        acceleration_y: signed16(joined(payload[9], payload[10])),
        acceleration_z: signed16(joined(payload[11], payload[12])),
        power_info: joined(payload[13], payload[14]),
        movement_counter: payload[15] as int,
        measurement_number: joined(payload[16], payload[17]),
        mac: payload.subrange(18, 24),
    }
}

/// What decoding a payload gives: the reading of the layout for 24 bytes, and
/// the length error for any other number of bytes.
pub open spec fn decoded_payload(payload: Seq<u8>) -> Result<Reading, DecodeError> {
    if payload.len() == PAYLOAD_LENGTH {
        Ok(reading_of(payload))
    } else {
        Err(
            DecodeError::InvalidPayloadLength {
                expected: PAYLOAD_LENGTH,
                actual: payload.len() as usize,
            },
        )
    }
}

/// What decoding the changed properties of a device gives: the decoded payload
/// of their manufacturer data, where they have manufacturer data of the expected
/// shape, and otherwise the error of a malformed envelope.
pub open spec fn decoded(changed_properties: ChangedProperties) -> Result<Reading, DecodeError> {
    match changed_properties.manufacturer_data {
        Some(data) => match payload_of(data) {
            Some(payload) => decoded_payload(payload),
            None => Err(DecodeError::MalformedEnvelope),
        },
        None => Err(DecodeError::MalformedEnvelope),
    }
}

/// Decoding succeeds exactly on manufacturer data of the expected shape whose
/// payload has 24 bytes, and then gives the reading of the layout. A payload of
/// any other length is refused with the length error, which names both lengths.
/// Everything else is a malformed envelope.
pub proof fn lemma_decoding_outcomes(changed_properties: ChangedProperties)
    ensures
        ({
            let payload = match changed_properties.manufacturer_data {
                Some(data) => payload_of(data),
                None => None,
            };
            let outcome = decoded(changed_properties);
            &&& outcome is Ok <==> payload is Some && payload->0.len() == PAYLOAD_LENGTH
            &&& outcome is Ok ==> outcome->Ok_0 == reading_of(payload->0)
            &&& payload is Some && payload->0.len() != PAYLOAD_LENGTH ==> outcome == Err::<
                Reading,
                DecodeError,
            >(
                DecodeError::InvalidPayloadLength {
                    expected: PAYLOAD_LENGTH,
                    actual: payload->0.len() as usize,
                },
            )
            &&& payload is None ==> outcome == Err::<Reading, DecodeError>(
                DecodeError::MalformedEnvelope,
            )
        }),
{
}

/// Every reading that is decoded from a payload is well-formed.
pub proof fn lemma_reading_is_well_formed(payload: Seq<u8>)
    requires
        payload.len() == PAYLOAD_LENGTH,
    ensures
        reading_of(payload).is_well_formed(),
{
}

/// The temperature is read as a signed number: it is negative exactly when the
/// top bit of its high byte is set, and five times its value, the temperature
/// in thousandths of a degree, lies between -163 840 and 163 835. The lower
/// bound is the value of the word `0x8000`.
pub proof fn lemma_temperature_is_signed(payload: Seq<u8>)
    requires
        payload.len() == PAYLOAD_LENGTH,
    ensures
        reading_of(payload).temperature < 0 <==> payload[1] >= 0x80,
        -163_840 <= reading_of(payload).temperature * 5 <= 163_835,
        reading_of(payload).temperature * 5 == -163_840 <==> payload[1] == 0x80 && payload[2] == 0,
{
}

/// The format version in the first byte has no part in the reading: payloads
/// that agree from the second byte on give the same reading.
pub proof fn lemma_version_is_not_examined(first: Seq<u8>, second: Seq<u8>)
    requires
        first.len() == PAYLOAD_LENGTH,
        second.len() == PAYLOAD_LENGTH,
        first.subrange(1, 24) == second.subrange(1, 24),
    ensures
        reading_of(first) == reading_of(second),
{
    assert forall|i: int| 1 <= i < 24 implies first[i] == second[i] by {
        assert(first[i] == first.subrange(1, 24)[i - 1]);
        assert(second[i] == second.subrange(1, 24)[i - 1]);
    }
    assert(first.subrange(18, 24) =~= second.subrange(18, 24));
}

/// A MAC address as text: each octet as two upper-case hexadecimal digits,
/// the octets separated by colons.
pub open spec fn mac_text(mac: Seq<u8>) -> Seq<char>
    recommends
        mac.len() == 6,
{
    hex_octet(mac[0]) + seq![':'] + hex_octet(mac[1]) + seq![':'] + hex_octet(mac[2]) + seq![':']
        + hex_octet(mac[3]) + seq![':'] + hex_octet(mac[4]) + seq![':'] + hex_octet(mac[5])
}

/// One measurement of a RuuviTag, as broadcast in data format 5.
///
/// The raw fields are kept as they were sent; the physical values are computed
/// from them on demand.
#[derive(Debug, Clone, Copy, PartialEq, Eq)]
pub struct SensorDataV5 {
    temperature: i16,
    humidity: u16,
    pressure: u16,
    pub acceleration: Acceleration,
    power_info: u16,
    pub movement_counter: u8,
    pub measurement_number: u16,
    mac: [u8; 6],
}

impl View for SensorDataV5 {
    type V = Reading;

    closed spec fn view(&self) -> Reading {
        Reading {
            temperature: self.temperature as int,
            humidity: self.humidity as int,
            pressure: self.pressure as int,
            acceleration_x: self.acceleration.x as int,
            acceleration_y: self.acceleration.y as int,
            acceleration_z: self.acceleration.z as int,
            power_info: self.power_info as int,
            movement_counter: self.movement_counter as int,
            measurement_number: self.measurement_number as int,
            mac: self.mac@,
        }
    }
}

impl SensorDataV5 {
    /// A reading with the given raw fields.
    pub fn new(
        temperature: i16,
        humidity: u16,
        pressure: u16,
        acceleration: Acceleration,
        power_info: u16,
        movement_counter: u8,
        measurement_number: u16,
        mac: [u8; 6],
    ) -> (reading: Self)
        ensures
            reading@ == (Reading {
                temperature: temperature as int,
                humidity: humidity as int,
                pressure: pressure as int,
                acceleration_x: acceleration.x as int,
                acceleration_y: acceleration.y as int,
                acceleration_z: acceleration.z as int,
                power_info: power_info as int,
                movement_counter: movement_counter as int,
                measurement_number: measurement_number as int,
                mac: mac@,
            }),
    {
        Self {
            temperature,
            humidity,
            pressure,
            acceleration,
            power_info,
            movement_counter,
            measurement_number,
            mac,
        }
    }

    /// The view of every reading is well-formed.
    pub proof fn lemma_view_is_well_formed(&self)
        ensures
            self@.is_well_formed(),
    {
    }

    /// Decodes a payload of data format 5.
    ///
    /// A payload of exactly 24 bytes gives the reading of the layout; the format
    /// version in its first byte is not examined. Any other length is refused.
    pub fn from_payload(payload: &[u8]) -> (result: Result<Self, DecodeError>)
        ensures
            payload@.len() == PAYLOAD_LENGTH ==> result is Ok && result->Ok_0@ == reading_of(
                payload@,
            ),
            payload@.len() != PAYLOAD_LENGTH ==> result == Err::<Self, DecodeError>(
                DecodeError::InvalidPayloadLength {
                    expected: PAYLOAD_LENGTH,
                    actual: payload@.len() as usize,
                },
            ),
    {
        if payload.len() != PAYLOAD_LENGTH {
            return Err(
                DecodeError::InvalidPayloadLength {
                    expected: PAYLOAD_LENGTH,
                    actual: payload.len(),
                },
            );
        }
        let temperature: i16 = join_i16(payload[1], payload[2]);
        let humidity: u16 = join_u8(payload[3], payload[4]);
        let pressure: u16 = join_u8(payload[5], payload[6]);
        let acceleration = Acceleration {
            x: join_i16(payload[7], payload[8]),
            y: join_i16(payload[9], payload[10]),
            z: join_i16(payload[11], payload[12]),
        };
        let power_info: u16 = join_u8(payload[13], payload[14]);
        let movement_counter: u8 = payload[15];
        let measurement_number: u16 = join_u8(payload[16], payload[17]);
        let mac: [u8; 6] = [
            payload[18],
            payload[19],
            payload[20],
            payload[21],
            payload[22],
            payload[23],
        ];
        assert(mac@ =~= payload@.subrange(18, 24));
        Ok(
            SensorDataV5::new(
                temperature,
                humidity,
                pressure,
                acceleration,
                power_info,
                movement_counter,
                measurement_number,
                mac,
            ),
        )
    }

    /// Decodes the manufacturer data among the changed properties of a device.
    ///
    /// The shape of the data is examined first and the length of the payload
    /// after it; no input makes this function panic.
    pub fn from_dbus_changed_properties(
        changed_properties: ChangedProperties,
    ) -> (result: Result<Self, DecodeError>)
        ensures
            match result {
                Ok(reading) => decoded(changed_properties) == Ok::<Reading, DecodeError>(reading@),
                Err(error) => decoded(changed_properties) == Err::<Reading, DecodeError>(error),
            },
    {
        match &changed_properties.manufacturer_data {
            Some(data) => match manufacturer_payload(data) {
                Ok(payload) => SensorDataV5::from_payload(payload.as_slice()),
                Err(error) => Err(error),
            },
            None => Err(DecodeError::MalformedEnvelope),
        }
    }

    /// The temperature in thousandths of a degree Celsius.
    pub fn temperature_in_millicelcius(&self) -> (millicelsius: i32)
        ensures
            millicelsius as int == self@.temperature * 5,
    {
        self.temperature as i32 * 5
    }

    /// The relative humidity in parts per million: 10 000 to the percent.
    pub fn humidity_in_ppm(&self) -> (ppm: u32)
        ensures
            ppm as int == self@.humidity * 25,
    {
        self.humidity as u32 * 25
    }

    /// The air pressure in pascals.
    pub fn get_pressure(&self) -> (pascals: u32)
        ensures
            pascals as int == 50000 + self@.pressure,
    {
        PRESSURE_OFFSET + self.pressure as u32
    }

    /// The acceleration in milli-g, as it was sent.
    pub fn get_acceleration_in_mg(&self) -> (acceleration: &Acceleration)
        ensures
            acceleration.x as int == self@.acceleration_x,
            acceleration.y as int == self@.acceleration_y,
            acceleration.z as int == self@.acceleration_z,
    {
        &self.acceleration
    }

    /// How often the tag has noticed movement, as it was sent.
    pub fn get_movement_counter(&self) -> (count: u8)
        ensures
            count as int == self@.movement_counter,
    {
        self.movement_counter
    }

    /// The number of the measurement, as it was sent.
    pub fn get_measurement_number(&self) -> (number: u16)
        ensures
            number as int == self@.measurement_number,
    {
        self.measurement_number
    }

    /// The battery voltage in millivolts: the upper eleven bits of the power
    /// information, counted from 1600 mV.
    pub fn get_battery_voltage(&self) -> (millivolts: u16)
        ensures
            millivolts as int == self@.power_info / 32 + 1600,
            1600 <= millivolts <= 3647,
    {
        let power_info: u16 = self.power_info;
        assert(power_info >> 5 == power_info / 32) by (bit_vector);
        let mut battery_mv: u16 = power_info >> 5;
        battery_mv += BATTERY_OFFSET;
        battery_mv
    }

    /// The transmit power in dBm: the lower five bits of the power information,
    /// in steps of 2 dBm, counted from -40 dBm.
    pub fn get_tx_power(&self) -> (dbm: i8)
        ensures
            dbm as int == (self@.power_info % 32) * 2 - 40,
            -40 <= dbm <= 22,
    {
        let power_info: u16 = self.power_info;
        assert(power_info & 0x1f == power_info % 32) by (bit_vector);
        let mut tx_power_dbm: i8 = (power_info & 0x1f) as i8 * 2;
        tx_power_dbm += TX_POWER_OFFSET;
        tx_power_dbm
    }

    /// The MAC address of the tag as text, such as `CC:6F:70:EE:4C:AD`.
    pub fn mac_as_str(&self) -> (text: String)
        ensures
            text@ == mac_text(self@.mac),
    {
        let mut text = String::new();
        push_hex_octet(&mut text, self.mac[0]);
        let mut i: usize = 1;
        while i < 6
            invariant
                1 <= i <= 6,
                text@ == mac_prefix(self.mac@, i as int),
            decreases 6 - i,
        {
            text.push(':');
            push_hex_octet(&mut text, self.mac[i]);
            i += 1;
        }
        proof {
            reveal_with_fuel(mac_prefix, 6);
        }
        text
    }
}

/// The text of the first `n` octets of a MAC address.
spec fn mac_prefix(mac: Seq<u8>, n: int) -> Seq<char>
    recommends
        1 <= n <= mac.len(),
    decreases n,
{
    if n <= 1 {
        hex_octet(mac[0])
    } else {
        mac_prefix(mac, n - 1) + seq![':'] + hex_octet(mac[n - 1])
    }
}

} // verus!
