//! Decoding of the air-quality sensor's advertisement payload.

use vstd::prelude::*;

verus! {

/// One set of readings of the air-quality sensor, in the sensor's own
/// fixed-point units.
///
/// - `co2`: CO2 in ppm;
/// - `temperature_raw`: temperature in 1/200 °C;
/// - `humidity_raw`: relative humidity in 1/100 %;
/// - `voc_index`: VOC index (the transmitted value divided by 10, rounded
///   toward zero);
/// - `pm1p0_raw`, `pm2p5_raw`: particulate matter in 1/10 µg/m³.
#[derive(Clone, Copy, Debug, PartialEq, Eq, Structural)]
pub struct SensorReadings {
    pub co2: i16,
    pub temperature_raw: i16,
    pub humidity_raw: i16,
    pub voc_index: i16,
    pub pm1p0_raw: u16,
    pub pm2p5_raw: u16,
}

/// Little-endian unsigned 16-bit value of two bytes.
pub open spec fn le_u16(lo: u8, hi: u8) -> int {
    lo + 256 * hi
}

/// Little-endian two's-complement 16-bit value of two bytes.
pub open spec fn le_i16(lo: u8, hi: u8) -> int {
    if hi < 128 {
        le_u16(lo, hi)
    } else {
        le_u16(lo, hi) - 65536
    }
}

/// Integer division rounded toward zero, for a positive divisor.
pub open spec fn div_toward_zero(a: int, b: int) -> int
    recommends
        b > 0,
{
    if a >= 0 {
        a / b
    } else {
        -((-a) / b)
    }
}

/// The length of the sensor payload once the manufacturer id is stripped.
pub const SENSOR_PAYLOAD_LEN: usize = 12;

impl SensorReadings {
    /// The readings that a payload of `SENSOR_PAYLOAD_LEN` bytes encodes.
    pub open spec fn decode(data: Seq<u8>) -> SensorReadings
        recommends
            data.len() == SENSOR_PAYLOAD_LEN,
    {
        SensorReadings {
            co2: le_i16(data[0], data[1]) as i16,
            temperature_raw: le_i16(data[2], data[3]) as i16,
            humidity_raw: le_i16(data[4], data[5]) as i16,
            voc_index: div_toward_zero(le_i16(data[6], data[7]), 10) as i16,
            pm1p0_raw: le_u16(data[8], data[9]) as u16,
            pm2p5_raw: le_u16(data[10], data[11]) as u16,
        }
    }

    /// Parses the manufacturer data payload of the sensor (manufacturer id
    /// already stripped). The payload is exactly twelve little-endian bytes:
    /// co2 (i16), temperature (i16), humidity (i16), VOC index times ten (i16),
    /// PM1.0 (u16), PM2.5 (u16). Any other length is rejected.
    pub fn from_manufacturer_data(data: &[u8]) -> (r: Option<SensorReadings>)
        ensures
            r is Some <==> data@.len() == SENSOR_PAYLOAD_LEN,
            r matches Some(readings) ==> readings == SensorReadings::decode(data@),
    {
        if data.len() != SENSOR_PAYLOAD_LEN {
            return None;
        }
        let co2 = read_i16_le(data[0], data[1]);
        let temperature_raw = read_i16_le(data[2], data[3]);
        let humidity_raw = read_i16_le(data[4], data[5]);
        let voc_index = div10_toward_zero(read_i16_le(data[6], data[7]));
        let pm1p0_raw = read_u16_le(data[8], data[9]);
        let pm2p5_raw = read_u16_le(data[10], data[11]);
        Some(SensorReadings { co2, temperature_raw, humidity_raw, voc_index, pm1p0_raw, pm2p5_raw })
    }
}

fn read_u16_le(lo: u8, hi: u8) -> (r: u16)
    ensures
        r == le_u16(lo, hi),
{
    lo as u16 + (hi as u16) * 256
}

fn read_i16_le(lo: u8, hi: u8) -> (r: i16)
    ensures
        r == le_i16(lo, hi),
{
    let unsigned: i32 = read_u16_le(lo, hi) as i32;
    if hi < 128 {
        unsigned as i16
    } else {
        (unsigned - 65536) as i16
    }
}

fn div10_toward_zero(v: i16) -> (r: i16)
    ensures
        r == div_toward_zero(v as int, 10),
{
    let wide: i32 = v as i32;
    if wide >= 0 {
        (wide / 10) as i16
    } else {
        let magnitude: i32 = -wide;
        (-(magnitude / 10)) as i16
    }
}

/// `t` is the signed 16-bit word whose little-endian bytes are `lo` and
/// `hi`: a value of the `i16` range that agrees with `lo + 256 * hi` modulo
/// 2^16.
pub open spec fn is_i16_word(t: int, lo: u8, hi: u8) -> bool {
    -32768 <= t < 32768 && (t - lo - 256 * hi) % 65536 == 0
}

/// The payload is six little-endian 16-bit words: the CO2, temperature and
/// humidity readings are the signed words at bytes 0, 2 and 4; the VOC index
/// is the signed word at byte 6 divided by ten, rounded toward zero; the
/// particulate readings are the unsigned words at bytes 8 and 10.
pub proof fn decoded_readings_are_little_endian_words(data: Seq<u8>)
    requires
        data.len() == SENSOR_PAYLOAD_LEN,
    ensures
        is_i16_word(SensorReadings::decode(data).co2 as int, data[0], data[1]),
        is_i16_word(SensorReadings::decode(data).temperature_raw as int, data[2], data[3]),
        is_i16_word(SensorReadings::decode(data).humidity_raw as int, data[4], data[5]),
        forall|t: int| #[trigger] is_i16_word(t, data[6], data[7]) ==> {
            let v = SensorReadings::decode(data).voc_index as int;
            if t >= 0 {
                0 <= t - 10 * v < 10
            } else {
                -10 < t - 10 * v <= 0
            }
        },
        SensorReadings::decode(data).pm1p0_raw == data[8] + 256 * data[9],
        SensorReadings::decode(data).pm2p5_raw == data[10] + 256 * data[11],
{
    assert forall|t: int| #[trigger] is_i16_word(t, data[6], data[7]) implies t == le_i16(
        data[6],
        data[7],
    ) by {
        let x = data[6] + 256 * data[7];
        assert(0 <= x < 65536);
        assert((t - x) % 65536 == 0);
        assert(t - x == 65536 * ((t - x) / 65536));
    }
}

} // verus!
