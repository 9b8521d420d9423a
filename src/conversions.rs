//! Raw channel samples and their conversion to physical units.
use vstd::prelude::*;

use crate::commands::{MagneticFieldReturnFlags, channels_of};
use crate::memory::{
    Gain, HallConf, Res3D, Resolution, TempRef, TemperatureCompensation, gain_code,
    resolution_code,
};

verus! {

/// The raw words of one measurement, high byte first, one per channel that was asked for.
#[derive(Clone, Copy, Debug)]
pub struct MagneticBits {
    pub x: Option<[u8; 2]>,
    pub y: Option<[u8; 2]>,
    pub z: Option<[u8; 2]>,
    pub temp: Option<[u8; 2]>,
}

impl MagneticBits {
    pub fn new(
        x: Option<[u8; 2]>,
        y: Option<[u8; 2]>,
        z: Option<[u8; 2]>,
        temp: Option<[u8; 2]>,
    ) -> (r: Self)
        ensures
            r.x == x && r.y == y && r.z == z && r.temp == temp,
    {
        MagneticBits { x, y, z, temp }
    }
}

} // verus!

verus! {

/// The row of the sensitivity tables for a Hall configuration, a gain and a resolution.
pub open spec fn table_index(h: HallConf, g: Gain, r: Resolution) -> int {
    (match h {
        HallConf::TWOPHASE => 0int,
        HallConf::FOURPHASE => 32int,
    }) + 4 * gain_code(g) + resolution_code(r)
}

/// The manufacturer's sensitivity of the X and Y axes, in nT per LSB, by Hall
/// configuration (two-phase, then four-phase), gain and resolution.
pub open spec fn sensitivity_xy_table() -> Seq<u16> {
    seq![
        787, 1573, 3146, 6292, 629, 1258, 2517, 5034,
        472, 944, 1888, 3775, 393, 787, 1573, 3146,
        315, 629, 1258, 2517, 262, 524, 1049, 2097,
        210, 419, 839, 1678, 157, 315, 629, 1258,
        751, 1502, 3004, 6009, 601, 1202, 2403, 4840,
        451, 901, 1803, 3605, 376, 751, 1502, 3004,
        300, 601, 1202, 2403, 250, 501, 1001, 2003,
        200, 401, 801, 1602, 150, 300, 601, 1202,
    ]
}

/// The manufacturer's sensitivity of the Z axis, in nT per LSB, in the same order.
pub open spec fn sensitivity_z_table() -> Seq<u16> {
    seq![
        1267, 2534, 5068, 10137, 1014, 2027, 4055, 8109,
        760, 1521, 3041, 6082, 634, 1267, 2534, 5068,
        507, 1014, 2027, 4055, 422, 845, 1689, 3379,
        338, 676, 1352, 2703, 253, 507, 1014, 2027,
        1210, 2420, 4840, 9680, 968, 1936, 3872, 7744,
        726, 1452, 2904, 5808, 605, 1210, 2420, 4840,
        484, 968, 1936, 3872, 403, 807, 1613, 3227,
        323, 645, 1291, 2581, 242, 484, 968, 1936,
    ]
}

pub open spec fn sensitivity_xy(h: HallConf, g: Gain, r: Resolution) -> int {
    sensitivity_xy_table()[table_index(h, g, r)] as int
}

pub open spec fn sensitivity_z(h: HallConf, g: Gain, r: Resolution) -> int {
    sensitivity_z_table()[table_index(h, g, r)] as int
}

fn table_index_of(h: HallConf, g: Gain, r: Resolution) -> (i: usize)
    ensures
        i == table_index(h, g, r),
        i < 64,
{
    let hi: usize = match h {
        HallConf::TWOPHASE => 0,
        HallConf::FOURPHASE => 32,
    };
    let gi: usize = match g {
        Gain::ZERO => 0,
        Gain::ONE => 1,
        Gain::TWO => 2,
        Gain::THREE => 3,
        Gain::FOUR => 4,
        Gain::FIVE => 5,
        Gain::SIX => 6,
        Gain::SEVEN => 7,
    };
    let ri: usize = match r {
        Resolution::BIT19 => 0,
        Resolution::BIT18 => 1,
        Resolution::BIT17 => 2,
        Resolution::BIT16 => 3,
    };
    hi + 4 * gi + ri
}

/// The sensitivity of the X and Y axes, in nT per LSB.
pub fn sensitivity_xy_of(h: HallConf, g: Gain, r: Resolution) -> (s: u16)
    ensures
        s == sensitivity_xy(h, g, r),
{
    let table: [u16; 64] = [
        787, 1573, 3146, 6292, 629, 1258, 2517, 5034,
        472, 944, 1888, 3775, 393, 787, 1573, 3146,
        315, 629, 1258, 2517, 262, 524, 1049, 2097,
        210, 419, 839, 1678, 157, 315, 629, 1258,
        751, 1502, 3004, 6009, 601, 1202, 2403, 4840,
        451, 901, 1803, 3605, 376, 751, 1502, 3004,
        300, 601, 1202, 2403, 250, 501, 1001, 2003,
        200, 401, 801, 1602, 150, 300, 601, 1202,
    ];
    assert(table@ =~= sensitivity_xy_table());
    table[table_index_of(h, g, r)]
}

/// The sensitivity of the Z axis, in nT per LSB.
pub fn sensitivity_z_of(h: HallConf, g: Gain, r: Resolution) -> (s: u16)
    ensures
        s == sensitivity_z(h, g, r),
{
    let table: [u16; 64] = [
        1267, 2534, 5068, 10137, 1014, 2027, 4055, 8109,
        760, 1521, 3041, 6082, 634, 1267, 2534, 5068,
        507, 1014, 2027, 4055, 422, 845, 1689, 3379,
        338, 676, 1352, 2703, 253, 507, 1014, 2027,
        1210, 2420, 4840, 9680, 968, 1936, 3872, 7744,
        726, 1452, 2904, 5808, 605, 1210, 2420, 4840,
        484, 968, 1936, 3872, 403, 807, 1613, 3227,
        323, 645, 1291, 2581, 242, 484, 968, 1936,
    ];
    assert(table@ =~= sensitivity_z_table());
    table[table_index_of(h, g, r)]
}

} // verus!

verus! {

/// A converted reading: the field of each axis in nanotesla and the temperature in
/// millidegrees Celsius, each present only if its channel was measured.
#[derive(Clone, Copy, Debug, PartialEq, Eq, Structural)]
pub struct MagneticField {
    pub x: Option<i64>,
    pub y: Option<i64>,
    pub z: Option<i64>,
    pub t: Option<i64>,
}

/// A channel word read as an unsigned 16-bit number.
pub open spec fn word_u16(w: [u8; 2]) -> int {
    w[0] as int * 256 + w[1] as int
}

/// A channel word read as a signed (two's complement) 16-bit number.
pub open spec fn word_i16(w: [u8; 2]) -> int {
    if word_u16(w) >= 32768 {
        word_u16(w) - 65536
    } else {
        word_u16(w)
    }
}

/// The field of an axis in nT: the signed raw count times the sensitivity.
pub open spec fn axis_field(w: Option<[u8; 2]>, sensitivity: int) -> Option<i64> {
    match w {
        Some(w) => Some((word_i16(w) * sensitivity) as i64),
        None => None,
    }
}

/// The temperature in m°C: 35 °C at the reference reading, and 1/45.2 °C per LSB away
/// from it (rounded down to a whole m°C). With temperature compensation on, the words
/// are read as unsigned numbers; otherwise as signed ones.
pub open spec fn temperature(w: Option<[u8; 2]>, tref: TempRef, tc: TemperatureCompensation) -> Option<i64> {
    match w {
        Some(w) => {
            let d = match tc {
                TemperatureCompensation::Enabled => word_u16(w) - word_u16(tref.offset),
                TemperatureCompensation::Disabled => word_i16(w) - word_i16(tref.offset),
            };
            Some((35000 + (d * 2500) / 113) as i64)
        },
        None => None,
    }
}

/// The reading of a sample that holds the channels `axes`.
pub open spec fn converted(
    m: MagneticBits,
    tref: TempRef,
    tc: TemperatureCompensation,
    g: Gain,
    res: Res3D,
    h: HallConf,
) -> MagneticField {
    MagneticField {
        x: axis_field(m.x, sensitivity_xy(h, g, res.x)),
        y: axis_field(m.y, sensitivity_xy(h, g, res.y)),
        z: axis_field(m.z, sensitivity_z(h, g, res.z)),
        t: temperature(m.temp, tref, tc),
    }
}

fn signed_word(w: [u8; 2]) -> (r: i64)
    ensures
        r == word_i16(w),
{
    let u = w[0] as i64 * 256 + w[1] as i64;
    if u >= 32768 {
        u - 65536
    } else {
        u
    }
}

fn unsigned_word(w: [u8; 2]) -> (r: i64)
    ensures
        r == word_u16(w),
{
    w[0] as i64 * 256 + w[1] as i64
}

fn convert_axis(w: Option<[u8; 2]>, sensitivity: u16) -> (r: Option<i64>)
    ensures
        r == axis_field(w, sensitivity as int),
{
    match w {
        Some(w) => {
            let raw = signed_word(w);
            assert(-32768 * 65535 <= raw * sensitivity <= 32767 * 65535) by (nonlinear_arith)
                requires
                    -32768 <= raw <= 32767,
                    0 <= sensitivity <= 65535,
            ;
            Some(raw * sensitivity as i64)
        },
        None => None,
    }
}

/// `n / d` rounded down, for a positive `d`.
fn floor_div(n: i64, d: i64) -> (q: i64)
    requires
        d > 0,
        n > i64::MIN,
    ensures
        q == n / d,
{
    if n >= 0 {
        n / d
    } else {
        let m = -n;
        let q = m / d;
        let r = m % d;
        assert(m == q * d + r && 0 <= r < d) by (nonlinear_arith)
            requires
                m >= 0,
                d > 0,
                q == m / d,
                r == m % d,
        ;
        if r == 0 {
            assert(n == (-q) * d) by (nonlinear_arith)
                requires
                    n == -m,
                    m == q * d,
            ;
            proof {
                vstd::arithmetic::div_mod::lemma_fundamental_div_mod_converse(
                    n as int,
                    d as int,
                    -q as int,
                    0,
                );
            }
            -q
        } else {
            assert(n == (-q - 1) * d + (d - r)) by (nonlinear_arith)
                requires
                    n == -m,
                    m == q * d + r,
            ;
            proof {
                vstd::arithmetic::div_mod::lemma_fundamental_div_mod_converse(
                    n as int,
                    d as int,
                    -q - 1,
                    d - r,
                );
            }
            -q - 1
        }
    }
}

fn convert_temperature(w: Option<[u8; 2]>, tref: TempRef, tc: TemperatureCompensation) -> (r:
    Option<i64>)
    ensures
        r == temperature(w, tref, tc),
{
    match w {
        Some(w) => {
            let d = match tc {
                TemperatureCompensation::Enabled => unsigned_word(w) - unsigned_word(tref.offset),
                TemperatureCompensation::Disabled => signed_word(w) - signed_word(tref.offset),
            };
            let q = floor_div(d * 2500, 113);
            Some(35000 + q)
        },
        None => None,
    }
}

impl MagneticField {
    /// Converts a sample holding exactly the channels `axes`, with the calibration read
    /// from the sensor. A sample whose channels differ from `axes` is refused.
    pub fn from_mbits(
        mbits: MagneticBits,
        axes: MagneticFieldReturnFlags,
        temp_ref: TempRef,
        temperature_compensation: TemperatureCompensation,
        gain: Gain,
        resolution: Res3D,
        hall_configuration: HallConf,
    ) -> (r: Option<MagneticField>)
        ensures
            r is Some <==> channels_of(mbits) == axes,
            r is Some ==> r == Some(
                converted(
                    mbits,
                    temp_ref,
                    temperature_compensation,
                    gain,
                    resolution,
                    hall_configuration,
                ),
            ),
    {
        if mbits.x.is_some() != axes.x || mbits.y.is_some() != axes.y || mbits.z.is_some()
            != axes.z || mbits.temp.is_some() != axes.t {
            return None;
        }
        let x = convert_axis(mbits.x, sensitivity_xy_of(hall_configuration, gain, resolution.x));
        let y = convert_axis(mbits.y, sensitivity_xy_of(hall_configuration, gain, resolution.y));
        let z = convert_axis(mbits.z, sensitivity_z_of(hall_configuration, gain, resolution.z));
        let t = convert_temperature(mbits.temp, temp_ref, temperature_compensation);
        Some(MagneticField { x, y, z, t })
    }
}

} // verus!
