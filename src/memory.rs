//! Decoding of the sensor's two-byte configuration registers into typed fields.
//!
//! A register is read as two bytes, high byte first: `data[0]` holds bits 15..8 and
//! `data[1]` holds bits 7..0 of the register.
use vstd::prelude::*;

verus! {

/// Bit `i` (0..8) of a byte.
pub open spec fn bit(b: u8, i: u8) -> bool {
    (b >> i) & 1u8 == 1u8
}

/// The 16-bit value of a register's bytes, high byte first.
pub open spec fn word(data: [u8; 2]) -> u16 {
    ((data[0] as u16) << 8u16) | (data[1] as u16)
}

/// The `len` bits of a register starting at bit `pos` (bit 0 is the least significant).
pub open spec fn field_bits(data: [u8; 2], pos: u32, len: u32) -> u32 {
    ((word(data) as u32) >> pos) % (1u32 << len)
}

/// Whether bit `pos` of a register is set.
pub open spec fn flag(data: [u8; 2], pos: u32) -> bool {
    field_bits(data, pos, 1) == 1
}

/// The byte-level reading of every field that the accessors decode.
proof fn lemma_byte_fields(d0: u8, d1: u8)
    ensures
        ({
            let w = ((d0 as u16) << 8u16) | (d1 as u16);
            let f = |pos: u32, len: u32| ((w as u32) >> pos) % (1u32 << len);
            &&& f(0, 4) == (d1 & 15u8) as u32
            &&& f(4, 3) == ((d1 >> 4u8) & 7u8) as u32
            &&& f(2, 1) == ((d1 >> 2u8) & 1u8) as u32
            &&& f(5, 2) == ((d1 >> 5u8) & 3u8) as u32
            &&& f(7, 1) == (d1 >> 7u8) as u32
            &&& f(8, 1) == (d0 & 1u8) as u32
            &&& f(9, 2) == ((d0 >> 1u8) & 3u8) as u32
        }),
{
    let w = ((d0 as u16) << 8u16) | (d1 as u16);
    assert(((w as u32) >> 0u32) % (1u32 << 4u32) == (d1 & 15u8) as u32
        && ((w as u32) >> 4u32) % (1u32 << 3u32) == ((d1 >> 4u8) & 7u8) as u32
        && ((w as u32) >> 2u32) % (1u32 << 1u32) == ((d1 >> 2u8) & 1u8) as u32
        && ((w as u32) >> 5u32) % (1u32 << 2u32) == ((d1 >> 5u8) & 3u8) as u32
        && ((w as u32) >> 7u32) % (1u32 << 1u32) == (d1 >> 7u8) as u32
        && ((w as u32) >> 8u32) % (1u32 << 1u32) == (d0 & 1u8) as u32
        && ((w as u32) >> 9u32) % (1u32 << 2u32) == ((d0 >> 1u8) & 3u8) as u32)
        by (bit_vector)
        requires
            w == ((d0 as u16) << 8u16) | (d1 as u16),
    ;
}

/// A register of the customer memory area, tagged by its address `R`.
pub struct Register<const R: u8> {
    data: [u8; 2],
}

impl<const R: u8> Register<R> {
    /// The raw bytes, high byte first.
    pub closed spec fn bytes(&self) -> [u8; 2] {
        self.data
    }

    pub fn new(data: [u8; 2]) -> (r: Self)
        ensures
            r.bytes() == data,
    {
        Self { data }
    }
}

/// Bit `pos` of a 16-bit word, tested with a mask.
fn word_has(w: u16, pos: u16) -> (r: bool)
    requires
        pos < 16,
    ensures
        r == (((w as u32) >> (pos as u32)) % (1u32 << 1u32) == 1),
{
    assert((w & (1u16 << pos) != 0) == (((w as u32) >> (pos as u32)) % (1u32 << 1u32)
        == 1)) by (bit_vector)
        requires
            pos < 16,
    ;
    w & (1u16 << pos) != 0
}

impl Register<0x00> {
    fn flags(&self) -> (r: u16)
        ensures
            r == word(self.data),
    {
        ((self.data[0] as u16) << 8u16) | (self.data[1] as u16)
    }

    /// Bit 7.
    pub fn zseries(&self) -> (r: ZSeries)
        ensures
            r == (if flag(self.bytes(), 7) { ZSeries::Enabled } else { ZSeries::Disabled }),
    {
        if word_has(self.flags(), 7) {
            ZSeries::Enabled
        } else {
            ZSeries::Disabled
        }
    }

    /// Bit 8.
    pub fn bist(&self) -> (r: Bist)
        ensures
            r == (if flag(self.bytes(), 8) { Bist::Enabled } else { Bist::Disabled }),
    {
        if word_has(self.flags(), 8) {
            Bist::Enabled
        } else {
            Bist::Disabled
        }
    }

    /// Bits 3..0.
    pub fn hall_conf(&self) -> (r: Option<HallConf>)
        ensures
            r == hall_conf_of_nibble(field_bits(self.bytes(), 0, 4) as u8),
    {
        proof {
            lemma_byte_fields(self.data[0], self.data[1]);
        }
        HallConf::from_u8_slice(&self.data)
    }

    /// Bits 6..4.
    pub fn gain(&self) -> (r: Gain)
        ensures
            r == gain_of_code(field_bits(self.bytes(), 4, 3) as u8),
    {
        proof {
            lemma_byte_fields(self.data[0], self.data[1]);
        }
        Gain::from_u8_slice(&self.data)
    }
}

impl Register<0x01> {
    fn flags(&self) -> (r: u16)
        ensures
            r == word(self.data),
    {
        ((self.data[0] as u16) << 8u16) | (self.data[1] as u16)
    }

    /// Bits 9 (Z), 8 (Y), 7 (X) and 6 (temperature).
    pub fn burst_sel(&self) -> (r: BurstSel)
        ensures
            r == (BurstSel {
                x: flag(self.bytes(), 7),
                y: flag(self.bytes(), 8),
                z: flag(self.bytes(), 9),
                temp: flag(self.bytes(), 6),
            }),
    {
        let x = word_has(self.flags(), 7);
        let y = word_has(self.flags(), 8);
        let z = word_has(self.flags(), 9);
        let temp = word_has(self.flags(), 6);
        BurstSel { x, y, z, temp }
    }

    /// Bit 10.
    pub fn temperature_compensation(&self) -> (r: TemperatureCompensation)
        ensures
            r == (if flag(self.bytes(), 10) {
                TemperatureCompensation::Enabled
            } else {
                TemperatureCompensation::Disabled
            }),
    {
        if word_has(self.flags(), 10) {
            TemperatureCompensation::Enabled
        } else {
            TemperatureCompensation::Disabled
        }
    }

    /// Bit 11.
    pub fn external_trigger(&self) -> (r: bool)
        ensures
            r == flag(self.bytes(), 11),
    {
        word_has(self.flags(), 11)
    }

    /// Bit 12.
    pub fn wake_on_change_diff(&self) -> (r: bool)
        ensures
            r == flag(self.bytes(), 12),
    {
        word_has(self.flags(), 12)
    }

    /// Bit 15.
    pub fn trigger_interrupt(&self) -> (r: bool)
        ensures
            r == flag(self.bytes(), 15),
    {
        word_has(self.flags(), 15)
    }
}

impl Register<0x02> {
    pub fn resolution(&self) -> (r: Res3D)
        ensures
            r == res3d_of(self.bytes()),
    {
        Res3D::from_u8_slice(&self.data)
    }
}

impl Register<0x03> {
    pub fn temperature_offset(&self) -> (r: TempOffset)
        ensures
            r.offset == self.bytes(),
    {
        TempOffset::from_u8_slice(&self.data)
    }
}

impl Register<0x24> {
    pub fn temperature_reference(&self) -> (r: TempRef)
        ensures
            r.offset == self.bytes(),
    {
        TempRef::from_u8_slice(&self.data)
    }
}

#[derive(Clone, Copy, Debug, PartialEq, Eq, Structural)]
pub enum ZSeries {
    Disabled,
    Enabled,
}

#[derive(Clone, Copy, Debug, PartialEq, Eq, Structural)]
pub enum Bist {
    Disabled,
    Enabled,
}

#[derive(Clone, Copy, Debug, PartialEq, Eq, Structural)]
pub enum TemperatureCompensation {
    Disabled,
    Enabled,
}

/// The analog gain selection, `GAIN_SEL` 0 to 7.
#[derive(Clone, Copy, Debug, PartialEq, Eq, Structural)]
pub enum Gain {
    ZERO,
    ONE,
    TWO,
    THREE,
    FOUR,
    FIVE,
    SIX,
    SEVEN,
}

/// The ADC resolution of one axis.
#[derive(Clone, Copy, Debug, PartialEq, Eq, Structural)]
pub enum Resolution {
    BIT19,
    BIT18,
    BIT17,
    BIT16,
}

/// The spinning configuration of the Hall plates.
#[derive(Clone, Copy, Debug, PartialEq, Eq, Structural)]
pub enum HallConf {
    TWOPHASE,
    FOURPHASE,
}

#[derive(Clone, Copy, Debug, PartialEq, Eq, Structural)]
pub struct Res3D {
    pub x: Resolution,
    pub y: Resolution,
    pub z: Resolution,
}

/// Which channels a burst measures.
#[derive(Clone, Copy, Debug, PartialEq, Eq, Structural)]
pub struct BurstSel {
    pub x: bool,
    pub y: bool,
    pub z: bool,
    pub temp: bool,
}

/// The sensitivity temperature coefficients (register 0x03), kept as read.
#[derive(Clone, Copy, Debug)]
pub struct TempOffset {
    pub offset: [u8; 2],
}

/// The reference temperature reading (register 0x24), kept as read.
#[derive(Clone, Copy, Debug)]
pub struct TempRef {
    pub offset: [u8; 2],
}

/// The gain of a `GAIN_SEL` code.
pub open spec fn gain_of_code(c: u8) -> Gain {
    if c == 0 {
        Gain::ZERO
    } else if c == 1 {
        Gain::ONE
    } else if c == 2 {
        Gain::TWO
    } else if c == 3 {
        Gain::THREE
    } else if c == 4 {
        Gain::FOUR
    } else if c == 5 {
        Gain::FIVE
    } else if c == 6 {
        Gain::SIX
    } else {
        Gain::SEVEN
    }
}

/// The `GAIN_SEL` code of a gain.
pub open spec fn gain_code(g: Gain) -> u8 {
    match g {
        Gain::ZERO => 0,
        Gain::ONE => 1,
        Gain::TWO => 2,
        Gain::THREE => 3,
        Gain::FOUR => 4,
        Gain::FIVE => 5,
        Gain::SIX => 6,
        Gain::SEVEN => 7,
    }
}

/// The resolution of a two-bit `RES` code: 0, 1, 2, 3 give 19, 18, 17, 16 bits.
pub open spec fn resolution_of_code(c: u8) -> Resolution {
    if c == 0 {
        Resolution::BIT19
    } else if c == 1 {
        Resolution::BIT18
    } else if c == 2 {
        Resolution::BIT17
    } else {
        Resolution::BIT16
    }
}

/// The two-bit `RES` code of a resolution.
pub open spec fn resolution_code(r: Resolution) -> u8 {
    match r {
        Resolution::BIT19 => 0,
        Resolution::BIT18 => 1,
        Resolution::BIT17 => 2,
        Resolution::BIT16 => 3,
    }
}

/// The Hall configuration of the low nibble of register 0x00: `0000` and `1100` are the
/// only valid patterns.
pub open spec fn hall_conf_of_nibble(n: u8) -> Option<HallConf> {
    if n == 0 {
        Some(HallConf::TWOPHASE)
    } else if n == 12 {
        Some(HallConf::FOURPHASE)
    } else {
        None
    }
}

/// The resolutions held in register 0x02. X is bits 6..5 of the low byte, Z is bits 2..1
/// of the high byte. Y straddles the two bytes: its own bit is bit 7 of the low byte, and
/// bit 0 of the high byte selects between the 19/18-bit and the 17/16-bit pair.
pub open spec fn res3d_of(val: [u8; 2]) -> Res3D {
    let v = val[0] & 1u8;
    let y = val[1] >> 7u8;
    Res3D {
        x: resolution_of_code((val[1] >> 5u8) & 3u8),
        y: if v == 0 {
            if y == 0 { Resolution::BIT19 } else { Resolution::BIT18 }
        } else {
            if y == 0 { Resolution::BIT17 } else { Resolution::BIT16 }
        },
        z: resolution_of_code((val[0] >> 1u8) & 3u8),
    }
}

fn resolution_from_code(c: u8) -> (r: Resolution)
    ensures
        r == resolution_of_code(c),
{
    if c == 0 {
        Resolution::BIT19
    } else if c == 1 {
        Resolution::BIT18
    } else if c == 2 {
        Resolution::BIT17
    } else {
        Resolution::BIT16
    }
}

impl TempOffset {
    pub fn from_u8_slice(offset: &[u8; 2]) -> (r: Self)
        ensures
            r.offset == *offset,
    {
        Self { offset: *offset }
    }
}

impl TempRef {
    pub fn from_u8_slice(offset: &[u8; 2]) -> (r: Self)
        ensures
            r.offset == *offset,
    {
        Self { offset: *offset }
    }
}

impl TemperatureCompensation {
    /// Bit 2 of the low byte.
    pub fn from_u8_slice(val: &[u8; 2]) -> (r: Self)
        ensures
            r == (if bit(val[1], 2) {
                TemperatureCompensation::Enabled
            } else {
                TemperatureCompensation::Disabled
            }),
    {
        if (val[1] >> 2u8) & 1u8 == 1u8 {
            TemperatureCompensation::Enabled
        } else {
            TemperatureCompensation::Disabled
        }
    }
}

impl Gain {
    /// Bits 6..4 of the low byte.
    pub fn from_u8_slice(val: &[u8; 2]) -> (r: Self)
        ensures
            r == gain_of_code((val[1] >> 4u8) & 7u8),
    {
        let c = (val[1] >> 4u8) & 7u8;
        if c == 0 {
            Gain::ZERO
        } else if c == 1 {
            Gain::ONE
        } else if c == 2 {
            Gain::TWO
        } else if c == 3 {
            Gain::THREE
        } else if c == 4 {
            Gain::FOUR
        } else if c == 5 {
            Gain::FIVE
        } else if c == 6 {
            Gain::SIX
        } else {
            Gain::SEVEN
        }
    }
}

impl HallConf {
    /// Bits 3..0 of the low byte; any pattern but `0000` and `1100` is refused.
    pub fn from_u8_slice(val: &[u8; 2]) -> (r: Option<Self>)
        ensures
            r == hall_conf_of_nibble(val[1] & 15u8),
    {
        let n = val[1] & 15u8;
        if n == 0 {
            Some(HallConf::TWOPHASE)
        } else if n == 12 {
            Some(HallConf::FOURPHASE)
        } else {
            None
        }
    }
}

impl Res3D {
    pub fn from_u8_slice(val: &[u8; 2]) -> (r: Self)
        ensures
            r == res3d_of(*val),
    {
        let v = val[0] & 1u8;
        let y = val[1] >> 7u8;
        let yval = if v == 0 {
            if y == 0 { Resolution::BIT19 } else { Resolution::BIT18 }
        } else {
            if y == 0 { Resolution::BIT17 } else { Resolution::BIT16 }
        };
        Res3D {
            x: resolution_from_code((val[1] >> 5u8) & 3u8),
            y: yval,
            z: resolution_from_code((val[0] >> 1u8) & 3u8),
        }
    }
}

} // verus!

verus! {

/// The named fields of the customer memory area.
#[derive(Clone, Copy, Debug, PartialEq, Eq, Structural)]
pub enum CustomerMemoryArea {
    Hallconf,
    GainSel,
    ZSeries,
    Bist,
    AnaReservedLow,
    BurstDataRate,
    BurstSel,
    TcmpEn,
    ExtTrg,
    WocDiff,
    CommMode,
    TrigInt,
    OSR,
    DigFilt,
    ResX,
    ResY,
    ResZ,
    OSR2,
    SensTcLT,
    SensTcHT,
    OffsetX,
    OffsetY,
    OffsetZ,
    WOxyThreshold,
    WOzThreshold,
}

/// Where a field lies: its register, its lowest bit and its width in bits.
pub struct MemoryLocation {
    pub register: u8,
    pub position: u32,
    pub length: u32,
}

/// The register map of the customer memory area, as (register, lowest bit, width).
pub open spec fn location_of(a: CustomerMemoryArea) -> (u8, u32, u32) {
    match a {
        CustomerMemoryArea::Hallconf => (0x00, 0, 4),
        CustomerMemoryArea::GainSel => (0x00, 4, 3),
        CustomerMemoryArea::ZSeries => (0x00, 7, 1),
        CustomerMemoryArea::Bist => (0x00, 8, 1),
        CustomerMemoryArea::AnaReservedLow => (0x00, 9, 7),
        CustomerMemoryArea::BurstDataRate => (0x01, 0, 6),
        CustomerMemoryArea::BurstSel => (0x01, 6, 4),
        CustomerMemoryArea::TcmpEn => (0x01, 10, 1),
        CustomerMemoryArea::ExtTrg => (0x01, 11, 1),
        CustomerMemoryArea::WocDiff => (0x01, 12, 1),
        CustomerMemoryArea::CommMode => (0x01, 13, 2),
        CustomerMemoryArea::TrigInt => (0x01, 15, 1),
        CustomerMemoryArea::OSR => (0x02, 0, 2),
        CustomerMemoryArea::DigFilt => (0x02, 2, 3),
        CustomerMemoryArea::ResX => (0x02, 5, 2),
        CustomerMemoryArea::ResY => (0x02, 7, 2),
        CustomerMemoryArea::ResZ => (0x02, 9, 2),
        CustomerMemoryArea::OSR2 => (0x02, 11, 2),
        CustomerMemoryArea::SensTcLT => (0x03, 0, 8),
        CustomerMemoryArea::SensTcHT => (0x03, 8, 8),
        CustomerMemoryArea::OffsetX => (0x04, 0, 16),
        CustomerMemoryArea::OffsetY => (0x05, 0, 16),
        CustomerMemoryArea::OffsetZ => (0x06, 0, 16),
        CustomerMemoryArea::WOxyThreshold => (0x07, 0, 16),
        CustomerMemoryArea::WOzThreshold => (0x08, 0, 16),
    }
}

/// Every field lies within one 16-bit register among 0x00 to 0x08, and two different
/// fields of the same register share no bit.
pub proof fn lemma_fields_are_disjoint(a: CustomerMemoryArea, b: CustomerMemoryArea)
    ensures
        location_of(a).0 <= 0x08,
        1 <= location_of(a).2,
        location_of(a).1 + location_of(a).2 <= 16,
        a != b && location_of(a).0 == location_of(b).0 ==> location_of(a).1 + location_of(a).2
            <= location_of(b).1 || location_of(b).1 + location_of(b).2 <= location_of(a).1,
{
}

impl CustomerMemoryArea {
    pub fn to_memory_location(&self) -> (r: MemoryLocation)
        ensures
            (r.register, r.position, r.length) == location_of(*self),
    {
        let (register, position, length) = match self {
            CustomerMemoryArea::Hallconf => (0x00, 0, 4),
            CustomerMemoryArea::GainSel => (0x00, 4, 3),
            CustomerMemoryArea::ZSeries => (0x00, 7, 1),
            CustomerMemoryArea::Bist => (0x00, 8, 1),
            CustomerMemoryArea::AnaReservedLow => (0x00, 9, 7),
            CustomerMemoryArea::BurstDataRate => (0x01, 0, 6),
            CustomerMemoryArea::BurstSel => (0x01, 6, 4),
            CustomerMemoryArea::TcmpEn => (0x01, 10, 1),
            CustomerMemoryArea::ExtTrg => (0x01, 11, 1),
            CustomerMemoryArea::WocDiff => (0x01, 12, 1),
            CustomerMemoryArea::CommMode => (0x01, 13, 2),
            CustomerMemoryArea::TrigInt => (0x01, 15, 1),
            CustomerMemoryArea::OSR => (0x02, 0, 2),
            CustomerMemoryArea::DigFilt => (0x02, 2, 3),
            CustomerMemoryArea::ResX => (0x02, 5, 2),
            CustomerMemoryArea::ResY => (0x02, 7, 2),
            CustomerMemoryArea::ResZ => (0x02, 9, 2),
            CustomerMemoryArea::OSR2 => (0x02, 11, 2),
            CustomerMemoryArea::SensTcLT => (0x03, 0, 8),
            CustomerMemoryArea::SensTcHT => (0x03, 8, 8),
            CustomerMemoryArea::OffsetX => (0x04, 0, 16),
            CustomerMemoryArea::OffsetY => (0x05, 0, 16),
            CustomerMemoryArea::OffsetZ => (0x06, 0, 16),
            CustomerMemoryArea::WOxyThreshold => (0x07, 0, 16),
            CustomerMemoryArea::WOzThreshold => (0x08, 0, 16),
        };
        MemoryLocation { register, position, length }
    }

    /// The value of this field in the bytes of its register.
    pub fn read(&self, data: [u8; 2]) -> (r: u32)
        ensures
            r == field_bits(data, location_of(*self).1, location_of(*self).2),
    {
        let loc = self.to_memory_location();
        let w = (((data[0] as u16) << 8u16) | (data[1] as u16)) as u32;
        let pos = loc.position;
        let len = loc.length;
        assert(1u32 << len != 0) by (bit_vector)
            requires
                1 <= len <= 16,
        ;
        (w >> pos) % (1u32 << len)
    }
}

} // verus!

verus! {

/// The register bytes `val` with the `len` bits at `pos` replaced by `v`.
pub open spec fn with_field(val: [u8; 2], pos: u32, len: u32, v: u32) -> [u8; 2] {
    let mask = !(0xffff_ffffu32 << len);
    let w = ((word(val) as u32) & !(mask << pos)) | ((v & mask) << pos);
    [(w >> 8u32) as u8, (w & 0xffu32) as u8]
}

/// Writing a value into a field of a register and reading that field back gives the value.
pub proof fn lemma_field_round_trip(val: [u8; 2], pos: u32, len: u32, v: u32)
    requires
        1 <= len,
        pos + len <= 16,
        v < (1u32 << len),
    ensures
        field_bits(with_field(val, pos, len, v), pos, len) == v,
{
    let (d0, d1) = (val[0], val[1]);
    let n = with_field(val, pos, len, v);
    let (e0, e1) = (n[0], n[1]);
    assert(((((e0 as u16) << 8u16) | (e1 as u16)) as u32 >> pos) % (1u32 << len) == v)
        by (bit_vector)
        requires
            1 <= len,
            pos + len <= 16,
            v < (1u32 << len),
            e0 == (((((((d0 as u16) << 8u16) | (d1 as u16)) as u32) & !(!(0xffff_ffffu32 << len)
                << pos)) | ((v & !(0xffff_ffffu32 << len)) << pos)) >> 8u32) as u8,
            e1 == (((((((d0 as u16) << 8u16) | (d1 as u16)) as u32) & !(!(0xffff_ffffu32 << len)
                << pos)) | ((v & !(0xffff_ffffu32 << len)) << pos)) & 0xffu32) as u8,
    ;
}

/// A gain written into its field decodes to the same gain, through the register and
/// through the bytes.
pub proof fn lemma_gain_round_trip(val: [u8; 2], g: Gain)
    ensures
        gain_of_code(field_bits(with_field(val, 4, 3, gain_code(g) as u32), 4, 3) as u8) == g,
        gain_of_code((with_field(val, 4, 3, gain_code(g) as u32)[1] >> 4u8) & 7u8) == g,
{
    let n = with_field(val, 4, 3, gain_code(g) as u32);
    assert(1u32 << 3u32 == 8) by (bit_vector);
    lemma_field_round_trip(val, 4, 3, gain_code(g) as u32);
    lemma_byte_fields(n[0], n[1]);
}

/// A one-bit flag written into a register reads back the same: `ZSeries` at bit 7,
/// `Bist` at bit 8, the temperature compensation at bit 10 of register 0x01 and at bit 2
/// of the low byte.
pub proof fn lemma_flag_round_trip(val: [u8; 2], pos: u32, on: bool)
    requires
        pos < 16,
    ensures
        flag(with_field(val, pos, 1, if on { 1 } else { 0 }), pos) == on,
        pos == 2 ==> (bit(with_field(val, pos, 1, if on { 1 } else { 0 })[1], 2) == on),
{
    let v: u32 = if on { 1 } else { 0 };
    assert(1u32 << 1u32 == 2) by (bit_vector);
    lemma_field_round_trip(val, pos, 1, v);
    let n = with_field(val, pos, 1, v);
    lemma_byte_fields(n[0], n[1]);
}

/// The Hall configuration decodes to two-phase only for `0000`, to four-phase only for
/// `1100`, and to nothing for the fourteen other patterns of the low nibble.
pub proof fn lemma_hall_conf_patterns(val: [u8; 2])
    ensures
        hall_conf_of_nibble(val[1] & 15u8) == Some(HallConf::TWOPHASE) <==> val[1] & 15u8 == 0,
        hall_conf_of_nibble(val[1] & 15u8) == Some(HallConf::FOURPHASE) <==> val[1] & 15u8 == 12,
        hall_conf_of_nibble(val[1] & 15u8) is None <==> (val[1] & 15u8 != 0 && val[1] & 15u8
            != 12),
{
}

/// The Y resolution: with the selector bit clear, Y's own bit 0 or 1 gives 19 or 18 bits;
/// with it set, 17 or 16 bits.
pub proof fn lemma_res3d_y(val: [u8; 2])
    ensures
        val[0] & 1u8 == 0 && val[1] >> 7u8 == 0 ==> res3d_of(val).y == Resolution::BIT19,
        val[0] & 1u8 == 0 && val[1] >> 7u8 == 1 ==> res3d_of(val).y == Resolution::BIT18,
        val[0] & 1u8 == 1 && val[1] >> 7u8 == 0 ==> res3d_of(val).y == Resolution::BIT17,
        val[0] & 1u8 == 1 && val[1] >> 7u8 == 1 ==> res3d_of(val).y == Resolution::BIT16,
{
}

} // verus!
