use mlx90393::memory::{
    Bist, CustomerMemoryArea, Gain, HallConf, Register, Res3D, Resolution, TempOffset, TempRef,
    TemperatureCompensation, ZSeries,
};

#[test]
fn gain_decodes_every_code() {
    let gains = [
        Gain::ZERO,
        Gain::ONE,
        Gain::TWO,
        Gain::THREE,
        Gain::FOUR,
        Gain::FIVE,
        Gain::SIX,
        Gain::SEVEN,
    ];
    for (code, gain) in gains.iter().enumerate() {
        let low = ((code as u8) << 4) | 0x8C;
        assert_eq!(Gain::from_u8_slice(&[0xFF, low]), *gain);
        assert_eq!(Register::<0x00>::new([0x00, low]).gain(), *gain);
    }
}

#[test]
fn hall_conf_only_two_patterns_are_valid() {
    for nibble in 0u8..16 {
        let decoded = HallConf::from_u8_slice(&[0xAB, 0x70 | nibble]);
        match nibble {
            0 => assert_eq!(decoded, Some(HallConf::TWOPHASE)),
            12 => assert_eq!(decoded, Some(HallConf::FOURPHASE)),
            _ => assert_eq!(decoded, None),
        }
        assert_eq!(Register::<0x00>::new([0x00, nibble]).hall_conf(), decoded);
    }
}

#[test]
fn temperature_compensation_is_bit_two_of_the_low_byte() {
    assert_eq!(TemperatureCompensation::from_u8_slice(&[0x00, 0x04]), TemperatureCompensation::Enabled);
    assert_eq!(TemperatureCompensation::from_u8_slice(&[0xFF, 0xFB]), TemperatureCompensation::Disabled);
}

#[test]
fn register_one_flags() {
    let r = Register::<0x01>::new([0x04, 0x00]);
    assert_eq!(r.temperature_compensation(), TemperatureCompensation::Enabled);
    assert!(!r.external_trigger());
    let r = Register::<0x01>::new([0x9B, 0xC0]);
    assert_eq!(r.temperature_compensation(), TemperatureCompensation::Disabled);
    assert!(r.external_trigger());
    assert!(r.wake_on_change_diff());
    assert!(r.trigger_interrupt());
    let sel = r.burst_sel();
    assert!(sel.x && sel.y && sel.z && sel.temp);
    let sel = Register::<0x01>::new([0x02, 0x40]).burst_sel();
    assert!(!sel.x && !sel.y && sel.z && sel.temp);
}

#[test]
fn register_zero_single_bits() {
    let r = Register::<0x00>::new([0x01, 0x00]);
    assert_eq!(r.bist(), Bist::Enabled);
    assert_eq!(r.zseries(), ZSeries::Disabled);
    let r = Register::<0x00>::new([0x00, 0x80]);
    assert_eq!(r.bist(), Bist::Disabled);
    assert_eq!(r.zseries(), ZSeries::Enabled);
}

#[test]
fn res3d_y_selector_combinations() {
    let y = |high: u8, low: u8| Res3D::from_u8_slice(&[high, low]).y;
    assert_eq!(y(0x00, 0x00), Resolution::BIT19);
    assert_eq!(y(0x00, 0x80), Resolution::BIT18);
    assert_eq!(y(0x01, 0x00), Resolution::BIT17);
    assert_eq!(y(0x01, 0x80), Resolution::BIT16);
}

#[test]
fn res3d_x_and_z() {
    let r = Res3D::from_u8_slice(&[0b0000_0100, 0b0010_0000]);
    assert_eq!(r.x, Resolution::BIT18);
    assert_eq!(r.z, Resolution::BIT17);
    let r = Register::<0x02>::new([0b0000_0110, 0b0110_0000]).resolution();
    assert_eq!(r.x, Resolution::BIT16);
    assert_eq!(r.z, Resolution::BIT16);
    assert_eq!(r.y, Resolution::BIT19);
}

#[test]
fn temperature_registers_keep_their_bytes() {
    let o: TempOffset = Register::<0x03>::new([0x12, 0x34]).temperature_offset();
    assert_eq!(o.offset, [0x12, 0x34]);
    let t: TempRef = Register::<0x24>::new([0xB4, 0xA4]).temperature_reference();
    assert_eq!(t.offset, [0xB4, 0xA4]);
    assert_eq!(TempRef::from_u8_slice(&[1, 2]).offset, [1, 2]);
}

#[test]
fn memory_map_locations_and_reads() {
    let loc = CustomerMemoryArea::ResY.to_memory_location();
    assert_eq!((loc.register, loc.position, loc.length), (0x02, 7, 2));
    let loc = CustomerMemoryArea::WOzThreshold.to_memory_location();
    assert_eq!((loc.register, loc.position, loc.length), (0x08, 0, 16));
    assert_eq!(CustomerMemoryArea::ResY.read([0x01, 0x80]), 3);
    assert_eq!(CustomerMemoryArea::GainSel.read([0x00, 0x70]), 7);
    assert_eq!(CustomerMemoryArea::CommMode.read([0x60, 0x00]), 3);
    assert_eq!(CustomerMemoryArea::OffsetX.read([0xAB, 0xCD]), 0xABCD);
}

#[test]
fn memory_map_fields_do_not_overlap() {
    let all = [
        CustomerMemoryArea::Hallconf,
        CustomerMemoryArea::GainSel,
        CustomerMemoryArea::ZSeries,
        CustomerMemoryArea::Bist,
        CustomerMemoryArea::AnaReservedLow,
        CustomerMemoryArea::BurstDataRate,
        CustomerMemoryArea::BurstSel,
        CustomerMemoryArea::TcmpEn,
        CustomerMemoryArea::ExtTrg,
        CustomerMemoryArea::WocDiff,
        CustomerMemoryArea::CommMode,
        CustomerMemoryArea::TrigInt,
        CustomerMemoryArea::OSR,
        CustomerMemoryArea::DigFilt,
        CustomerMemoryArea::ResX,
        CustomerMemoryArea::ResY,
        CustomerMemoryArea::ResZ,
        CustomerMemoryArea::OSR2,
        CustomerMemoryArea::SensTcLT,
        CustomerMemoryArea::SensTcHT,
        CustomerMemoryArea::OffsetX,
        CustomerMemoryArea::OffsetY,
        CustomerMemoryArea::OffsetZ,
        CustomerMemoryArea::WOxyThreshold,
        CustomerMemoryArea::WOzThreshold,
    ];
    let mut used = [0u32; 9];
    for area in all {
        let loc = area.to_memory_location();
        assert!(loc.position + loc.length <= 16);
        let mask = ((1u32 << loc.length) - 1) << loc.position;
        assert_eq!(used[loc.register as usize] & mask, 0);
        used[loc.register as usize] |= mask;
    }
    assert_eq!(used, [0xFFFF, 0xFFFF, 0x1FFF, 0xFFFF, 0xFFFF, 0xFFFF, 0xFFFF, 0xFFFF, 0xFFFF]);
}
