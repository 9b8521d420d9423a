use mlx90393::commands::{parse_measurement, Command, MagneticFieldReturnFlags, RunCommand, Status};

fn set(bits: u8) -> MagneticFieldReturnFlags {
    MagneticFieldReturnFlags::from_bits_truncate(bits)
}

#[test]
fn opcodes_carry_the_channel_bits() {
    let all = MagneticFieldReturnFlags::all();
    assert_eq!(Command::SB(all).cmds(), vec![0x1F]);
    assert_eq!(Command::SW(set(0b0010)).cmds(), vec![0x22]);
    assert_eq!(Command::SM(set(0b0001)).cmds(), vec![0x31]);
    assert_eq!(Command::RM(set(0b1100)).cmds(), vec![0x4C]);
    assert_eq!(Command::EX.cmds(), vec![0x80]);
    assert_eq!(Command::HR.cmds(), vec![0xD0]);
    assert_eq!(Command::HS.cmds(), vec![0xE0]);
    assert_eq!(Command::RT.cmds(), vec![0xF0]);
}

#[test]
fn register_commands_shift_the_address() {
    assert_eq!(Command::RR { location: 0x02 }.cmds(), vec![0x50, 0x08]);
    assert_eq!(
        Command::WR { data: [0x12, 0x34], location: 0x01 }.cmds(),
        vec![0x60, 0x12, 0x34, 0x04]
    );
    assert_eq!(Command::read_register(0x24).write_command(), vec![0x50, 0x90]);
    assert_eq!(Command::write_register([0xAB, 0xCD], 3).write_command(), vec![0x60, 0xAB, 0xCD, 0x0C]);
    assert_eq!(Command::read_register(0x24).read_buffer(), vec![0, 0, 0]);
    assert_eq!(Command::write_register([0, 0], 0).read_buffer(), vec![0]);
}

#[test]
fn typed_commands_match_their_frames() {
    let all = MagneticFieldReturnFlags::all();
    assert_eq!(Command::start_burst(all).write_command(), vec![0x1F]);
    assert_eq!(Command::start_wake_on_change(set(0b0110)).write_command(), vec![0x26]);
    assert_eq!(Command::single_measurement(all).write_command(), vec![0x3F]);
    assert_eq!(Command::read_measurement(set(0b1001)).write_command(), vec![0x49]);
    assert_eq!(Command::read_measurement(all).read_buffer().len(), 9);
    assert_eq!(Command::exit().write_command(), vec![0x80]);
    assert_eq!(Command::reset().write_command(), vec![0xF0]);
    assert_eq!(Command::memory_recall().write_command(), vec![0xD0]);
    assert_eq!(Command::memory_store().write_command(), vec![0xE0]);
}

#[test]
fn response_length_for_all_sixteen_sets() {
    for bits in 0u8..16 {
        let axes = set(bits);
        assert_eq!(axes.bits(), bits);
        let expected = 1 + 2 * bits.count_ones() as usize;
        assert_eq!(Command::RM(axes).expected_number_of_return_bytes(), expected);
        assert_eq!(axes.count() as u32, bits.count_ones());
    }
    assert_eq!(Command::RR { location: 0 }.expected_number_of_return_bytes(), 3);
    assert_eq!(Command::WR { data: [0, 0], location: 0 }.expected_number_of_return_bytes(), 1);
    assert_eq!(Command::SM(set(15)).expected_number_of_return_bytes(), 1);
}

#[test]
fn measurement_words_come_in_temperature_x_y_z_order() {
    for bits in 0u8..16 {
        let axes = set(bits);
        let n = 1 + 2 * bits.count_ones() as usize;
        let buffer: Vec<u8> = (0..n as u8).collect();
        let (_, m) = parse_measurement(axes, &buffer).unwrap();
        let mut next = 1u8;
        let mut expect = |on: bool| {
            if on {
                let w = [next, next + 1];
                next += 2;
                Some(w)
            } else {
                None
            }
        };
        assert_eq!(m.temp, expect(axes.t));
        assert_eq!(m.x, expect(axes.x));
        assert_eq!(m.y, expect(axes.y));
        assert_eq!(m.z, expect(axes.z));
        assert!(parse_measurement(axes, &buffer[..n - 1]).is_none());
    }
}

#[test]
fn status_byte_fields() {
    let s = Status::from_u8(&0b1010_0110);
    assert!(s.burst_mode && !s.woc_mode && s.sm_mode && !s.error && !s.sed && s.rs);
    assert_eq!(s.data, 2);
    let s = Status::from_u8(&0b0101_1001);
    assert!(!s.burst_mode && s.woc_mode && !s.sm_mode && s.error && s.sed && !s.rs);
    assert_eq!(s.data, 1);
}
