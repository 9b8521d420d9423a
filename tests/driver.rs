use mlx90393::commands::{Command, MagneticFieldReturnFlags};
use mlx90393::conversions::MagneticField;
use mlx90393::memory::{HallConf, Register};
use mlx90393::messaging::{MagneticValue, Message, WireField};
use mlx90393::sensor::{MLXSettings, MLX90393};
use mlx90393::states::{
    Action, Burst, Idle, Measured, Measuring, Mode, NoMode, Phase, SensorError, SensorState,
    SingleMeasurement, WakeOnChange,
};

fn is_send(a: &Action, bytes: &[u8]) -> bool {
    matches!(a, Action::Send(c) if c.cmds() == bytes)
}

fn idle() -> SensorState {
    SensorState::new()
}

fn measured(mode: Mode) -> SensorState {
    SensorState { state: Phase::Measured(Measured), mode }
}

#[test]
fn reset_returns_to_idle_from_every_state() {
    let modes = [
        Mode::SingleMeasurement(SingleMeasurement),
        Mode::Burst(Burst),
        Mode::WakeOnChange(WakeOnChange),
    ];
    let mut states = vec![idle()];
    for m in modes {
        states.push(SensorState { state: Phase::Measuring(Measuring), mode: m });
        states.push(measured(m));
    }
    for s in states {
        let (next, actions) = s.reset();
        assert_eq!(next, idle());
        assert_eq!(actions.len(), 4);
        assert!(is_send(&actions[0], &[0x80]));
        assert!(matches!(actions[1], Action::WaitMicros(1000)));
        assert!(is_send(&actions[2], &[0xF0]));
        assert!(matches!(actions[3], Action::WaitMicros(1500)));
    }
}

#[test]
fn single_measurement_returns_to_idle() {
    let all = MagneticFieldReturnFlags::all();
    let (s, actions) = idle().start(Mode::SingleMeasurement(SingleMeasurement), all, true).unwrap();
    assert!(is_send(&actions[0], &[0x3F]));
    assert_eq!(s.state, Phase::Measuring(Measuring));
    let (s, actions) = s.has_measured().unwrap();
    assert!(matches!(actions[..], [Action::WaitReady]));
    assert_eq!(s, measured(Mode::SingleMeasurement(SingleMeasurement)));
    let (s, actions) = s.has_measured().unwrap();
    assert!(actions.is_empty());
    assert_eq!(s, SensorState { state: Phase::Idle(Idle), mode: Mode::NoMode(NoMode) });
}

#[test]
fn continuous_modes_rearm_in_their_own_mode() {
    for mode in [Mode::Burst(Burst), Mode::WakeOnChange(WakeOnChange)] {
        let (s, _) = measured(mode).has_measured().unwrap();
        assert_eq!(s, SensorState { state: Phase::Measuring(Measuring), mode });
        assert_eq!(measured(mode).exit(), Ok(idle()));
    }
    let (_, a) = idle().start(Mode::Burst(Burst), MagneticFieldReturnFlags::all(), true).unwrap();
    assert!(is_send(&a[0], &[0x1F]));
    let (_, a) = idle()
        .start(Mode::WakeOnChange(WakeOnChange), MagneticFieldReturnFlags::from_bits_truncate(2), true)
        .unwrap();
    assert!(is_send(&a[0], &[0x22]));
}

#[test]
fn illegal_transitions_are_refused() {
    let all = MagneticFieldReturnFlags::all();
    assert_eq!(idle().has_measured().err(), Some(SensorError::InvalidStateTransition));
    assert_eq!(idle().exit(), Err(SensorError::InvalidStateTransition));
    assert_eq!(idle().start(Mode::NoMode(NoMode), all, true).err(), Some(SensorError::InvalidStateTransition));
    let burst = measured(Mode::Burst(Burst));
    assert_eq!(burst.start(Mode::Burst(Burst), all, true).err(), Some(SensorError::InvalidStateTransition));
    assert_eq!(idle().start(Mode::Burst(Burst), all, false).err(), Some(SensorError::CalibrationInvalid));
}

fn registers(hall_low: u8) -> Option<MLXSettings> {
    MLXSettings::from_registers(
        &Register::<0x00>::new([0x00, hall_low]),
        &Register::<0x01>::new([0x00, 0x00]),
        &Register::<0x02>::new([0x00, 0x00]),
        &Register::<0x24>::new([0xB4, 0xA4]),
    )
}

#[test]
fn driver_refuses_to_measure_without_calibration() {
    let (mut mlx, actions) = MLX90393::new(0x0D);
    assert_eq!(actions.len(), 4);
    assert_eq!(mlx.address(), 0x0D);
    assert!(registers(0x03).is_none());
    mlx.set_measurement_configuration(registers(0x03));
    let all = MagneticFieldReturnFlags::all();
    assert_eq!(mlx.start(Mode::SingleMeasurement(SingleMeasurement), all).err(), Some(SensorError::CalibrationInvalid));
    assert_eq!(mlx.get_field(&[0; 9]).err(), Some(SensorError::CalibrationInvalid));
}

#[test]
fn end_to_end_reading_to_frame() {
    let settings = registers(0x00).unwrap();
    assert_eq!(settings.hall_configuration, HallConf::TWOPHASE);
    let (mut mlx, _) = MLX90393::new(0x0D);
    mlx.set_measurement_configuration(Some(settings));
    let xyz = MagneticFieldReturnFlags { x: true, y: true, z: true, t: false };
    let start = mlx.start(Mode::SingleMeasurement(SingleMeasurement), xyz).unwrap();
    assert!(is_send(&start[0], &[0x3E]));
    let wait = mlx.has_measured().unwrap();
    assert!(matches!(wait[..], [Action::WaitReady]));
    let read = mlx.read_command();
    assert_eq!(read.cmds(), vec![0x4E]);
    assert!(matches!(read, Command::RM(_)));
    let mut response = vec![0x20u8];
    for raw in [120i16, -50, 300] {
        response.extend_from_slice(&raw.to_be_bytes());
    }
    let (status, field): (_, MagneticField) = mlx.get_field(&response).unwrap();
    assert!(status.sm_mode);
    assert_eq!(field.x, Some(120 * 787));
    assert_eq!(field.y, Some(-50 * 787));
    assert_eq!(field.z, Some(300 * 1267));
    mlx.has_measured().unwrap();

    let micro = |nt: Option<i64>| nt.map(|v| MagneticValue::MicroTesla((v as f32 / 1000.0).to_bits()));
    let position = (6.75f32.to_bits(), (-2.25f32).to_bits(), 0.0f32.to_bits());
    let message = Message::new(
        WireField { x: micro(field.x), y: micro(field.y), z: micro(field.z), t: None },
        position,
    );
    assert_eq!(message.field.x, Some(MagneticValue::MicroTesla((120.0f32 * 0.787).to_bits())));
    let frame = message.to_frame().unwrap();
    assert!(frame.len() <= 64);
    let mut block = vec![0u8];
    block.extend_from_slice(&frame);
    block.resize(128, 0);
    let back = Message::from_block(&block).unwrap();
    assert_eq!(back, message);
    assert_eq!(back.position, position);
}
