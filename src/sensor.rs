//! The decisions of one sensor's driver: the calibration snapshot it reads after a reset,
//! which operations its state allows, and how a measurement response becomes a reading.
//! The bus work itself is handed out as actions.
use vstd::prelude::*;

use crate::commands::{
    Command, MagneticFieldReturnFlags, channels_of, measurement_bytes, parse_measurement,
    response_len, status_of, Status,
};
use crate::conversions::{MagneticField, converted};
use crate::memory::{
    Gain, HallConf, Register, Res3D, TempRef, TemperatureCompensation, field_bits, flag,
    gain_of_code, hall_conf_of_nibble, res3d_of,
};
use crate::states::{
    Action, Mode, Phase, SensorError, SensorState, after_measured, idle_state, reset_actions,
    start_command, started,
};

verus! {

/// The calibration snapshot: what the conversion needs from the sensor's registers.
#[derive(Clone, Copy, Debug)]
pub struct MLXSettings {
    pub resolution: Res3D,
    pub gain: Gain,
    pub temperature_compensation: TemperatureCompensation,
    pub hall_configuration: HallConf,
    pub temp_ref: TempRef,
}

/// The snapshot that registers 0x00, 0x01, 0x02 and 0x24 hold, if their Hall
/// configuration is valid.
pub open spec fn settings_of(r0: [u8; 2], r1: [u8; 2], r2: [u8; 2], r24: [u8; 2]) -> Option<
    MLXSettings,
> {
    match hall_conf_of_nibble(field_bits(r0, 0, 4) as u8) {
        None => None,
        Some(h) => Some(
            MLXSettings {
                resolution: res3d_of(r2),
                gain: gain_of_code(field_bits(r0, 4, 3) as u8),
                temperature_compensation: if flag(r1, 10) {
                    TemperatureCompensation::Enabled
                } else {
                    TemperatureCompensation::Disabled
                },
                hall_configuration: h,
                temp_ref: TempRef { offset: r24 },
            },
        ),
    }
}

impl MLXSettings {
    /// Builds the snapshot from the registers read after a reset. It is refused when the
    /// Hall configuration bits are not a valid pattern.
    pub fn from_registers(
        r0: &Register<0x00>,
        r1: &Register<0x01>,
        r2: &Register<0x02>,
        r24: &Register<0x24>,
    ) -> (r: Option<MLXSettings>)
        ensures
            r == settings_of(r0.bytes(), r1.bytes(), r2.bytes(), r24.bytes()),
    {
        let hall_configuration = r0.hall_conf()?;
        Some(
            MLXSettings {
                resolution: r2.resolution(),
                gain: r0.gain(),
                temperature_compensation: r1.temperature_compensation(),
                hall_configuration,
                temp_ref: r24.temperature_reference(),
            },
        )
    }
}

/// The driver of one sensor at a bus address.
pub struct MLX90393 {
    address: u8,
    /// The calibration snapshot, once it was read successfully.
    state: Option<MLXSettings>,
    sensor: SensorState,
    axes: MagneticFieldReturnFlags,
}

impl MLX90393 {
    pub closed spec fn bus_address(&self) -> u8 {
        self.address
    }

    pub closed spec fn calibration(&self) -> Option<MLXSettings> {
        self.state
    }

    pub closed spec fn phase(&self) -> SensorState {
        self.sensor
    }

    /// The channels of the measurement that was last started.
    pub closed spec fn channels(&self) -> MagneticFieldReturnFlags {
        self.axes
    }

    /// A driver for the sensor at `address`, and the reset that must run on the bus before
    /// it is used: it starts idle, with no mode and no calibration.
    pub fn new(address: u8) -> (r: (MLX90393, Vec<Action>))
        ensures
            r.0.bus_address() == address,
            r.0.calibration() is None,
            r.0.phase() == idle_state(),
            reset_actions(r.1@),
    {
        let (sensor, actions) = SensorState::new().reset();
        (MLX90393 { address, state: None, sensor, axes: MagneticFieldReturnFlags::empty() }, actions)
    }

    /// Resets from any state.
    pub fn reset(&mut self) -> (r: Vec<Action>)
        ensures
            final(self).phase() == idle_state(),
            final(self).bus_address() == old(self).bus_address(),
            final(self).calibration() == old(self).calibration(),
            reset_actions(r@),
    {
        let (sensor, actions) = self.sensor.reset();
        self.sensor = sensor;
        actions
    }

    /// Keeps the calibration snapshot read from the sensor's registers.
    pub fn set_measurement_configuration(&mut self, settings: Option<MLXSettings>)
        ensures
            final(self).calibration() == settings,
            final(self).bus_address() == old(self).bus_address(),
            final(self).phase() == old(self).phase(),
            final(self).channels() == old(self).channels(),
    {
        self.state = settings;
    }

    /// Starts a measurement in `mode` on the channels `axes`; the actions send its command.
    /// It is refused off the idle state, and before a calibration was read.
    pub fn start(&mut self, mode: Mode, axes: MagneticFieldReturnFlags) -> (r: Result<
        Vec<Action>,
        SensorError,
    >)
        ensures
            final(self).bus_address() == old(self).bus_address(),
            final(self).calibration() == old(self).calibration(),
            started(old(self).phase(), mode) is None ==> r == Err::<Vec<Action>, SensorError>(
                SensorError::InvalidStateTransition,
            ) && final(self).phase() == old(self).phase(),
            started(old(self).phase(), mode) is Some && old(self).calibration() is None ==> r == Err::<
                Vec<Action>,
                SensorError,
            >(SensorError::CalibrationInvalid) && final(self).phase() == old(self).phase(),
            started(old(self).phase(), mode) is Some && old(self).calibration() is Some ==> (r matches Ok(a)
                && Some(final(self).phase()) == started(old(self).phase(), mode)
                && final(self).channels() == axes && a@.len() == 1 && (a@[0] matches Action::Send(
                c,
            ) && c == start_command(mode, axes))),
    {
        match self.sensor.start(mode, axes, self.state.is_some()) {
            Ok((sensor, actions)) => {
                self.sensor = sensor;
                self.axes = axes;
                Ok(actions)
            },
            Err(e) => Err(e),
        }
    }

    /// Takes the next result, as the state machine allows.
    pub fn has_measured(&mut self) -> (r: Result<Vec<Action>, SensorError>)
        ensures
            final(self).bus_address() == old(self).bus_address(),
            final(self).calibration() == old(self).calibration(),
            final(self).channels() == old(self).channels(),
            after_measured(old(self).phase()) is None ==> r == Err::<Vec<Action>, SensorError>(
                SensorError::InvalidStateTransition,
            ) && final(self).phase() == old(self).phase(),
            after_measured(old(self).phase()) is Some ==> (r matches Ok(a) && Some(
                final(self).phase(),
            ) == after_measured(old(self).phase()) && (if old(self).phase().state is Measuring {
                a@ == seq![Action::WaitReady]
            } else {
                a@.len() == 0
            })),
    {
        match self.sensor.has_measured() {
            Ok((sensor, actions)) => {
                self.sensor = sensor;
                Ok(actions)
            },
            Err(e) => Err(e),
        }
    }

    /// Abandons a finished measurement.
    pub fn exit(&mut self) -> (r: Result<(), SensorError>)
        ensures
            final(self).bus_address() == old(self).bus_address(),
            final(self).calibration() == old(self).calibration(),
            old(self).phase().state is Measured ==> r is Ok && final(self).phase() == idle_state(),
            !(old(self).phase().state is Measured) ==> r == Err::<(), SensorError>(
                SensorError::InvalidStateTransition,
            ) && final(self).phase() == old(self).phase(),
    {
        match self.sensor.exit() {
            Ok(sensor) => {
                self.sensor = sensor;
                Ok(())
            },
            Err(e) => Err(e),
        }
    }

    pub fn address(&self) -> (r: u8)
        ensures
            r == self.bus_address(),
    {
        self.address
    }

    pub fn settings(&self) -> (r: Option<MLXSettings>)
        ensures
            r == self.calibration(),
    {
        self.state
    }

    /// The command that reads the result of the measurement that was started.
    pub fn read_command(&self) -> (r: Command)
        ensures
            r == Command::RM(self.channels()),
    {
        Command::RM(self.axes)
    }

    /// Converts the response to `read_command` into a reading. It is refused without a
    /// calibration, and when the response is not as long as that command's response.
    pub fn get_field(&self, response: &[u8]) -> (r: Result<(Status, MagneticField), SensorError>)
        ensures
            self.calibration() is None ==> r == Err::<(Status, MagneticField), SensorError>(
                SensorError::CalibrationInvalid,
            ),
            self.calibration() is Some && response@.len() != response_len(Command::RM(self.channels()))
                ==> r == Err::<(Status, MagneticField), SensorError>(SensorError::BadResponse),
            self.calibration() is Some && response@.len() == response_len(
                Command::RM(self.channels()),
            ) ==> (r matches Ok((status, field)) && status == status_of(response@[0]) && exists|
                m|
                channels_of(m) == self.channels() && response@ == measurement_bytes(
                    response@[0],
                    m,
                ) && field == converted(
                    m,
                    self.calibration().unwrap().temp_ref,
                    self.calibration().unwrap().temperature_compensation,
                    self.calibration().unwrap().gain,
                    self.calibration().unwrap().resolution,
                    self.calibration().unwrap().hall_configuration,
                )),
    {
        let settings = match self.state {
            Some(s) => s,
            None => {
                return Err(SensorError::CalibrationInvalid);
            },
        };
        let (status, mbits) = match parse_measurement(self.axes, response) {
            Some(p) => p,
            None => {
                return Err(SensorError::BadResponse);
            },
        };
        match MagneticField::from_mbits(
            mbits,
            self.axes,
            settings.temp_ref,
            settings.temperature_compensation,
            settings.gain,
            settings.resolution,
            settings.hall_configuration,
        ) {
            Some(field) => Ok((status, field)),
            None => Err(SensorError::BadResponse),
        }
    }
}

} // verus!
