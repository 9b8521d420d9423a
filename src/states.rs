//! The legal operation sequences of one sensor, as an explicit state value. Each
//! transition consumes the state and yields the next one, with the bus work it needs.
use vstd::prelude::*;

use crate::commands::{Command, MagneticFieldReturnFlags};

verus! {

/// No measurement is running.
#[derive(Clone, Copy, Debug, PartialEq, Eq, Structural)]
pub struct Idle;

/// A measurement has been started and its result is not ready yet.
#[derive(Clone, Copy, Debug, PartialEq, Eq, Structural)]
pub struct Measuring;

/// A result is ready to be read.
#[derive(Clone, Copy, Debug, PartialEq, Eq, Structural)]
pub struct Measured;

/// No measurement mode.
#[derive(Clone, Copy, Debug, PartialEq, Eq, Structural)]
pub struct NoMode;

/// One measurement, after which the sensor is idle again.
#[derive(Clone, Copy, Debug, PartialEq, Eq, Structural)]
pub struct SingleMeasurement;

/// Continuous measurements at the burst data rate.
#[derive(Clone, Copy, Debug, PartialEq, Eq, Structural)]
pub struct Burst;

/// Continuous measurements, reported when the field changes.
#[derive(Clone, Copy, Debug, PartialEq, Eq, Structural)]
pub struct WakeOnChange;

#[derive(Clone, Copy, Debug, PartialEq, Eq, Structural)]
pub enum Phase {
    Idle(Idle),
    Measuring(Measuring),
    Measured(Measured),
}

#[derive(Clone, Copy, Debug, PartialEq, Eq, Structural)]
pub enum Mode {
    NoMode(NoMode),
    SingleMeasurement(SingleMeasurement),
    Burst(Burst),
    WakeOnChange(WakeOnChange),
}

/// The phase and the mode of a sensor.
#[derive(Clone, Copy, Debug, PartialEq, Eq, Structural)]
pub struct SensorState {
    pub state: Phase,
    pub mode: Mode,
}

/// Why an operation was refused.
#[derive(Clone, Copy, Debug, PartialEq, Eq, Structural)]
pub enum SensorError {
    /// The operation is not legal in the sensor's current state.
    InvalidStateTransition,
    /// The calibration could not be read: the Hall configuration bits are not a valid
    /// pattern.
    CalibrationInvalid,
    /// A response did not have the layout that its command calls for.
    BadResponse,
}

/// A piece of bus work that a transition asks for, in order.
#[derive(Clone, Copy, Debug)]
pub enum Action {
    /// Send a command and read its response.
    Send(Command),
    /// Wait this many microseconds.
    WaitMicros(u32),
    /// Wait for the sensor's data-ready signal.
    WaitReady,
}

pub open spec fn idle_state() -> SensorState {
    SensorState { state: Phase::Idle(Idle), mode: Mode::NoMode(NoMode) }
}

/// The states that the transitions can reach: idle with no mode, or measuring or measured
/// in one of the three measurement modes.
pub open spec fn reachable(s: SensorState) -> bool {
    (s.state is Idle) <==> (s.mode is NoMode)
}

/// The state after a measurement is started in `mode` from `s`, if that is legal.
pub open spec fn started(s: SensorState, mode: Mode) -> Option<SensorState> {
    if s == idle_state() && !(mode is NoMode) {
        Some(SensorState { state: Phase::Measuring(Measuring), mode })
    } else {
        None
    }
}

/// The state after the next result is taken: a running measurement becomes measured; a
/// single measurement then ends, and a continuous one is armed again.
pub open spec fn after_measured(s: SensorState) -> Option<SensorState> {
    match s.state {
        Phase::Idle(_) => None,
        Phase::Measuring(_) => Some(SensorState { state: Phase::Measured(Measured), mode: s.mode }),
        Phase::Measured(_) => match s.mode {
            Mode::NoMode(_) => None,
            Mode::SingleMeasurement(_) => Some(idle_state()),
            _ => Some(SensorState { state: Phase::Measuring(Measuring), mode: s.mode }),
        },
    }
}

/// The state after an explicit exit: only a measured sensor can exit, to idle.
pub open spec fn exited(s: SensorState) -> Option<SensorState> {
    if s.state is Measured {
        Some(idle_state())
    } else {
        None
    }
}

/// The bus work of a reset: exit, let it settle for 1 ms, reset, let it settle for 1.5 ms.
pub open spec fn reset_actions(a: Seq<Action>) -> bool {
    &&& a.len() == 4
    &&& a[0] matches Action::Send(c) && c == Command::EX
    &&& a[1] == Action::WaitMicros(1000)
    &&& a[2] matches Action::Send(c) && c == Command::RT
    &&& a[3] == Action::WaitMicros(1500)
}

/// The command that starts a measurement mode on some channels.
pub open spec fn start_command(mode: Mode, axes: MagneticFieldReturnFlags) -> Command {
    match mode {
        Mode::Burst(_) => Command::SB(axes),
        Mode::WakeOnChange(_) => Command::SW(axes),
        _ => Command::SM(axes),
    }
}

fn reset_plan() -> (r: Vec<Action>)
    ensures
        reset_actions(r@),
{
    vec![
        Action::Send(Command::EX),
        Action::WaitMicros(1000),
        Action::Send(Command::RT),
        Action::WaitMicros(1500),
    ]
}

impl SensorState {
    /// The state of a sensor that was just reset.
    pub fn new() -> (r: Self)
        ensures
            r == idle_state(),
    {
        SensorState { state: Phase::Idle(Idle), mode: Mode::NoMode(NoMode) }
    }

    /// Resets from any state: the sensor is idle with no mode afterwards.
    pub fn reset(self) -> (r: (SensorState, Vec<Action>))
        ensures
            r.0 == idle_state(),
            reset_actions(r.1@),
    {
        (SensorState::new(), reset_plan())
    }

    /// Starts a measurement in `mode` on the channels `axes`. Only an idle sensor can start,
    /// only in one of the three measurement modes, and only once its calibration was read.
    pub fn start(self, mode: Mode, axes: MagneticFieldReturnFlags, calibrated: bool) -> (r: Result<
        (SensorState, Vec<Action>),
        SensorError,
    >)
        ensures
            started(self, mode) is None ==> r == Err::<(SensorState, Vec<Action>), SensorError>(
                SensorError::InvalidStateTransition,
            ),
            started(self, mode) is Some && !calibrated ==> r == Err::<
                (SensorState, Vec<Action>),
                SensorError,
            >(SensorError::CalibrationInvalid),
            started(self, mode) is Some && calibrated ==> (r matches Ok((s, a)) && Some(s)
                == started(self, mode) && a@.len() == 1 && (a@[0] matches Action::Send(c) && c
                == start_command(mode, axes))),
    {
        let idle = match (self.state, self.mode) {
            (Phase::Idle(_), Mode::NoMode(_)) => true,
            _ => false,
        };
        let command = match mode {
            Mode::NoMode(_) => {
                return Err(SensorError::InvalidStateTransition);
            },
            Mode::Burst(_) => Command::SB(axes),
            Mode::WakeOnChange(_) => Command::SW(axes),
            Mode::SingleMeasurement(_) => Command::SM(axes),
        };
        if !idle {
            return Err(SensorError::InvalidStateTransition);
        }
        if !calibrated {
            return Err(SensorError::CalibrationInvalid);
        }
        Ok((SensorState { state: Phase::Measuring(Measuring), mode }, vec![Action::Send(command)]))
    }

    /// Takes the next result: a measuring sensor waits for the data-ready signal and is then
    /// measured; a measured one ends a single measurement or arms a continuous one again.
    pub fn has_measured(self) -> (r: Result<(SensorState, Vec<Action>), SensorError>)
        ensures
            after_measured(self) is None ==> r == Err::<(SensorState, Vec<Action>), SensorError>(
                SensorError::InvalidStateTransition,
            ),
            after_measured(self) is Some ==> (r matches Ok((s, a)) && Some(s) == after_measured(
                self,
            ) && (if self.state is Measuring {
                a@ == seq![Action::WaitReady]
            } else {
                a@.len() == 0
            })),
    {
        match self.state {
            Phase::Idle(_) => Err(SensorError::InvalidStateTransition),
            Phase::Measuring(_) => {
                let v = vec![Action::WaitReady];
                assert(v@ =~= seq![Action::WaitReady]);
                Ok((SensorState { state: Phase::Measured(Measured), mode: self.mode }, v))
            },
            Phase::Measured(_) => match self.mode {
                Mode::NoMode(_) => Err(SensorError::InvalidStateTransition),
                Mode::SingleMeasurement(_) => Ok((SensorState::new(), Vec::new())),
                _ => Ok((SensorState { state: Phase::Measuring(Measuring), mode: self.mode }, Vec::new())),
            },
        }
    }

    /// Abandons a finished measurement.
    pub fn exit(self) -> (r: Result<SensorState, SensorError>)
        ensures
            match exited(self) {
                Some(s) => r == Ok::<SensorState, SensorError>(s),
                None => r == Err::<SensorState, SensorError>(SensorError::InvalidStateTransition),
            },
    {
        match self.state {
            Phase::Measured(_) => Ok(SensorState::new()),
            _ => Err(SensorError::InvalidStateTransition),
        }
    }
}

/// Every transition keeps a sensor among the reachable states.
pub proof fn lemma_transitions_stay_reachable(s: SensorState, mode: Mode)
    requires
        reachable(s),
    ensures
        reachable(idle_state()),
        started(s, mode) matches Some(n) ==> reachable(n),
        after_measured(s) matches Some(n) ==> reachable(n),
        exited(s) matches Some(n) ==> reachable(n),
{
}

/// From every reachable state a reset leads to idle with no mode; a finished single
/// measurement returns to idle with no mode; a finished burst or wake-on-change
/// measurement is armed again in its own mode and never becomes idle.
pub proof fn lemma_liveness(s: SensorState)
    requires
        reachable(s),
    ensures
        s.state is Measured && s.mode is SingleMeasurement ==> after_measured(s) == Some(
            idle_state(),
        ),
        s.state is Measured && (s.mode is Burst || s.mode is WakeOnChange) ==> after_measured(s)
            == Some(SensorState { state: Phase::Measuring(Measuring), mode: s.mode }),
        (s.mode is Burst || s.mode is WakeOnChange) ==> (after_measured(s) matches Some(n) && !(
        n.state is Idle) && n.mode == s.mode),
        !(s.state is Idle) ==> after_measured(s) is Some,
{
}

} // verus!
