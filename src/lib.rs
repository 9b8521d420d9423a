//! Driver logic for an array of MLX90393 Hall-effect magnetometers: register and
//! command codecs, the sensor's operation state machine, the conversion of raw samples
//! to physical units, and the framed wire format that carries readings to a host.
pub mod commands;
pub mod conversions;
pub mod framing;
pub mod memory;
pub mod messaging;
pub mod sensor;
pub mod states;
