//! The sensor's command set: the bytes of each command, the length of its response, the
//! status byte that starts every response, and the layout of a measurement response.
use vstd::prelude::*;

use crate::conversions::MagneticBits;
use crate::memory::bit;

verus! {

/// A set of channels, as the low four bits of several opcodes: temperature is bit 0,
/// X bit 1, Y bit 2 and Z bit 3.
#[derive(Clone, Copy, Debug, PartialEq, Eq, Structural)]
pub struct MagneticFieldReturnFlags {
    pub x: bool,
    pub y: bool,
    pub z: bool,
    pub t: bool,
}

pub open spec fn b2n(b: bool) -> nat {
    if b { 1 } else { 0 }
}

/// The opcode bits of a channel set.
pub open spec fn channel_bits(f: MagneticFieldReturnFlags) -> u8 {
    (b2n(f.t) + 2 * b2n(f.x) + 4 * b2n(f.y) + 8 * b2n(f.z)) as u8
}

/// How many channels a set holds.
pub open spec fn channel_count(f: MagneticFieldReturnFlags) -> nat {
    b2n(f.t) + b2n(f.x) + b2n(f.y) + b2n(f.z)
}

impl MagneticFieldReturnFlags {
    pub fn all() -> (r: Self)
        ensures
            r.x && r.y && r.z && r.t,
    {
        MagneticFieldReturnFlags { x: true, y: true, z: true, t: true }
    }

    pub fn empty() -> (r: Self)
        ensures
            !r.x && !r.y && !r.z && !r.t,
    {
        MagneticFieldReturnFlags { x: false, y: false, z: false, t: false }
    }

    /// The set named by the low four bits of `b`; higher bits are ignored.
    pub fn from_bits_truncate(b: u8) -> (r: Self)
        ensures
            r.t == bit(b, 0),
            r.x == bit(b, 1),
            r.y == bit(b, 2),
            r.z == bit(b, 3),
    {
        MagneticFieldReturnFlags {
            t: (b >> 0u8) & 1u8 == 1u8,
            x: (b >> 1u8) & 1u8 == 1u8,
            y: (b >> 2u8) & 1u8 == 1u8,
            z: (b >> 3u8) & 1u8 == 1u8,
        }
    }

    pub fn bits(&self) -> (r: u8)
        ensures
            r == channel_bits(*self),
            r < 16,
    {
        let mut r: u8 = 0;
        if self.t {
            r = r + 1;
        }
        if self.x {
            r = r + 2;
        }
        if self.y {
            r = r + 4;
        }
        if self.z {
            r = r + 8;
        }
        r
    }

    pub fn count(&self) -> (r: u8)
        ensures
            r == channel_count(*self),
    {
        let mut r: u8 = 0;
        if self.t {
            r = r + 1;
        }
        if self.x {
            r = r + 1;
        }
        if self.y {
            r = r + 1;
        }
        if self.z {
            r = r + 1;
        }
        r
    }
}

/// A command frame of the sensor.
#[derive(Clone, Copy, Debug)]
pub enum Command {
    /// Start burst mode.
    SB(MagneticFieldReturnFlags),
    /// Start wake-on-change mode.
    SW(MagneticFieldReturnFlags),
    /// Start a single measurement.
    SM(MagneticFieldReturnFlags),
    /// Read a measurement.
    RM(MagneticFieldReturnFlags),
    /// Read a register.
    RR { location: u8 },
    /// Write a register, high byte first.
    WR { data: [u8; 2], location: u8 },
    /// Exit the current mode.
    EX,
    /// Recall the memory into the registers.
    HR,
    /// Store the registers into the memory.
    HS,
    /// Reset.
    RT,
}

/// The first byte of a command.
pub open spec fn opcode(c: Command) -> u8 {
    match c {
        Command::SB(f) => (0x10 + channel_bits(f)) as u8,
        Command::SW(f) => (0x20 + channel_bits(f)) as u8,
        Command::SM(f) => (0x30 + channel_bits(f)) as u8,
        Command::RM(f) => (0x40 + channel_bits(f)) as u8,
        Command::RR { .. } => 0x50,
        Command::WR { .. } => 0x60,
        Command::EX => 0x80,
        Command::HR => 0xD0,
        Command::HS => 0xE0,
        Command::RT => 0xF0,
    }
}

/// All the bytes of a command. A register address goes in the bits 7..2 of the last byte.
pub open spec fn command_bytes(c: Command) -> Seq<u8> {
    match c {
        Command::RR { location } => seq![opcode(c), location << 2u8],
        Command::WR { data, location } => seq![opcode(c), data[0], data[1], location << 2u8],
        _ => seq![opcode(c)],
    }
}

/// How many bytes the sensor answers to a command, status byte included.
pub open spec fn response_len(c: Command) -> nat {
    match c {
        Command::RM(f) => 1 + 2 * channel_count(f),
        Command::RR { .. } => 3,
        _ => 1,
    }
}

impl Command {
    pub fn cmd1(&self) -> (r: u8)
        ensures
            r == opcode(*self),
    {
        match self {
            Command::SB(f) => 0x10 + f.bits(),
            Command::SW(f) => 0x20 + f.bits(),
            Command::SM(f) => 0x30 + f.bits(),
            Command::RM(f) => 0x40 + f.bits(),
            Command::RR { .. } => 0x50,
            Command::WR { .. } => 0x60,
            Command::EX => 0x80,
            Command::HR => 0xD0,
            Command::HS => 0xE0,
            Command::RT => 0xF0,
        }
    }

    pub fn cmds(&self) -> (r: Vec<u8>)
        ensures
            r@ == command_bytes(*self),
    {
        let first = self.cmd1();
        match self {
            Command::RR { location } => vec![first, *location << 2u8],
            Command::WR { data, location } => vec![first, data[0], data[1], *location << 2u8],
            _ => vec![first],
        }
    }

    pub fn expected_number_of_return_bytes(&self) -> (r: usize)
        ensures
            r == response_len(*self),
    {
        match self {
            Command::RM(f) => 1 + 2 * (f.count() as usize),
            Command::RR { .. } => 3,
            _ => 1,
        }
    }
}

/// The status byte that starts every response.
#[derive(Clone, Copy, Debug, PartialEq, Eq, Structural)]
pub struct Status {
    pub burst_mode: bool,
    pub woc_mode: bool,
    pub sm_mode: bool,
    pub error: bool,
    pub sed: bool,
    pub rs: bool,
    pub data: u8,
}

/// The decoding of a status byte: bits 7 to 2 are flags, bits 1..0 the response code.
pub open spec fn status_of(s: u8) -> Status {
    Status {
        burst_mode: bit(s, 7),
        woc_mode: bit(s, 6),
        sm_mode: bit(s, 5),
        error: bit(s, 4),
        sed: bit(s, 3),
        rs: bit(s, 2),
        data: s & 3u8,
    }
}

impl Status {
    pub fn from_u8(status: &u8) -> (r: Self)
        ensures
            r == status_of(*status),
    {
        let s = *status;
        Status {
            burst_mode: (s >> 7u8) & 1u8 == 1u8,
            woc_mode: (s >> 6u8) & 1u8 == 1u8,
            sm_mode: (s >> 5u8) & 1u8 == 1u8,
            error: (s >> 4u8) & 1u8 == 1u8,
            sed: (s >> 3u8) & 1u8 == 1u8,
            rs: (s >> 2u8) & 1u8 == 1u8,
            data: s & 3u8,
        }
    }
}

} // verus!

verus! {

/// Start burst mode on some channels.
pub struct SB {
    pub axes: MagneticFieldReturnFlags,
}

/// Start wake-on-change mode on some channels.
pub struct SW {
    pub axes: MagneticFieldReturnFlags,
}

/// Start a single measurement of some channels.
pub struct SM {
    pub axes: MagneticFieldReturnFlags,
}

/// Read the measurement of some channels.
pub struct RM {
    pub axes: MagneticFieldReturnFlags,
}

/// Read the register at `location`.
pub struct RR {
    pub location: u8,
}

/// Write `data`, high byte first, to the register at `location`.
pub struct WR {
    pub data: [u8; 2],
    pub location: u8,
}

/// Exit the current mode.
pub struct EX;

/// Recall the memory into the registers.
pub struct HR;

/// Store the registers into the memory.
pub struct HS;

/// Reset.
pub struct RT;

/// A typed command, ready to be sent.
pub struct CommandData<T> {
    pub command: T,
}

/// What a bus transaction needs of a command: the bytes to write and a buffer for the
/// response.
pub trait RunCommand {
    /// The command frame that this value stands for.
    spec fn frame(&self) -> Command;

    fn to_command(&self) -> (r: Command)
        ensures
            r == self.frame(),
    ;

    fn write_command(&self) -> (r: Vec<u8>)
        ensures
            r@ == command_bytes(self.frame()),
    {
        self.to_command().cmds()
    }

    /// A zeroed buffer as long as the response.
    fn read_buffer(&self) -> (r: Vec<u8>)
        ensures
            r@ == Seq::new(response_len(self.frame()), |i: int| 0u8),
    {
        let n = self.to_command().expected_number_of_return_bytes();
        let mut v: Vec<u8> = Vec::new();
        while v.len() < n
            invariant
                n == response_len(self.frame()),
                v.len() <= n,
                forall|i: int| 0 <= i < v.len() ==> v@[i] == 0u8,
            decreases n - v.len(),
        {
            v.push(0u8);
        }
        assert(v@ =~= Seq::new(response_len(self.frame()), |i: int| 0u8));
        v
    }
}

impl RunCommand for CommandData<SB> {
    open spec fn frame(&self) -> Command {
        Command::SB(self.command.axes)
    }

    fn to_command(&self) -> (r: Command) {
        Command::SB(self.command.axes)
    }
}

impl RunCommand for CommandData<SW> {
    open spec fn frame(&self) -> Command {
        Command::SW(self.command.axes)
    }

    fn to_command(&self) -> (r: Command) {
        Command::SW(self.command.axes)
    }
}

impl RunCommand for CommandData<SM> {
    open spec fn frame(&self) -> Command {
        Command::SM(self.command.axes)
    }

    fn to_command(&self) -> (r: Command) {
        Command::SM(self.command.axes)
    }
}

impl RunCommand for CommandData<RM> {
    open spec fn frame(&self) -> Command {
        Command::RM(self.command.axes)
    }

    fn to_command(&self) -> (r: Command) {
        Command::RM(self.command.axes)
    }
}

impl RunCommand for CommandData<RR> {
    open spec fn frame(&self) -> Command {
        Command::RR { location: self.command.location }
    }

    fn to_command(&self) -> (r: Command) {
        Command::RR { location: self.command.location }
    }
}

impl RunCommand for CommandData<WR> {
    open spec fn frame(&self) -> Command {
        Command::WR { data: self.command.data, location: self.command.location }
    }

    fn to_command(&self) -> (r: Command) {
        Command::WR { data: self.command.data, location: self.command.location }
    }
}

impl RunCommand for CommandData<EX> {
    open spec fn frame(&self) -> Command {
        Command::EX
    }

    fn to_command(&self) -> (r: Command) {
        Command::EX
    }
}

impl RunCommand for CommandData<HR> {
    open spec fn frame(&self) -> Command {
        Command::HR
    }

    fn to_command(&self) -> (r: Command) {
        Command::HR
    }
}

impl RunCommand for CommandData<HS> {
    open spec fn frame(&self) -> Command {
        Command::HS
    }

    fn to_command(&self) -> (r: Command) {
        Command::HS
    }
}

impl RunCommand for CommandData<RT> {
    open spec fn frame(&self) -> Command {
        Command::RT
    }

    fn to_command(&self) -> (r: Command) {
        Command::RT
    }
}

impl Command {
    pub fn start_burst(axes: MagneticFieldReturnFlags) -> (r: CommandData<SB>)
        ensures
            r.frame() == Command::SB(axes),
    {
        CommandData { command: SB { axes } }
    }

    pub fn start_wake_on_change(axes: MagneticFieldReturnFlags) -> (r: CommandData<SW>)
        ensures
            r.frame() == Command::SW(axes),
    {
        CommandData { command: SW { axes } }
    }

    pub fn single_measurement(axes: MagneticFieldReturnFlags) -> (r: CommandData<SM>)
        ensures
            r.frame() == Command::SM(axes),
    {
        CommandData { command: SM { axes } }
    }

    pub fn read_measurement(axes: MagneticFieldReturnFlags) -> (r: CommandData<RM>)
        ensures
            r.frame() == Command::RM(axes),
    {
        CommandData { command: RM { axes } }
    }

    pub fn read_register(location: u8) -> (r: CommandData<RR>)
        ensures
            r.frame() == (Command::RR { location }),
    {
        CommandData { command: RR { location } }
    }

    pub fn write_register(data: [u8; 2], location: u8) -> (r: CommandData<WR>)
        ensures
            r.frame() == (Command::WR { data, location }),
    {
        CommandData { command: WR { data, location } }
    }

    pub fn exit() -> (r: CommandData<EX>)
        ensures
            r.frame() == Command::EX,
    {
        CommandData { command: EX }
    }

    pub fn memory_recall() -> (r: CommandData<HR>)
        ensures
            r.frame() == Command::HR,
    {
        CommandData { command: HR }
    }

    pub fn memory_store() -> (r: CommandData<HS>)
        ensures
            r.frame() == Command::HS,
    {
        CommandData { command: HS }
    }

    pub fn reset() -> (r: CommandData<RT>)
        ensures
            r.frame() == Command::RT,
    {
        CommandData { command: RT }
    }
}

/// The two bytes of a channel word, or nothing for a channel that is absent.
pub open spec fn word_bytes(w: Option<[u8; 2]>) -> Seq<u8> {
    match w {
        Some(b) => seq![b[0], b[1]],
        None => seq![],
    }
}

/// A measurement response: the status byte, then the words of the channels present, in
/// the order temperature, X, Y, Z.
pub open spec fn measurement_bytes(status: u8, m: MagneticBits) -> Seq<u8> {
    seq![status] + word_bytes(m.temp) + word_bytes(m.x) + word_bytes(m.y) + word_bytes(m.z)
}

/// The channels that a sample holds.
pub open spec fn channels_of(m: MagneticBits) -> MagneticFieldReturnFlags {
    MagneticFieldReturnFlags { x: m.x is Some, y: m.y is Some, z: m.z is Some, t: m.temp is Some }
}

/// The next channel word of a response, if the channel was asked for.
fn take_word(on: bool, buffer: &[u8], i: usize) -> (r: (Option<[u8; 2]>, usize))
    requires
        i <= buffer@.len(),
        on ==> i + 2 <= buffer@.len(),
    ensures
        on ==> r.0 == Some([buffer@[i as int], buffer@[i + 1]]) && r.1 == i + 2,
        !on ==> r.0 is None && r.1 == i,
        word_bytes(r.0) == buffer@.subrange(i as int, r.1 as int),
{
    if on {
        let w = [buffer[i], buffer[i + 1]];
        assert(word_bytes(Some(w)) =~= buffer@.subrange(i as int, i + 2));
        (Some(w), i + 2)
    } else {
        assert(word_bytes(None) =~= buffer@.subrange(i as int, i as int));
        (None, i)
    }
}

/// Splits the response to a read-measurement command for `axes` into its status and
/// channel words. The response must be exactly as long as that command's response.
pub fn parse_measurement(axes: MagneticFieldReturnFlags, buffer: &[u8]) -> (r: Option<
    (Status, MagneticBits),
>)
    ensures
        r is Some <==> buffer@.len() == response_len(Command::RM(axes)),
        r matches Some((status, m)) ==> {
            &&& status == status_of(buffer@[0])
            &&& channels_of(m) == axes
            &&& buffer@ == measurement_bytes(buffer@[0], m)
        },
{
    let expected = Command::RM(axes).expected_number_of_return_bytes();
    if buffer.len() != expected {
        return None;
    }
    let status = Status::from_u8(&buffer[0]);
    let (temp, i) = take_word(axes.t, buffer, 1);
    let (x, i) = take_word(axes.x, buffer, i);
    let (y, i) = take_word(axes.y, buffer, i);
    let (z, i) = take_word(axes.z, buffer, i);
    let m = MagneticBits::new(x, y, z, temp);
    assert(i == buffer@.len());
    assert(buffer@ =~= measurement_bytes(buffer@[0], m)) by {
        assert(buffer@ =~= buffer@.subrange(0, 1) + buffer@.subrange(1, i as int));
    }
    Some((status, m))
}

} // verus!

verus! {

/// A measurement response for a channel set is one status byte and two bytes for each
/// channel of the set: exactly as long as the read-measurement command's response, for
/// each of the sixteen sets.
pub proof fn lemma_response_layout(axes: MagneticFieldReturnFlags, status: u8, m: MagneticBits)
    requires
        channels_of(m) == axes,
    ensures
        measurement_bytes(status, m).len() == response_len(Command::RM(axes)),
        response_len(Command::RM(axes)) == 1 + 2 * channel_count(axes),
        channel_bits(axes) < 16,
{
}

} // verus!
