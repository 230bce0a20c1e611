//! The controller's wire protocol: classifying incoming MIDI messages and
//! building the messages sent to the controller.

use vstd::prelude::*;

use crate::parameters::SCENE_DUMP_LEN;

verus! {

/// Command bytes of the controller's System-Exclusive messages.
#[derive(Debug, Copy, Clone, PartialEq, Eq, Structural)]
pub enum Command {
    NativeModeInOutRequest,
    DataDumpRequest,
    NativeModeInOut,
    PacketCommunication,
    DataDump,
}

impl Command {
    /// The wire byte of a command.
    pub open spec fn byte(self) -> u8 {
        match self {
            Command::NativeModeInOutRequest => 0x00,
            Command::DataDumpRequest => 0x1F,
            Command::NativeModeInOut => 0x40,
            Command::PacketCommunication => 0x5F,
            Command::DataDump => 0x7F,
        }
    }

    /// The command that a byte names, if it names one.
    pub fn try_parse(n: u8) -> (r: Option<Command>)
        ensures
            match r {
                Some(c) => c.byte() == n,
                None => forall|c: Command| #[trigger] c.byte() != n,
            },
    {
        match n {
            0x00 => Some(Command::NativeModeInOutRequest),
            0x1F => Some(Command::DataDumpRequest),
            0x40 => Some(Command::NativeModeInOut),
            0x5F => Some(Command::PacketCommunication),
            0x7F => Some(Command::DataDump),
            _ => None,
        }
    }

    /// The wire byte.
    pub fn to_byte(self) -> (r: u8)
        ensures
            r == self.byte(),
    {
        match self {
            Command::NativeModeInOutRequest => 0x00,
            Command::DataDumpRequest => 0x1F,
            Command::NativeModeInOut => 0x40,
            Command::PacketCommunication => 0x5F,
            Command::DataDump => 0x7F,
        }
    }
}

/// Function bytes that the controller sends back.
#[derive(Debug, Copy, Clone, PartialEq, Eq, Hash, Structural)]
pub enum Function {
    CurrentSceneDataDump,
    DataLoadCompleted,
    DataLoadError,
    WriteCompleted,
    WriteError,
    ModeData,
}

impl Function {
    /// The wire byte of a function.
    pub open spec fn byte(self) -> u8 {
        match self {
            Function::CurrentSceneDataDump => 0x10,
            Function::DataLoadCompleted => 0x23,
            Function::DataLoadError => 0x24,
            Function::WriteCompleted => 0x21,
            Function::WriteError => 0x22,
            Function::ModeData => 0x42,
        }
    }

    /// The function that a byte names, if it names one.
    pub fn try_parse(n: u8) -> (r: Option<Function>)
        ensures
            match r {
                Some(f) => f.byte() == n,
                None => forall|f: Function| #[trigger] f.byte() != n,
            },
    {
        match n {
            0x10 => Some(Function::CurrentSceneDataDump),
            0x23 => Some(Function::DataLoadCompleted),
            0x24 => Some(Function::DataLoadError),
            0x21 => Some(Function::WriteCompleted),
            0x22 => Some(Function::WriteError),
            0x42 => Some(Function::ModeData),
            _ => None,
        }
    }
}

/// Requests and replies that follow the data-dump-request command.
#[derive(Debug, Copy, Clone, PartialEq, Eq, Structural)]
pub enum RequestType {
    CurrentSceneDataDumpRequest,
    CurrentSceneDataDump,
    SceneWriteRequest,
    ModeRequest,
}

impl RequestType {
    /// The wire byte of a request.
    pub open spec fn byte(self) -> u8 {
        match self {
            RequestType::CurrentSceneDataDumpRequest => 0x10,
            RequestType::CurrentSceneDataDump => 0x40,
            RequestType::SceneWriteRequest => 0x11,
            RequestType::ModeRequest => 0x12,
        }
    }

    /// The wire byte.
    pub fn to_byte(self) -> (r: u8)
        ensures
            r == self.byte(),
    {
        match self {
            RequestType::CurrentSceneDataDumpRequest => 0x10,
            RequestType::CurrentSceneDataDump => 0x40,
            RequestType::SceneWriteRequest => 0x11,
            RequestType::ModeRequest => 0x12,
        }
    }
}

/// The direction asked for by a native-mode request.
#[derive(Debug, Copy, Clone, PartialEq, Eq, Structural)]
pub enum IoType {
    Out,
    In,
}

impl IoType {
    /// The wire byte of a direction.
    pub open spec fn byte(self) -> u8 {
        match self {
            IoType::Out => 0x00,
            IoType::In => 0x01,
        }
    }

    /// The wire byte.
    pub fn to_byte(self) -> (r: u8)
        ensures
            r == self.byte(),
    {
        match self {
            IoType::Out => 0x00,
            IoType::In => 0x01,
        }
    }
}

/// How the payload of a System-Exclusive message is laid out, chosen by bit 5
/// of its command byte.
#[derive(Debug, Copy, Clone, PartialEq, Eq, Structural)]
pub enum DataFormat {
    /// Exactly two payload bytes follow the command.
    TwoBytes,
    /// A length follows the command, then that many payload bytes.
    Variable,
}

impl DataFormat {
    /// The layout that a command byte selects.
    pub open spec fn of_command(command: u8) -> DataFormat {
        if command & 0x20 == 0 {
            DataFormat::TwoBytes
        } else {
            DataFormat::Variable
        }
    }

    /// The layout that a command byte selects.
    pub fn from_command(command: u8) -> (r: DataFormat)
        ensures
            r == DataFormat::of_command(command),
    {
        if command & 0x20 == 0 {
            DataFormat::TwoBytes
        } else {
            DataFormat::Variable
        }
    }
}

/// A Control-Change message.
#[derive(Debug, Copy, Clone, PartialEq, Eq, Structural)]
pub struct ControlChangeEvent {
    pub timestamp: u64,
    pub channel: u8,
    pub controller: u8,
    pub value: u8,
}

/// A System-Exclusive message of the controller's protocol.
#[derive(Debug, PartialEq, Eq)]
pub struct SystemExclusiveEvent {
    pub timestamp: u64,
    pub channel: u8,
    pub command: u8,
    pub payload: Vec<u8>,
}

impl SystemExclusiveEvent {
    /// This event is what the System-Exclusive message `m`, received at
    /// `timestamp`, carries.
    pub open spec fn frames(&self, m: Seq<u8>, timestamp: u64) -> bool {
        &&& self.timestamp == timestamp
        &&& self.channel == m[2] & 0x0F
        &&& self.command == m[7]
        &&& self.payload@ == m.subrange(payload_start(m), payload_start(m) + payload_len(m))
    }
}

/// What one incoming MIDI message turned out to be.
#[derive(Debug, PartialEq, Eq)]
pub enum MidiEvent {
    ControlChange(ControlChangeEvent),
    SystemExclusive(SystemExclusiveEvent),
    /// Malformed, truncated or of no interest.
    Ignored,
}

/// Manufacturer id that every System-Exclusive message of the protocol carries.
pub const MANUFACTURER_ID: u8 = 0x42;

/// A message of at least three bytes whose status nibble is Control-Change.
pub open spec fn is_control_change(m: Seq<u8>) -> bool {
    m.len() >= 3 && m[0] & 0xF0 == 0xB0
}

/// The 14-bit length carried by the extended form: `(msb << 7) | lsb`.
pub open spec fn extended_length(msb: u8, lsb: u8) -> u16 {
    ((msb as u16) << 7u16) | (lsb as u16)
}

/// Where the payload of a System-Exclusive message starts.
pub open spec fn payload_start(m: Seq<u8>) -> int {
    if DataFormat::of_command(m[7]) == DataFormat::TwoBytes {
        8
    } else if m[8] == 0x7F {
        12
    } else {
        9
    }
}

/// How many payload bytes a System-Exclusive message announces.
pub open spec fn payload_len(m: Seq<u8>) -> int {
    if DataFormat::of_command(m[7]) == DataFormat::TwoBytes {
        2
    } else if m[8] == 0x7F {
        extended_length(m[10], m[11]) as int
    } else {
        m[8] as int
    }
}

/// `m` is a well-framed System-Exclusive message of the protocol: start byte,
/// manufacturer id, a global-channel byte `0x4g`, four header bytes, the
/// command, the length in the form the command selects, the payload, and the
/// end byte right after the payload.
pub open spec fn is_system_exclusive(m: Seq<u8>) -> bool {
    &&& m.len() >= 8
    &&& m[0] == 0xF0
    &&& m[1] == MANUFACTURER_ID
    &&& m[2] & 0xF0 == 0x40
    &&& DataFormat::of_command(m[7]) == DataFormat::Variable ==> {
        &&& m.len() >= 9
        &&& m[8] == 0x7F ==> m.len() >= 12 && m[9] == 0x02
    }
    &&& payload_start(m) + payload_len(m) < m.len()
    &&& m[payload_start(m) + payload_len(m)] == 0xF7
}

fn read_extended_length(msb: u8, lsb: u8) -> (r: u16)
    ensures
        r == extended_length(msb, lsb),
{
    ((msb as u16) << 7u16) | (lsb as u16)
}

/// Frames a System-Exclusive message: `None` where `message` is not one of the
/// protocol's (its first byte aside, which the caller has checked).
fn parse_system_exclusive(message: &[u8], timestamp: u64) -> (r: Option<SystemExclusiveEvent>)
    requires
        message@.len() >= 1,
        message@[0] == 0xF0,
    ensures
        match r {
            Some(e) => is_system_exclusive(message@) && e.frames(message@, timestamp),
            None => !is_system_exclusive(message@),
        },
{
    let n = message.len();
    if n < 8 || message[1] != MANUFACTURER_ID || message[2] & 0xF0 != 0x40 {
        return None;
    }
    let channel = message[2] & 0x0F;
    let command = message[7];
    let start: usize;
    let len: usize;
    match DataFormat::from_command(command) {
        DataFormat::TwoBytes => {
            start = 8;
            len = 2;
        },
        DataFormat::Variable => {
            if n < 9 {
                return None;
            }
            let length_byte = message[8];
            if length_byte == 0x7F {
                if n < 12 || message[9] != 0x02 {
                    return None;
                }
                start = 12;
                len = read_extended_length(message[10], message[11]) as usize;
            } else {
                start = 9;
                len = length_byte as usize;
            }
        },
    }
    if start + len >= n || message[start + len] != 0xF7 {
        return None;
    }
    let payload = vstd::slice::slice_to_vec(&message[start..start + len]);
    Some(SystemExclusiveEvent { timestamp, channel, command, payload })
}

/// Sorts one raw MIDI message, received at `timestamp`, into a Control-Change
/// message, a System-Exclusive message of the protocol, or neither.
pub fn classify(message: &[u8], timestamp: u64) -> (r: MidiEvent)
    ensures
        is_control_change(message@) ==> r == MidiEvent::ControlChange(
            ControlChangeEvent {
                timestamp,
                channel: message@[0] & 0x0F,
                controller: message@[1],
                value: message@[2],
            },
        ),
        is_system_exclusive(message@) ==> (r matches MidiEvent::SystemExclusive(e)
            && e.frames(message@, timestamp)),
        !is_control_change(message@) && !is_system_exclusive(message@) ==> r is Ignored,
{
    if message.len() == 0 {
        return MidiEvent::Ignored;
    }
    let status = message[0];
    if status & 0xF0 == 0xB0 {
        if message.len() < 3 {
            return MidiEvent::Ignored;
        }
        assert(status & 0xF0 == 0xB0 ==> status != 0xF0) by (bit_vector);
        return MidiEvent::ControlChange(
            ControlChangeEvent {
                timestamp,
                channel: status & 0x0F,
                controller: message[1],
                value: message[2],
            },
        );
    }
    if status != 0xF0 {
        return MidiEvent::Ignored;
    }
    match parse_system_exclusive(message, timestamp) {
        Some(e) => MidiEvent::SystemExclusive(e),
        None => MidiEvent::Ignored,
    }
}

/// The seven bytes that open every message to the controller: start byte,
/// manufacturer id, `0x40 | global_channel`, and the fixed `00 01 13 00`.
pub open spec fn message_header(global_channel: u8) -> Seq<u8> {
    seq![0xF0, MANUFACTURER_ID, 0x40 | global_channel, 0x00, 0x01, 0x13, 0x00]
}

/// An eleven-byte request: header, command, function, one data byte, end byte.
pub open spec fn request_message(global_channel: u8, command: u8, function: u8, data: u8) -> Seq<
    u8,
> {
    message_header(global_channel) + seq![command, function, data, 0xF7]
}

/// The data-dump message that carries a packed scene buffer: header, the
/// data-dump command, the extended length `7F 02 03 05`, the function byte
/// `0x40`, the buffer and the end byte.
pub open spec fn data_dump_message(global_channel: u8, scene: Seq<u8>) -> Seq<u8> {
    message_header(global_channel) + seq![0x7F, 0x7F, 0x02, 0x03, 0x05, 0x40] + scene + seq![0xF7]
}

fn request(global_channel: u8, command: u8, function: u8, data: u8) -> (r: [u8; 11])
    ensures
        r@ == request_message(global_channel, command, function, data),
{
    let message: [u8; 11] = [
        0xF0,
        MANUFACTURER_ID,
        0x40 | global_channel,
        0x00,
        0x01,
        0x13,
        0x00,
        command,
        function,
        data,
        0xF7,
    ];
    assert(message@ =~= request_message(global_channel, command, function, data));
    message
}

/// Asks the controller for its current scene.
pub fn current_scene_data_dump_request_message(global_channel: u8) -> (r: [u8; 11])
    ensures
        r@ == request_message(global_channel, 0x1F, 0x10, 0x00),
{
    request(
        global_channel,
        Command::DataDumpRequest.to_byte(),
        RequestType::CurrentSceneDataDumpRequest.to_byte(),
        0x00,
    )
}

/// Asks the controller to store the current scene.
pub fn scene_write_request_message(global_channel: u8) -> (r: [u8; 11])
    ensures
        r@ == request_message(global_channel, 0x1F, 0x11, 0x00),
{
    request(
        global_channel,
        Command::DataDumpRequest.to_byte(),
        RequestType::SceneWriteRequest.to_byte(),
        0x00,
    )
}

/// Asks the controller to switch native mode in or out.
pub fn native_mode_io_request_message(global_channel: u8, io_type: IoType) -> (r: [u8; 11])
    ensures
        r@ == request_message(global_channel, 0x00, 0x00, io_type.byte()),
{
    request(global_channel, Command::NativeModeInOutRequest.to_byte(), 0x00, io_type.to_byte())
}

/// Asks the controller for its mode.
pub fn mode_request_message(global_channel: u8) -> (r: [u8; 11])
    ensures
        r@ == request_message(global_channel, 0x1F, 0x12, 0x00),
{
    request(
        global_channel,
        Command::DataDumpRequest.to_byte(),
        RequestType::ModeRequest.to_byte(),
        0x00,
    )
}

/// Frames a packed scene buffer as a data-dump message.
pub fn current_scene_data_dump_message(global_channel: u8, scene_data: &[u8; SCENE_DUMP_LEN]) -> (r: Vec<u8>)
    ensures
        r@ == data_dump_message(global_channel, scene_data@),
{
    let mut message: Vec<u8> = Vec::new();
    message.push(0xF0);
    message.push(MANUFACTURER_ID);
    message.push(0x40 | global_channel);
    message.push(0x00);
    message.push(0x01);
    message.push(0x13);
    message.push(0x00);
    message.push(Command::DataDump.to_byte());
    message.push(0x7F);
    message.push(0x02);
    message.push(0x03);
    message.push(0x05);
    message.push(RequestType::CurrentSceneDataDump.to_byte());
    let ghost head = message@;
    assert(head =~= message_header(global_channel) + seq![0x7F, 0x7F, 0x02, 0x03, 0x05, 0x40]);
    for i in 0..SCENE_DUMP_LEN
        invariant
            message@ == head + scene_data@.subrange(0, i as int),
    {
        message.push(scene_data[i]);
        assert(message@ =~= head + scene_data@.subrange(0, i + 1));
    }
    message.push(0xF7);
    assert(scene_data@.subrange(0, SCENE_DUMP_LEN as int) =~= scene_data@);
    assert(message@ =~= data_dump_message(global_channel, scene_data@));
    message
}

} // verus!
