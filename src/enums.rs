//! Closed enumerations of the scene settings, with their wire bytes.

use vstd::prelude::*;

verus! {

/// The eleven buttons of the transport section.
#[derive(Debug, Copy, Clone, PartialEq, Eq, Structural)]
pub enum TransportButton {
    TrackRewind,
    TrackFastforward,
    Cycle,
    MarkerSet,
    MarkerRewind,
    MarkerFastforward,
    Rewind,
    Fastforward,
    Stop,
    Play,
    Record,
}

/// How a button reports itself on the wire.
#[derive(Debug, Copy, Clone, PartialEq, Eq, Structural)]
pub enum ButtonAssignType {
    NoAssign,
    ControlChange,
    Note,
}

impl ButtonAssignType {
    /// The variant that a wire byte stands for; unknown bytes mean `NoAssign`.
    pub open spec fn from_byte(n: u8) -> ButtonAssignType {
        if n == 1 {
            ButtonAssignType::ControlChange
        } else if n == 2 {
            ButtonAssignType::Note
        } else {
            ButtonAssignType::NoAssign
        }
    }

    /// The wire byte of a variant.
    pub open spec fn byte(self) -> u8 {
        match self {
            ButtonAssignType::NoAssign => 0,
            ButtonAssignType::ControlChange => 1,
            ButtonAssignType::Note => 2,
        }
    }
}

impl Default for ButtonAssignType {
    fn default() -> (r: ButtonAssignType)
        ensures
            r == ButtonAssignType::NoAssign,
    {
        ButtonAssignType::NoAssign
    }
}

impl From<u8> for ButtonAssignType {
    fn from(n: u8) -> (r: ButtonAssignType)
        ensures
            r == ButtonAssignType::from_byte(n),
    {
        match n {
            1 => ButtonAssignType::ControlChange,
            2 => ButtonAssignType::Note,
            _ => ButtonAssignType::NoAssign,
        }
    }
}

impl vstd::std_specs::convert::FromSpecImpl<u8> for ButtonAssignType {
    open spec fn obeys_from_spec() -> bool {
        true
    }

    open spec fn from_spec(n: u8) -> ButtonAssignType {
        ButtonAssignType::from_byte(n)
    }
}

impl From<ButtonAssignType> for u8 {
    fn from(t: ButtonAssignType) -> (r: u8)
        ensures
            r == t.byte(),
    {
        match t {
            ButtonAssignType::NoAssign => 0,
            ButtonAssignType::ControlChange => 1,
            ButtonAssignType::Note => 2,
        }
    }
}

impl vstd::std_specs::convert::FromSpecImpl<ButtonAssignType> for u8 {
    open spec fn obeys_from_spec() -> bool {
        true
    }

    open spec fn from_spec(t: ButtonAssignType) -> u8 {
        t.byte()
    }
}

/// How a button switches between its off and on values.
#[derive(Debug, Copy, Clone, PartialEq, Eq, Structural)]
pub enum ButtonBehavior {
    Momentary,
    Toggle,
}

impl ButtonBehavior {
    /// The variant that a wire byte stands for; unknown bytes mean `Momentary`.
    pub open spec fn from_byte(n: u8) -> ButtonBehavior {
        if n == 1 {
            ButtonBehavior::Toggle
        } else {
            ButtonBehavior::Momentary
        }
    }

    /// The wire byte of a variant.
    pub open spec fn byte(self) -> u8 {
        match self {
            ButtonBehavior::Momentary => 0,
            ButtonBehavior::Toggle => 1,
        }
    }
}

impl Default for ButtonBehavior {
    fn default() -> (r: ButtonBehavior)
        ensures
            r == ButtonBehavior::Momentary,
    {
        ButtonBehavior::Momentary
    }
}

impl From<u8> for ButtonBehavior {
    fn from(n: u8) -> (r: ButtonBehavior)
        ensures
            r == ButtonBehavior::from_byte(n),
    {
        match n {
            1 => ButtonBehavior::Toggle,
            _ => ButtonBehavior::Momentary,
        }
    }
}

impl vstd::std_specs::convert::FromSpecImpl<u8> for ButtonBehavior {
    open spec fn obeys_from_spec() -> bool {
        true
    }

    open spec fn from_spec(n: u8) -> ButtonBehavior {
        ButtonBehavior::from_byte(n)
    }
}

impl From<ButtonBehavior> for u8 {
    fn from(b: ButtonBehavior) -> (r: u8)
        ensures
            r == b.byte(),
    {
        match b {
            ButtonBehavior::Momentary => 0,
            ButtonBehavior::Toggle => 1,
        }
    }
}

impl vstd::std_specs::convert::FromSpecImpl<ButtonBehavior> for u8 {
    open spec fn obeys_from_spec() -> bool {
        true
    }

    open spec fn from_spec(b: ButtonBehavior) -> u8 {
        b.byte()
    }
}

/// A MIDI channel setting: one specific channel, or "follow the global channel".
/// On the wire a specific channel is its number and `Global` is 16.
#[derive(Debug, Copy, Clone, PartialEq, Eq, Structural)]
pub enum MidiChannel {
    Custom(u8),
    Global,
}

/// The wire byte that stands for `MidiChannel::Global`.
pub const GLOBAL_CHANNEL_BYTE: u8 = 16;

impl MidiChannel {
    /// The setting that a wire byte stands for: 0..15 is that channel, anything
    /// else is `Global`.
    pub open spec fn from_byte(n: u8) -> MidiChannel {
        if n < 16 {
            MidiChannel::Custom(n)
        } else {
            MidiChannel::Global
        }
    }

    /// The wire byte of a setting.
    pub open spec fn byte(self) -> u8 {
        match self {
            MidiChannel::Custom(n) => n,
            MidiChannel::Global => GLOBAL_CHANNEL_BYTE,
        }
    }

    /// A specific channel is one of 0..15.
    pub open spec fn is_valid(self) -> bool {
        match self {
            MidiChannel::Custom(n) => n < 16,
            MidiChannel::Global => true,
        }
    }
}

impl Default for MidiChannel {
    fn default() -> (r: MidiChannel)
        ensures
            r == MidiChannel::Global,
    {
        MidiChannel::Global
    }
}

impl From<u8> for MidiChannel {
    fn from(n: u8) -> (r: MidiChannel)
        ensures
            r == MidiChannel::from_byte(n),
    {
        if n < 16 {
            MidiChannel::Custom(n)
        } else {
            MidiChannel::Global
        }
    }
}

impl vstd::std_specs::convert::FromSpecImpl<u8> for MidiChannel {
    open spec fn obeys_from_spec() -> bool {
        true
    }

    open spec fn from_spec(n: u8) -> MidiChannel {
        MidiChannel::from_byte(n)
    }
}

impl From<MidiChannel> for u8 {
    fn from(c: MidiChannel) -> (r: u8)
        ensures
            r == c.byte(),
    {
        match c {
            MidiChannel::Custom(n) => n,
            MidiChannel::Global => GLOBAL_CHANNEL_BYTE,
        }
    }
}

impl vstd::std_specs::convert::FromSpecImpl<MidiChannel> for u8 {
    open spec fn obeys_from_spec() -> bool {
        true
    }

    open spec fn from_spec(c: MidiChannel) -> u8 {
        c.byte()
    }
}

/// Whether a slider or knob sends anything.
#[derive(Debug, Copy, Clone, PartialEq, Eq, Structural)]
pub enum SliderAssignType {
    Disable,
    Enable,
}

impl SliderAssignType {
    /// The variant that a wire byte stands for; unknown bytes mean `Disable`.
    pub open spec fn from_byte(n: u8) -> SliderAssignType {
        if n == 1 {
            SliderAssignType::Enable
        } else {
            SliderAssignType::Disable
        }
    }

    /// The wire byte of a variant.
    pub open spec fn byte(self) -> u8 {
        match self {
            SliderAssignType::Disable => 0,
            SliderAssignType::Enable => 1,
        }
    }
}

impl Default for SliderAssignType {
    fn default() -> (r: SliderAssignType)
        ensures
            r == SliderAssignType::Enable,
    {
        SliderAssignType::Enable
    }
}

impl From<u8> for SliderAssignType {
    fn from(n: u8) -> (r: SliderAssignType)
        ensures
            r == SliderAssignType::from_byte(n),
    {
        match n {
            1 => SliderAssignType::Enable,
            _ => SliderAssignType::Disable,
        }
    }
}

impl vstd::std_specs::convert::FromSpecImpl<u8> for SliderAssignType {
    open spec fn obeys_from_spec() -> bool {
        true
    }

    open spec fn from_spec(n: u8) -> SliderAssignType {
        SliderAssignType::from_byte(n)
    }
}

impl From<SliderAssignType> for u8 {
    fn from(t: SliderAssignType) -> (r: u8)
        ensures
            r == t.byte(),
    {
        match t {
            SliderAssignType::Disable => 0,
            SliderAssignType::Enable => 1,
        }
    }
}

impl vstd::std_specs::convert::FromSpecImpl<SliderAssignType> for u8 {
    open spec fn obeys_from_spec() -> bool {
        true
    }

    open spec fn from_spec(t: SliderAssignType) -> u8 {
        t.byte()
    }
}

/// The host application that the controller's transport section talks to.
#[derive(Debug, Copy, Clone, PartialEq, Eq, Structural)]
pub enum ControlMode {
    CcMode,
    Cubase,
    Dp,
    Live,
    ProTools,
    Sonar,
}

impl ControlMode {
    /// The variant that a wire byte stands for; unknown bytes mean `CcMode`.
    pub open spec fn from_byte(n: u8) -> ControlMode {
        if n == 1 {
            ControlMode::Cubase
        } else if n == 2 {
            ControlMode::Dp
        } else if n == 3 {
            ControlMode::Live
        } else if n == 4 {
            ControlMode::ProTools
        } else if n == 5 {
            ControlMode::Sonar
        } else {
            ControlMode::CcMode
        }
    }

    /// The wire byte of a variant.
    pub open spec fn byte(self) -> u8 {
        match self {
            ControlMode::CcMode => 0,
            ControlMode::Cubase => 1,
            ControlMode::Dp => 2,
            ControlMode::Live => 3,
            ControlMode::ProTools => 4,
            ControlMode::Sonar => 5,
        }
    }
}

impl Default for ControlMode {
    fn default() -> (r: ControlMode)
        ensures
            r == ControlMode::CcMode,
    {
        ControlMode::CcMode
    }
}

impl From<u8> for ControlMode {
    fn from(n: u8) -> (r: ControlMode)
        ensures
            r == ControlMode::from_byte(n),
    {
        match n {
            1 => ControlMode::Cubase,
            2 => ControlMode::Dp,
            3 => ControlMode::Live,
            4 => ControlMode::ProTools,
            5 => ControlMode::Sonar,
            _ => ControlMode::CcMode,
        }
    }
}

impl vstd::std_specs::convert::FromSpecImpl<u8> for ControlMode {
    open spec fn obeys_from_spec() -> bool {
        true
    }

    open spec fn from_spec(n: u8) -> ControlMode {
        ControlMode::from_byte(n)
    }
}

impl From<ControlMode> for u8 {
    fn from(m: ControlMode) -> (r: u8)
        ensures
            r == m.byte(),
    {
        match m {
            ControlMode::CcMode => 0,
            ControlMode::Cubase => 1,
            ControlMode::Dp => 2,
            ControlMode::Live => 3,
            ControlMode::ProTools => 4,
            ControlMode::Sonar => 5,
        }
    }
}

impl vstd::std_specs::convert::FromSpecImpl<ControlMode> for u8 {
    open spec fn obeys_from_spec() -> bool {
        true
    }

    open spec fn from_spec(m: ControlMode) -> u8 {
        m.byte()
    }
}

/// Who drives the button LEDs: the controller itself or the host.
#[derive(Debug, Copy, Clone, PartialEq, Eq, Structural)]
pub enum LedMode {
    Internal,
    External,
}

impl LedMode {
    /// The variant that a wire byte stands for; unknown bytes mean `Internal`.
    pub open spec fn from_byte(n: u8) -> LedMode {
        if n == 1 {
            LedMode::External
        } else {
            LedMode::Internal
        }
    }

    /// The wire byte of a variant.
    pub open spec fn byte(self) -> u8 {
        match self {
            LedMode::Internal => 0,
            LedMode::External => 1,
        }
    }
}

impl Default for LedMode {
    fn default() -> (r: LedMode)
        ensures
            r == LedMode::Internal,
    {
        LedMode::Internal
    }
}

impl From<u8> for LedMode {
    fn from(n: u8) -> (r: LedMode)
        ensures
            r == LedMode::from_byte(n),
    {
        match n {
            1 => LedMode::External,
            _ => LedMode::Internal,
        }
    }
}

impl vstd::std_specs::convert::FromSpecImpl<u8> for LedMode {
    open spec fn obeys_from_spec() -> bool {
        true
    }

    open spec fn from_spec(n: u8) -> LedMode {
        LedMode::from_byte(n)
    }
}

impl From<LedMode> for u8 {
    fn from(m: LedMode) -> (r: u8)
        ensures
            r == m.byte(),
    {
        match m {
            LedMode::Internal => 0,
            LedMode::External => 1,
        }
    }
}

impl vstd::std_specs::convert::FromSpecImpl<LedMode> for u8 {
    open spec fn obeys_from_spec() -> bool {
        true
    }

    open spec fn from_spec(m: LedMode) -> u8 {
        m.byte()
    }
}

} // verus!
