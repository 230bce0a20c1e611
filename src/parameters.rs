//! The scene: its settings, how they are laid out in the logical byte
//! space of a data dump, and the codec between the two.

use vstd::prelude::*;

use crate::enums::{
    ButtonAssignType, ButtonBehavior, ControlMode, LedMode, MidiChannel, SliderAssignType,
    TransportButton,
};
use crate::error::Error;
use crate::layout::{
    data_dump_index, lemma_data_dump_index, lemma_data_dump_index_distinct,
    lemma_data_dump_index_increasing, lemma_data_dump_index_inverse, lemma_slot_positions,
    lemma_slot_concat, lemma_slot_kept, lemma_clear_kept, lemma_same_outside_trans,
    lemma_write_logical, same_outside, scene_byte, slot_holds, slot_is_clear,
};
use crate::scene_proofs::{
    holds_prefix, lemma_byte_step, lemma_extend_prefix, lemma_group_bytes, lemma_prefix_clear,
    lemma_transport_step,
};

verus! {

/// Settings of one button.
#[derive(Debug, Copy, Clone, PartialEq, Eq, Structural)]
pub struct ButtonParameters {
    pub assign_type: ButtonAssignType,
    pub behavior: ButtonBehavior,
    pub note_number: u8,
    pub off_value: u8,
    pub on_value: u8,
}

/// Settings of one slider or knob.
#[derive(Debug, Copy, Clone, PartialEq, Eq, Structural)]
pub struct SliderParameters {
    pub assign_type: SliderAssignType,
    pub note_number: u8,
    pub min_value: u8,
    pub max_value: u8,
}

/// Settings of one channel strip: a slider, a knob and three buttons.
#[derive(Debug, Copy, Clone, PartialEq, Eq, Structural)]
pub struct ControllerGroupParameters {
    pub channel: MidiChannel,
    pub slider: SliderParameters,
    pub knob: SliderParameters,
    pub solo_button: ButtonParameters,
    pub mute_button: ButtonParameters,
    pub record_button: ButtonParameters,
}

/// A complete scene: everything that one data dump carries.
#[derive(Debug, Copy, Clone, PartialEq, Eq)]
pub struct Parameters {
    pub global_channel: u8,
    pub control_mode: ControlMode,
    pub led_mode: LedMode,
    pub groups: [ControllerGroupParameters; 8],
    pub transport_button_channel: MidiChannel,
    pub track_rewind: ButtonParameters,
    pub track_fastforward: ButtonParameters,
    pub cycle: ButtonParameters,
    pub set: ButtonParameters,
    pub marker_rewind: ButtonParameters,
    pub marker_fastforward: ButtonParameters,
    pub rewind: ButtonParameters,
    pub fastforward: ButtonParameters,
    pub stop: ButtonParameters,
    pub play: ButtonParameters,
    pub record: ButtonParameters,
    pub custom_daw_assign: [u8; 5],
}

/// Number of channel strips.
pub const GROUP_COUNT: usize = 8;

/// Logical bytes taken by one channel strip.
pub const GROUP_WIDTH: usize = 31;

/// Logical bytes taken by one slider, knob or button.
pub const CONTROL_WIDTH: usize = 6;

/// Logical index of the first channel strip.
pub const FIRST_GROUP: usize = 3;

/// Logical index of the transport section's channel.
pub const TRANSPORT_CHANNEL: usize = 251;

/// Logical index of the first transport button.
pub const FIRST_TRANSPORT_BUTTON: usize = 252;

/// Logical index of the custom DAW assignment bytes.
pub const CUSTOM_DAW_ASSIGN: usize = 318;

/// Number of custom DAW assignment bytes.
pub const CUSTOM_DAW_ASSIGN_LEN: usize = 5;

/// Where the packed scene data starts in a data-dump message.
pub const SCENE_DATA_START: usize = 13;

/// Where the packed scene data that is read ends in a data-dump message.
pub const SCENE_DATA_END: usize = 401;

/// Length of a packed scene buffer.
pub const SCENE_DUMP_LEN: usize = 389;

/// Logical bytes that a packed scene buffer holds.
pub const LOGICAL_LEN: usize = 340;

/// The packed scene data of a data-dump message.
pub open spec fn scene_data(dump: Seq<u8>) -> Seq<u8> {
    dump.subrange(SCENE_DATA_START as int, SCENE_DATA_END as int)
}

/// The slider settings read from the logical bytes at `k`: assign type,
/// one reserved byte, note number, minimum, maximum.
pub open spec fn slider_at(raw: Seq<u8>, k: int) -> SliderParameters {
    SliderParameters {
        assign_type: SliderAssignType::from_byte(scene_byte(raw, k)),
        note_number: scene_byte(raw, k + 2),
        min_value: scene_byte(raw, k + 3),
        max_value: scene_byte(raw, k + 4),
    }
}

/// The button settings read from the logical bytes at `k`: assign type,
/// behavior, note number, off value, on value.
pub open spec fn button_at(raw: Seq<u8>, k: int) -> ButtonParameters {
    ButtonParameters {
        assign_type: ButtonAssignType::from_byte(scene_byte(raw, k)),
        behavior: ButtonBehavior::from_byte(scene_byte(raw, k + 1)),
        note_number: scene_byte(raw, k + 2),
        off_value: scene_byte(raw, k + 3),
        on_value: scene_byte(raw, k + 4),
    }
}

/// The channel strip read from the logical bytes at `k`: channel, slider,
/// knob, then the solo, mute and record buttons.
pub open spec fn group_at(raw: Seq<u8>, k: int) -> ControllerGroupParameters {
    ControllerGroupParameters {
        channel: MidiChannel::from_byte(scene_byte(raw, k)),
        slider: slider_at(raw, k + 1),
        knob: slider_at(raw, k + 7),
        solo_button: button_at(raw, k + 13),
        mute_button: button_at(raw, k + 19),
        record_button: button_at(raw, k + 25),
    }
}

/// Logical index of the settings of a transport button.
pub open spec fn transport_slot(b: TransportButton) -> int {
    FIRST_TRANSPORT_BUTTON as int + CONTROL_WIDTH as int * match b {
        TransportButton::TrackRewind => 0int,
        TransportButton::TrackFastforward => 1,
        TransportButton::Cycle => 2,
        TransportButton::MarkerSet => 3,
        TransportButton::MarkerRewind => 4,
        TransportButton::MarkerFastforward => 5,
        TransportButton::Rewind => 6,
        TransportButton::Fastforward => 7,
        TransportButton::Stop => 8,
        TransportButton::Play => 9,
        TransportButton::Record => 10,
    }
}

impl Parameters {
    /// The settings of a transport button.
    pub open spec fn transport(self, b: TransportButton) -> ButtonParameters {
        match b {
            TransportButton::TrackRewind => self.track_rewind,
            TransportButton::TrackFastforward => self.track_fastforward,
            TransportButton::Cycle => self.cycle,
            TransportButton::MarkerSet => self.set,
            TransportButton::MarkerRewind => self.marker_rewind,
            TransportButton::MarkerFastforward => self.marker_fastforward,
            TransportButton::Rewind => self.rewind,
            TransportButton::Fastforward => self.fastforward,
            TransportButton::Stop => self.stop,
            TransportButton::Play => self.play,
            TransportButton::Record => self.record,
        }
    }

    /// Every field is what the packed scene buffer `raw` says.
    pub open spec fn decoded_from(self, raw: Seq<u8>) -> bool {
        &&& self.global_channel == scene_byte(raw, 0)
        &&& self.control_mode == ControlMode::from_byte(scene_byte(raw, 1))
        &&& self.led_mode == LedMode::from_byte(scene_byte(raw, 2))
        &&& forall|i: int|
            0 <= i < GROUP_COUNT ==> #[trigger] self.groups@[i] == group_at(
                raw,
                FIRST_GROUP + GROUP_WIDTH * i,
            )
        &&& self.transport_button_channel == MidiChannel::from_byte(
            scene_byte(raw, TRANSPORT_CHANNEL as int),
        )
        &&& forall|b: TransportButton| #[trigger]
            self.transport(b) == button_at(raw, transport_slot(b))
        &&& forall|i: int|
            0 <= i < CUSTOM_DAW_ASSIGN_LEN ==> #[trigger] self.custom_daw_assign@[i]
                == scene_byte(raw, CUSTOM_DAW_ASSIGN + i)
    }
}

/// The transport button whose settings stand at position `i` of the
/// transport section.
pub open spec fn transport_button_at(i: int) -> TransportButton {
    if i == 0 {
        TransportButton::TrackRewind
    } else if i == 1 {
        TransportButton::TrackFastforward
    } else if i == 2 {
        TransportButton::Cycle
    } else if i == 3 {
        TransportButton::MarkerSet
    } else if i == 4 {
        TransportButton::MarkerRewind
    } else if i == 5 {
        TransportButton::MarkerFastforward
    } else if i == 6 {
        TransportButton::Rewind
    } else if i == 7 {
        TransportButton::Fastforward
    } else if i == 8 {
        TransportButton::Stop
    } else if i == 9 {
        TransportButton::Play
    } else {
        TransportButton::Record
    }
}

impl SliderParameters {
    /// The six logical bytes of a slider: assign type, reserved, note
    /// number, minimum, maximum, reserved.
    pub open spec fn bytes(self) -> Seq<u8> {
        seq![self.assign_type.byte(), 0, self.note_number, self.min_value, self.max_value, 0]
    }
}

impl ButtonParameters {
    /// The six logical bytes of a button: assign type, behavior, note
    /// number, off value, on value, reserved.
    pub open spec fn bytes(self) -> Seq<u8> {
        seq![
            self.assign_type.byte(),
            self.behavior.byte(),
            self.note_number,
            self.off_value,
            self.on_value,
            0,
        ]
    }
}

impl ControllerGroupParameters {
    /// The 31 logical bytes of a channel strip.
    pub open spec fn bytes(self) -> Seq<u8> {
        seq![self.channel.byte()] + self.slider.bytes() + self.knob.bytes()
            + self.solo_button.bytes() + self.mute_button.bytes() + self.record_button.bytes()
    }
}

impl Parameters {
    /// Logical byte `k` of the scene; reserved and unused bytes are 0.
    pub open spec fn logical_byte(self, k: int) -> u8 {
        if k == 0 {
            self.global_channel
        } else if k == 1 {
            self.control_mode.byte()
        } else if k == 2 {
            self.led_mode.byte()
        } else if FIRST_GROUP <= k < TRANSPORT_CHANNEL {
            self.groups@[(k - FIRST_GROUP) / GROUP_WIDTH as int].bytes()[(k - FIRST_GROUP)
                % GROUP_WIDTH as int]
        } else if k == TRANSPORT_CHANNEL {
            self.transport_button_channel.byte()
        } else if FIRST_TRANSPORT_BUTTON <= k < CUSTOM_DAW_ASSIGN {
            self.transport(
                transport_button_at((k - FIRST_TRANSPORT_BUTTON) / CONTROL_WIDTH as int),
            ).bytes()[(k - FIRST_TRANSPORT_BUTTON) % CONTROL_WIDTH as int]
        } else if CUSTOM_DAW_ASSIGN <= k < CUSTOM_DAW_ASSIGN + CUSTOM_DAW_ASSIGN_LEN {
            self.custom_daw_assign@[k - CUSTOM_DAW_ASSIGN]
        } else {
            0
        }
    }

    /// The packed scene buffer: the reserved first byte of every group of
    /// eight is 0, the other seven hold the next seven logical bytes.
    pub open spec fn scene_dump(self) -> Seq<u8> {
        Seq::new(
            SCENE_DUMP_LEN as nat,
            |j: int|
                if j % 8 == 0 {
                    0
                } else {
                    self.logical_byte((j / 8) * 7 + j % 8 - 1)
                },
        )
    }
}

impl Parameters {
    /// Every channel field names a channel that exists: the global channel is
    /// one of 0..15, and each specific channel setting too.
    pub open spec fn is_valid(self) -> bool {
        &&& self.global_channel < 16
        &&& forall|i: int| 0 <= i < GROUP_COUNT ==> (#[trigger] self.groups@[i]).channel.is_valid()
        &&& self.transport_button_channel.is_valid()
    }
}

/// A button with every setting at its default.
pub open spec fn default_button() -> ButtonParameters {
    ButtonParameters {
        assign_type: ButtonAssignType::NoAssign,
        behavior: ButtonBehavior::Momentary,
        note_number: 0,
        off_value: 0,
        on_value: 0,
    }
}

impl ControllerGroupParameters {
    /// A channel strip with every setting at its default.
    pub open spec fn default_spec() -> ControllerGroupParameters {
        ControllerGroupParameters {
            channel: MidiChannel::Global,
            slider: SliderParameters {
                assign_type: SliderAssignType::Enable,
                note_number: 0,
                min_value: 0,
                max_value: 0,
            },
            knob: SliderParameters {
                assign_type: SliderAssignType::Enable,
                note_number: 0,
                min_value: 0,
                max_value: 0,
            },
            solo_button: default_button(),
            mute_button: default_button(),
            record_button: default_button(),
        }
    }
}

/// The packed position of logical byte `index`.
pub fn index_to_data_dump_index(index: usize) -> (r: usize)
    requires
        data_dump_index(index as int) <= usize::MAX,
    ensures
        r == data_dump_index(index as int),
{
    ((index / 7) * 8) + ((index % 7) + 1)
}

/// Logical bytes below `LOGICAL_LEN - 1` lie in the scene data of a dump.
pub(crate) proof fn lemma_scene_data_bounds(k: int)
    requires
        0 <= k < LOGICAL_LEN - 1,
    ensures
        0 < data_dump_index(k) < SCENE_DATA_END - SCENE_DATA_START,
{
}

fn parse_slider_data(raw_scene_data: &[u8], index: usize) -> (r: SliderParameters)
    requires
        raw_scene_data@.len() == SCENE_DATA_END - SCENE_DATA_START,
        index + 4 < LOGICAL_LEN - 1,
    ensures
        r == slider_at(raw_scene_data@, index as int),
{
    proof {
        lemma_scene_data_bounds(index as int);
        lemma_scene_data_bounds(index + 2);
        lemma_scene_data_bounds(index + 3);
        lemma_scene_data_bounds(index + 4);
    }
    SliderParameters {
        assign_type: SliderAssignType::from(raw_scene_data[index_to_data_dump_index(index)]),
        note_number: raw_scene_data[index_to_data_dump_index(index + 2)],
        min_value: raw_scene_data[index_to_data_dump_index(index + 3)],
        max_value: raw_scene_data[index_to_data_dump_index(index + 4)],
    }
}

fn parse_button_data(raw_scene_data: &[u8], index: usize) -> (r: ButtonParameters)
    requires
        raw_scene_data@.len() == SCENE_DATA_END - SCENE_DATA_START,
        index + 4 < LOGICAL_LEN - 1,
    ensures
        r == button_at(raw_scene_data@, index as int),
{
    proof {
        lemma_scene_data_bounds(index as int);
        lemma_scene_data_bounds(index + 1);
        lemma_scene_data_bounds(index + 2);
        lemma_scene_data_bounds(index + 3);
        lemma_scene_data_bounds(index + 4);
    }
    ButtonParameters {
        assign_type: ButtonAssignType::from(raw_scene_data[index_to_data_dump_index(index)]),
        behavior: ButtonBehavior::from(raw_scene_data[index_to_data_dump_index(index + 1)]),
        note_number: raw_scene_data[index_to_data_dump_index(index + 2)],
        off_value: raw_scene_data[index_to_data_dump_index(index + 3)],
        on_value: raw_scene_data[index_to_data_dump_index(index + 4)],
    }
}

fn parse_group_data(raw_scene_data: &[u8], index: usize) -> (r: ControllerGroupParameters)
    requires
        raw_scene_data@.len() == SCENE_DATA_END - SCENE_DATA_START,
        index + GROUP_WIDTH <= LOGICAL_LEN - 1,
    ensures
        r == group_at(raw_scene_data@, index as int),
{
    proof {
        lemma_scene_data_bounds(index as int);
    }
    ControllerGroupParameters {
        channel: MidiChannel::from(raw_scene_data[index_to_data_dump_index(index)]),
        slider: parse_slider_data(raw_scene_data, index + 1),
        knob: parse_slider_data(raw_scene_data, index + 7),
        solo_button: parse_button_data(raw_scene_data, index + 13),
        mute_button: parse_button_data(raw_scene_data, index + 19),
        record_button: parse_button_data(raw_scene_data, index + 25),
    }
}

fn add_slider_data_to_dump(
    dump: &mut [u8; SCENE_DUMP_LEN],
    slider_params: &SliderParameters,
    index: usize,
)
    requires
        index + CONTROL_WIDTH <= LOGICAL_LEN,
        slot_is_clear(old(dump)@, index as int, CONTROL_WIDTH as int),
    ensures
        slot_holds(final(dump)@, index as int, slider_params.bytes()),
        same_outside(old(dump)@, final(dump)@, index as int, CONTROL_WIDTH as int),
{
    let ghost k = index as int;
    proof {
        lemma_slot_positions(k, 6);
        lemma_data_dump_index_increasing(k, k + 2);
        lemma_data_dump_index_increasing(k + 2, k + 3);
        lemma_data_dump_index_increasing(k + 3, k + 4);
        lemma_data_dump_index_increasing(k + 4, k + 5);
        lemma_data_dump_index_increasing(k, k + 1);
        lemma_data_dump_index_increasing(k + 1, k + 2);
        lemma_data_dump_index(LOGICAL_LEN - 1);
    }
    dump[index_to_data_dump_index(index)] = slider_params.assign_type.into();
    dump[index_to_data_dump_index(index + 2)] = slider_params.note_number;
    dump[index_to_data_dump_index(index + 3)] = slider_params.min_value;
    dump[index_to_data_dump_index(index + 4)] = slider_params.max_value;
    proof {
        assert(old(dump)@[data_dump_index(index + 1)] == 0);
        assert(old(dump)@[data_dump_index(index + 5)] == 0);
    }
}

fn add_button_data_to_dump(
    dump: &mut [u8; SCENE_DUMP_LEN],
    button_params: &ButtonParameters,
    index: usize,
)
    requires
        index + CONTROL_WIDTH <= LOGICAL_LEN,
        slot_is_clear(old(dump)@, index as int, CONTROL_WIDTH as int),
    ensures
        slot_holds(final(dump)@, index as int, button_params.bytes()),
        same_outside(old(dump)@, final(dump)@, index as int, CONTROL_WIDTH as int),
{
    let ghost k = index as int;
    proof {
        lemma_slot_positions(k, 6);
        lemma_data_dump_index_increasing(k, k + 1);
        lemma_data_dump_index_increasing(k + 1, k + 2);
        lemma_data_dump_index_increasing(k + 2, k + 3);
        lemma_data_dump_index_increasing(k + 3, k + 4);
        lemma_data_dump_index_increasing(k + 4, k + 5);
        lemma_data_dump_index(LOGICAL_LEN - 1);
    }
    dump[index_to_data_dump_index(index)] = button_params.assign_type.into();
    dump[index_to_data_dump_index(index + 1)] = button_params.behavior.into();
    dump[index_to_data_dump_index(index + 2)] = button_params.note_number;
    dump[index_to_data_dump_index(index + 3)] = button_params.off_value;
    dump[index_to_data_dump_index(index + 4)] = button_params.on_value;
    proof {
        assert(old(dump)@[data_dump_index(index + 5)] == 0);
    }
}

fn add_group_data_to_dump(
    dump: &mut [u8; SCENE_DUMP_LEN],
    group_params: &ControllerGroupParameters,
    index: usize,
)
    requires
        index + GROUP_WIDTH <= LOGICAL_LEN,
        slot_is_clear(old(dump)@, index as int, GROUP_WIDTH as int),
    ensures
        slot_holds(final(dump)@, index as int, group_params.bytes()),
        same_outside(old(dump)@, final(dump)@, index as int, GROUP_WIDTH as int),
{
    let ghost k = index as int;
    let ghost d0 = dump@;
    proof {
        lemma_data_dump_index_distinct();
        lemma_data_dump_index(k);
    }
    dump[index_to_data_dump_index(index)] = group_params.channel.into();
    let ghost d1 = dump@;
    proof {
        lemma_write_logical(d0, k, group_params.channel.byte());
        lemma_clear_kept(d0, d1, k + 1, 30, k, 1);
    }
    add_slider_data_to_dump(dump, &group_params.slider, index + 1);
    let ghost d2 = dump@;
    proof {
        lemma_slot_kept(d1, d2, k, seq![group_params.channel.byte()], k + 1, 6);
        lemma_clear_kept(d1, d2, k + 7, 24, k + 1, 6);
        lemma_same_outside_trans(d0, d1, d2, k, 31, k, 1, k + 1, 6);
    }
    add_slider_data_to_dump(dump, &group_params.knob, index + 7);
    let ghost d3 = dump@;
    proof {
        lemma_slot_concat(d2, k, seq![group_params.channel.byte()], group_params.slider.bytes());
        let s = seq![group_params.channel.byte()] + group_params.slider.bytes();
        lemma_slot_kept(d2, d3, k, s, k + 7, 6);
        lemma_clear_kept(d2, d3, k + 13, 18, k + 7, 6);
        lemma_same_outside_trans(d0, d2, d3, k, 31, k, 7, k + 7, 6);
    }
    add_button_data_to_dump(dump, &group_params.solo_button, index + 13);
    let ghost d4 = dump@;
    proof {
        let s = seq![group_params.channel.byte()] + group_params.slider.bytes();
        lemma_slot_concat(d3, k, s, group_params.knob.bytes());
        let s = s + group_params.knob.bytes();
        lemma_slot_kept(d3, d4, k, s, k + 13, 6);
        lemma_clear_kept(d3, d4, k + 19, 12, k + 13, 6);
        lemma_same_outside_trans(d0, d3, d4, k, 31, k, 13, k + 13, 6);
    }
    add_button_data_to_dump(dump, &group_params.mute_button, index + 19);
    let ghost d5 = dump@;
    proof {
        let s = seq![group_params.channel.byte()] + group_params.slider.bytes()
            + group_params.knob.bytes();
        lemma_slot_concat(d4, k, s, group_params.solo_button.bytes());
        let s = s + group_params.solo_button.bytes();
        lemma_slot_kept(d4, d5, k, s, k + 19, 6);
        lemma_clear_kept(d4, d5, k + 25, 6, k + 19, 6);
        lemma_same_outside_trans(d0, d4, d5, k, 31, k, 19, k + 19, 6);
    }
    add_button_data_to_dump(dump, &group_params.record_button, index + 25);
    proof {
        let d6 = dump@;
        let s = seq![group_params.channel.byte()] + group_params.slider.bytes()
            + group_params.knob.bytes() + group_params.solo_button.bytes();
        lemma_slot_concat(d5, k, s, group_params.mute_button.bytes());
        let s = s + group_params.mute_button.bytes();
        lemma_slot_kept(d5, d6, k, s, k + 25, 6);
        lemma_slot_concat(d6, k, s, group_params.record_button.bytes());
        lemma_same_outside_trans(d0, d5, d6, k, 31, k, 25, k + 25, 6);
    }
}

impl Parameters {
    /// Decodes a data-dump message into this scene, all or nothing. The
    /// packed scene data is `dump[13..401]`. A global channel byte of 16 or
    /// more is refused and leaves the scene as it was; the other enumerated
    /// fields take their default variant on bytes that name none.
    pub fn parse_scene_dump(&mut self, dump: &[u8]) -> (r: Result<(), Error>)
        requires
            dump@.len() >= SCENE_DATA_END,
        ensures
            r is Ok <==> scene_byte(scene_data(dump@), 0) < 16,
            r is Ok ==> final(self).decoded_from(scene_data(dump@)),
            r is Err ==> r == Err::<(), Error>(
                Error::InvalidGlobalChannel(scene_byte(scene_data(dump@), 0)),
            ) && *final(self) == *old(self),
    {
        let raw_scene_data: &[u8] = &dump[SCENE_DATA_START..SCENE_DATA_END];
        let ghost raw = raw_scene_data@;
        proof {
            lemma_scene_data_bounds(0);
            lemma_scene_data_bounds(1);
            lemma_scene_data_bounds(2);
            lemma_scene_data_bounds(TRANSPORT_CHANNEL as int);
        }
        let global_channel_val = raw_scene_data[index_to_data_dump_index(0)];
        if global_channel_val >= 16 {
            return Err(Error::InvalidGlobalChannel(global_channel_val));
        }
        self.global_channel = global_channel_val;

        let control_mode_val = raw_scene_data[index_to_data_dump_index(1)];
        self.control_mode = ControlMode::from(control_mode_val);

        let led_mode_val = raw_scene_data[index_to_data_dump_index(2)];
        self.led_mode = LedMode::from(led_mode_val);

        for i in 0..GROUP_COUNT
            invariant
                raw == raw_scene_data@,
                raw.len() == SCENE_DATA_END - SCENE_DATA_START,
                self.global_channel == scene_byte(raw, 0),
                self.control_mode == ControlMode::from_byte(scene_byte(raw, 1)),
                self.led_mode == LedMode::from_byte(scene_byte(raw, 2)),
                forall|j: int|
                    0 <= j < i ==> #[trigger] self.groups@[j] == group_at(
                        raw,
                        FIRST_GROUP + GROUP_WIDTH * j,
                    ),
        {
            let index: usize = FIRST_GROUP + (i * GROUP_WIDTH);
            self.groups[i] = parse_group_data(raw_scene_data, index);
        }

        let transport_button_channel_val = raw_scene_data[index_to_data_dump_index(
            TRANSPORT_CHANNEL,
        )];
        self.transport_button_channel = MidiChannel::from(transport_button_channel_val);

        self.track_rewind = parse_button_data(raw_scene_data, 252);
        self.track_fastforward = parse_button_data(raw_scene_data, 258);
        self.cycle = parse_button_data(raw_scene_data, 264);
        self.set = parse_button_data(raw_scene_data, 270);
        self.marker_rewind = parse_button_data(raw_scene_data, 276);
        self.marker_fastforward = parse_button_data(raw_scene_data, 282);
        self.rewind = parse_button_data(raw_scene_data, 288);
        self.fastforward = parse_button_data(raw_scene_data, 294);
        self.stop = parse_button_data(raw_scene_data, 300);
        self.play = parse_button_data(raw_scene_data, 306);
        self.record = parse_button_data(raw_scene_data, 312);

        let mut custom_daw_assign: [u8; 5] = [0; 5];
        for i in 0..CUSTOM_DAW_ASSIGN_LEN
            invariant
                raw == raw_scene_data@,
                raw.len() == SCENE_DATA_END - SCENE_DATA_START,
                forall|j: int|
                    0 <= j < i ==> #[trigger] custom_daw_assign@[j] == scene_byte(
                        raw,
                        CUSTOM_DAW_ASSIGN + j,
                    ),
        {
            proof {
                lemma_scene_data_bounds(CUSTOM_DAW_ASSIGN + i);
            }
            let data_dump_index: usize = index_to_data_dump_index(CUSTOM_DAW_ASSIGN + i);
            custom_daw_assign[i] = raw_scene_data[data_dump_index];
        }
        self.custom_daw_assign = custom_daw_assign;
        Ok(())
    }

    /// Packs this scene into the buffer that a data-dump message carries.
    pub fn create_scene_dump(&self) -> (r: [u8; SCENE_DUMP_LEN])
        ensures
            r@ == self.scene_dump(),
    {
        let mut scene_dump: [u8; SCENE_DUMP_LEN] = [0; SCENE_DUMP_LEN];
        let ghost p = *self;
        proof {
            lemma_data_dump_index_distinct();
            assert(holds_prefix(scene_dump@, p, 0));
            lemma_byte_step(scene_dump@, p, 0, self.global_channel);
            lemma_byte_step(scene_dump@.update(1, self.global_channel), p, 1, self.control_mode.byte());
        }
        scene_dump[index_to_data_dump_index(0)] = self.global_channel;
        scene_dump[index_to_data_dump_index(1)] = self.control_mode.into();
        proof {
            lemma_byte_step(scene_dump@, p, 2, self.led_mode.byte());
        }
        scene_dump[index_to_data_dump_index(2)] = self.led_mode.into();

        for i in 0..GROUP_COUNT
            invariant
                p == *self,
                holds_prefix(scene_dump@, p, FIRST_GROUP + GROUP_WIDTH * i),
        {
            let index: usize = FIRST_GROUP + (i * GROUP_WIDTH);
            let ghost before = scene_dump@;
            proof {
                lemma_prefix_clear(before, p, index as int, GROUP_WIDTH as int);
            }
            add_group_data_to_dump(&mut scene_dump, &self.groups[i], index);
            proof {
                lemma_group_bytes(p, i as int);
                lemma_extend_prefix(before, scene_dump@, p, index as int, p.groups@[i as int].bytes());
            }
        }

        proof {
            lemma_byte_step(scene_dump@, p, TRANSPORT_CHANNEL as int, self.transport_button_channel.byte());
        }
        scene_dump[index_to_data_dump_index(TRANSPORT_CHANNEL)] = self.transport_button_channel.into();

        let ghost d0 = scene_dump@;
        proof { lemma_prefix_clear(d0, p, 252, 6); }
        add_button_data_to_dump(&mut scene_dump, &self.track_rewind, 252);
        proof { lemma_transport_step(d0, scene_dump@, p, 0); }
        let ghost d1 = scene_dump@;
        proof { lemma_prefix_clear(d1, p, 258, 6); }
        add_button_data_to_dump(&mut scene_dump, &self.track_fastforward, 258);
        proof { lemma_transport_step(d1, scene_dump@, p, 1); }
        let ghost d2 = scene_dump@;
        proof { lemma_prefix_clear(d2, p, 264, 6); }
        add_button_data_to_dump(&mut scene_dump, &self.cycle, 264);
        proof { lemma_transport_step(d2, scene_dump@, p, 2); }
        let ghost d3 = scene_dump@;
        proof { lemma_prefix_clear(d3, p, 270, 6); }
        add_button_data_to_dump(&mut scene_dump, &self.set, 270);
        proof { lemma_transport_step(d3, scene_dump@, p, 3); }
        let ghost d4 = scene_dump@;
        proof { lemma_prefix_clear(d4, p, 276, 6); }
        add_button_data_to_dump(&mut scene_dump, &self.marker_rewind, 276);
        proof { lemma_transport_step(d4, scene_dump@, p, 4); }
        let ghost d5 = scene_dump@;
        proof { lemma_prefix_clear(d5, p, 282, 6); }
        add_button_data_to_dump(&mut scene_dump, &self.marker_fastforward, 282);
        proof { lemma_transport_step(d5, scene_dump@, p, 5); }
        let ghost d6 = scene_dump@;
        proof { lemma_prefix_clear(d6, p, 288, 6); }
        add_button_data_to_dump(&mut scene_dump, &self.rewind, 288);
        proof { lemma_transport_step(d6, scene_dump@, p, 6); }
        let ghost d7 = scene_dump@;
        proof { lemma_prefix_clear(d7, p, 294, 6); }
        add_button_data_to_dump(&mut scene_dump, &self.fastforward, 294);
        proof { lemma_transport_step(d7, scene_dump@, p, 7); }
        let ghost d8 = scene_dump@;
        proof { lemma_prefix_clear(d8, p, 300, 6); }
        add_button_data_to_dump(&mut scene_dump, &self.stop, 300);
        proof { lemma_transport_step(d8, scene_dump@, p, 8); }
        let ghost d9 = scene_dump@;
        proof { lemma_prefix_clear(d9, p, 306, 6); }
        add_button_data_to_dump(&mut scene_dump, &self.play, 306);
        proof { lemma_transport_step(d9, scene_dump@, p, 9); }
        let ghost d10 = scene_dump@;
        proof { lemma_prefix_clear(d10, p, 312, 6); }
        add_button_data_to_dump(&mut scene_dump, &self.record, 312);
        proof { lemma_transport_step(d10, scene_dump@, p, 10); }

        for i in 0..CUSTOM_DAW_ASSIGN_LEN
            invariant
                p == *self,
                holds_prefix(scene_dump@, p, CUSTOM_DAW_ASSIGN + i),
        {
            proof {
                lemma_byte_step(scene_dump@, p, CUSTOM_DAW_ASSIGN + i, self.custom_daw_assign@[i as int]);
            }
            let data_dump_index: usize = index_to_data_dump_index(CUSTOM_DAW_ASSIGN + i);
            scene_dump[data_dump_index] = self.custom_daw_assign[i];
        }

        proof {
            assert forall|j: int| 0 <= j < SCENE_DUMP_LEN implies #[trigger] scene_dump@[j]
                == p.scene_dump()[j] by {
                if j % 8 != 0 {
                    lemma_data_dump_index_inverse(j);
                    let m = (j / 8) * 7 + j % 8 - 1;
                    assert(m < LOGICAL_LEN);
                    assert(scene_dump@[data_dump_index(m)] == p.logical_byte(m));
                }
            }
            assert(scene_dump@ =~= p.scene_dump());
        }
        scene_dump
    }

    /// The settings of a transport button.
    pub fn get_transport_button_parameters(&self, button_type: TransportButton) -> (r:
        &ButtonParameters)
        ensures
            *r == self.transport(button_type),
    {
        match button_type {
            TransportButton::TrackRewind => &self.track_rewind,
            TransportButton::TrackFastforward => &self.track_fastforward,
            TransportButton::Cycle => &self.cycle,
            TransportButton::MarkerSet => &self.set,
            TransportButton::MarkerRewind => &self.marker_rewind,
            TransportButton::MarkerFastforward => &self.marker_fastforward,
            TransportButton::Rewind => &self.rewind,
            TransportButton::Fastforward => &self.fastforward,
            TransportButton::Stop => &self.stop,
            TransportButton::Play => &self.play,
            TransportButton::Record => &self.record,
        }
    }
}

impl Default for ButtonParameters {
    fn default() -> (r: ButtonParameters)
        ensures
            r == (ButtonParameters {
                assign_type: ButtonAssignType::NoAssign,
                behavior: ButtonBehavior::Momentary,
                note_number: 0,
                off_value: 0,
                on_value: 0,
            }),
    {
        ButtonParameters {
            assign_type: ButtonAssignType::default(),
            behavior: ButtonBehavior::default(),
            note_number: 0,
            off_value: 0,
            on_value: 0,
        }
    }
}

impl Default for SliderParameters {
    fn default() -> (r: SliderParameters)
        ensures
            r == (SliderParameters {
                assign_type: SliderAssignType::Enable,
                note_number: 0,
                min_value: 0,
                max_value: 0,
            }),
    {
        SliderParameters {
            assign_type: SliderAssignType::default(),
            note_number: 0,
            min_value: 0,
            max_value: 0,
        }
    }
}

impl Default for ControllerGroupParameters {
    fn default() -> (r: ControllerGroupParameters)
        ensures
            r == ControllerGroupParameters::default_spec(),
    {
        ControllerGroupParameters {
            channel: MidiChannel::default(),
            slider: SliderParameters::default(),
            knob: SliderParameters::default(),
            solo_button: ButtonParameters::default(),
            mute_button: ButtonParameters::default(),
            record_button: ButtonParameters::default(),
        }
    }
}

impl Default for Parameters {
    /// The scene before any dump: numbers 0, enumerations at their default.
    fn default() -> (r: Parameters)
        ensures
            r.global_channel == 0,
            r.control_mode == ControlMode::CcMode,
            r.led_mode == LedMode::Internal,
            forall|i: int|
                0 <= i < GROUP_COUNT ==> #[trigger] r.groups@[i]
                    == ControllerGroupParameters::default_spec(),
            r.transport_button_channel == MidiChannel::Global,
            forall|b: TransportButton| #[trigger] r.transport(b) == default_button(),
            forall|i: int| 0 <= i < CUSTOM_DAW_ASSIGN_LEN ==> #[trigger] r.custom_daw_assign@[i] == 0,
    {
        let button = ButtonParameters::default();
        Parameters {
            global_channel: 0,
            control_mode: ControlMode::default(),
            led_mode: LedMode::default(),
            groups: [ControllerGroupParameters::default(); 8],
            transport_button_channel: MidiChannel::default(),
            track_rewind: button,
            track_fastforward: button,
            cycle: button,
            set: button,
            marker_rewind: button,
            marker_fastforward: button,
            rewind: button,
            fastforward: button,
            stop: button,
            play: button,
            record: button,
            custom_daw_assign: [0; 5],
        }
    }
}

} // verus!
