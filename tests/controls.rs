use korgnanokontrol2::data::{Data, GroupData};
use korgnanokontrol2::enums::{
    ButtonAssignType, ButtonBehavior, ControlMode, LedMode, MidiChannel, SliderAssignType,
    TransportButton,
};
use korgnanokontrol2::parameters::{ButtonParameters, Parameters};
use korgnanokontrol2::{count_zeros, get_button_state, KorgNanokontrol2};

fn button(off_value: u8, on_value: u8) -> ButtonParameters {
    ButtonParameters {
        assign_type: ButtonAssignType::ControlChange,
        behavior: ButtonBehavior::Momentary,
        note_number: 0,
        off_value,
        on_value,
    }
}

#[test]
fn count_zeros_counts_zero_bits() {
    assert_eq!(count_zeros(0), 8);
    assert_eq!(count_zeros(0xFF), 0);
    assert_eq!(count_zeros(0b1010_0000), 6);
    assert_eq!(count_zeros(0x7F), 1);
}

#[test]
fn button_state_at_off_and_on_values() {
    let b = button(0, 127);
    assert!(!get_button_state(0, &b));
    assert!(get_button_state(127, &b));
}

#[test]
fn button_state_picks_nearer_value() {
    let b = button(0, 127);
    assert!(!get_button_state(100, &b));
    assert!(get_button_state(120, &b));
    assert!(get_button_state(15, &b));
}

#[test]
fn button_state_tie_is_off() {
    let b = button(0, 3);
    assert!(!get_button_state(1, &b));
    assert!(!get_button_state(2, &b));
}

#[test]
fn off_value_wins_when_equal_to_on_value() {
    let b = button(5, 5);
    assert!(!get_button_state(5, &b));
}

#[test]
fn controller_state_getters() {
    let mut state = KorgNanokontrol2 { parameters: Parameters::default(), data: Data::default() };
    state.data.groups[2] = GroupData { slider_value: 11, knob_value: 22, solo: 127, mute: 0, record: 100 };
    state.parameters.groups[2].solo_button = button(0, 127);
    state.parameters.groups[2].mute_button = button(0, 127);
    state.parameters.groups[2].record_button = button(0, 127);
    state.data.play = 127;
    state.parameters.play = button(0, 127);
    state.data.stop = 1;
    state.parameters.stop = button(1, 0);
    assert_eq!(state.get_slider_value_raw(2), 11);
    assert_eq!(state.get_knob_value_raw(2), 22);
    assert!(state.get_solo_button_state(2));
    assert!(!state.get_mute_button_state(2));
    assert!(!state.get_record_button_state(2));
    assert!(state.get_transport_button_state(TransportButton::Play));
    assert!(!state.get_transport_button_state(TransportButton::Stop));
}

#[test]
fn transport_button_values() {
    let mut data = Data::default();
    data.track_rewind = 1;
    data.set = 4;
    data.record = 11;
    assert_eq!(data.get_transport_button_value(TransportButton::TrackRewind), 1);
    assert_eq!(data.get_transport_button_value(TransportButton::MarkerSet), 4);
    assert_eq!(data.get_transport_button_value(TransportButton::Record), 11);
    assert_eq!(data.get_transport_button_value(TransportButton::Play), 0);
}

#[test]
fn enumerations_decode_totally() {
    assert_eq!(ButtonAssignType::from(0u8), ButtonAssignType::NoAssign);
    assert_eq!(ButtonAssignType::from(1u8), ButtonAssignType::ControlChange);
    assert_eq!(ButtonAssignType::from(2u8), ButtonAssignType::Note);
    assert_eq!(ButtonAssignType::from(3u8), ButtonAssignType::NoAssign);
    assert_eq!(ButtonBehavior::from(1u8), ButtonBehavior::Toggle);
    assert_eq!(ButtonBehavior::from(9u8), ButtonBehavior::Momentary);
    assert_eq!(SliderAssignType::from(1u8), SliderAssignType::Enable);
    assert_eq!(SliderAssignType::from(2u8), SliderAssignType::Disable);
    assert_eq!(ControlMode::from(3u8), ControlMode::Live);
    assert_eq!(ControlMode::from(0xFFu8), ControlMode::CcMode);
    assert_eq!(LedMode::from(1u8), LedMode::External);
    assert_eq!(LedMode::from(2u8), LedMode::Internal);
    assert_eq!(MidiChannel::from(15u8), MidiChannel::Custom(15));
    assert_eq!(MidiChannel::from(16u8), MidiChannel::Global);
    assert_eq!(MidiChannel::from(200u8), MidiChannel::Global);
}

#[test]
fn enumerations_encode_to_wire_bytes() {
    assert_eq!(u8::from(MidiChannel::Global), 16);
    assert_eq!(u8::from(MidiChannel::Custom(7)), 7);
    let b: u8 = ControlMode::Sonar.into();
    assert_eq!(b, 5);
    assert_eq!(u8::from(ButtonAssignType::Note), 2);
    assert_eq!(u8::from(ButtonBehavior::Toggle), 1);
    assert_eq!(u8::from(SliderAssignType::Disable), 0);
    assert_eq!(u8::from(LedMode::External), 1);
}

#[test]
fn enumeration_defaults() {
    assert_eq!(ButtonAssignType::default(), ButtonAssignType::NoAssign);
    assert_eq!(ButtonBehavior::default(), ButtonBehavior::Momentary);
    assert_eq!(MidiChannel::default(), MidiChannel::Global);
    assert_eq!(SliderAssignType::default(), SliderAssignType::Enable);
    assert_eq!(ControlMode::default(), ControlMode::CcMode);
    assert_eq!(LedMode::default(), LedMode::Internal);
}
