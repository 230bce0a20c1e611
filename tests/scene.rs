use korgnanokontrol2::connection::current_scene_data_dump_message;
use korgnanokontrol2::enums::{
    ButtonAssignType, ButtonBehavior, ControlMode, LedMode, MidiChannel, SliderAssignType,
    TransportButton,
};
use korgnanokontrol2::parameters::{
    index_to_data_dump_index, ButtonParameters, ControllerGroupParameters, Parameters,
    SliderParameters,
};
use korgnanokontrol2::Error;

/// A data-dump message whose packed scene bytes are all zero.
fn blank_dump() -> Vec<u8> {
    current_scene_data_dump_message(0, &[0u8; 389])
}

/// Puts logical byte `k` of the scene into a data-dump message.
fn put(dump: &mut [u8], k: usize, v: u8) {
    dump[13 + index_to_data_dump_index(k)] = v;
}

fn sample_parameters() -> Parameters {
    let mut p = Parameters::default();
    p.global_channel = 9;
    p.control_mode = ControlMode::ProTools;
    p.led_mode = LedMode::External;
    for i in 0..8 {
        let n = i as u8;
        p.groups[i] = ControllerGroupParameters {
            channel: if i == 7 { MidiChannel::Global } else { MidiChannel::Custom(n * 2) },
            slider: SliderParameters {
                assign_type: if i % 2 == 0 { SliderAssignType::Enable } else { SliderAssignType::Disable },
                note_number: n,
                min_value: 10 + n,
                max_value: 100 + n,
            },
            knob: SliderParameters {
                assign_type: SliderAssignType::Enable,
                note_number: 16 + n,
                min_value: 20 + n,
                max_value: 110 + n,
            },
            solo_button: ButtonParameters {
                assign_type: ButtonAssignType::ControlChange,
                behavior: ButtonBehavior::Toggle,
                note_number: 32 + n,
                off_value: 0,
                on_value: 127,
            },
            mute_button: ButtonParameters {
                assign_type: ButtonAssignType::Note,
                behavior: ButtonBehavior::Momentary,
                note_number: 48 + n,
                off_value: 1,
                on_value: 126,
            },
            record_button: ButtonParameters {
                assign_type: ButtonAssignType::NoAssign,
                behavior: ButtonBehavior::Toggle,
                note_number: 64 + n,
                off_value: 2,
                on_value: 125,
            },
        };
    }
    p.transport_button_channel = MidiChannel::Custom(12);
    let button = |k: u8| ButtonParameters {
        assign_type: ButtonAssignType::ControlChange,
        behavior: if k % 2 == 0 { ButtonBehavior::Toggle } else { ButtonBehavior::Momentary },
        note_number: 80 + k,
        off_value: k,
        on_value: 120 - k,
    };
    p.track_rewind = button(0);
    p.track_fastforward = button(1);
    p.cycle = button(2);
    p.set = button(3);
    p.marker_rewind = button(4);
    p.marker_fastforward = button(5);
    p.rewind = button(6);
    p.fastforward = button(7);
    p.stop = button(8);
    p.play = button(9);
    p.record = button(10);
    p.custom_daw_assign = [1, 2, 3, 4, 5];
    p
}

#[test]
fn index_transform_skips_reserved_bytes() {
    assert_eq!(index_to_data_dump_index(0), 1);
    assert_eq!(index_to_data_dump_index(6), 7);
    assert_eq!(index_to_data_dump_index(7), 9);
    assert_eq!(index_to_data_dump_index(13), 15);
    assert_eq!(index_to_data_dump_index(14), 17);
    assert_eq!(index_to_data_dump_index(322), 369);
    assert_eq!(index_to_data_dump_index(339), 388);
}

#[test]
fn round_trip_through_full_frame() {
    let p = sample_parameters();
    let scene = p.create_scene_dump();
    let dump = current_scene_data_dump_message(p.global_channel, &scene);
    let mut q = Parameters::default();
    assert_eq!(q.parse_scene_dump(&dump), Ok(()));
    assert_eq!(q, p);
}

#[test]
fn round_trip_of_default_scene() {
    let p = Parameters::default();
    let dump = current_scene_data_dump_message(0, &p.create_scene_dump());
    let mut q = sample_parameters();
    assert_eq!(q.parse_scene_dump(&dump), Ok(()));
    assert_eq!(q, p);
}

#[test]
fn create_scene_dump_places_fields() {
    let p = sample_parameters();
    let scene = p.create_scene_dump();
    assert_eq!(scene[1], 9);
    assert_eq!(scene[2], 4);
    assert_eq!(scene[3], 1);
    // first strip: channel 0 at logical 3, slider assign at logical 4
    assert_eq!(scene[4], 0);
    assert_eq!(scene[5], 1);
    assert_eq!(scene[6], 0);
    assert_eq!(scene[7], 0);
    // logical 7 (slider minimum) sits after the reserved byte 8
    assert_eq!(scene[8], 0);
    assert_eq!(scene[9], 10);
    assert_eq!(scene[index_to_data_dump_index(3 + 7 * 31)], 16);
    assert_eq!(scene[index_to_data_dump_index(251)], 12);
    assert_eq!(scene[index_to_data_dump_index(252 + 2)], 80);
    assert_eq!(scene[index_to_data_dump_index(318)], 1);
    assert_eq!(scene[index_to_data_dump_index(322)], 5);
    for j in (0..389).step_by(8) {
        assert_eq!(scene[j], 0);
    }
    for k in 323..340 {
        assert_eq!(scene[index_to_data_dump_index(k)], 0);
    }
}

#[test]
fn create_scene_dump_leaves_reserved_slots_zero() {
    let mut p = sample_parameters();
    p.groups[0].slider.note_number = 127;
    let scene = p.create_scene_dump();
    // reserved logical bytes of a strip: 2 and 6 of each slider, 5 of each button
    let base = 3;
    for off in [2, 6, 8, 12, 18, 24, 30] {
        assert_eq!(scene[index_to_data_dump_index(base + off)], 0);
    }
    assert_eq!(scene[index_to_data_dump_index(252 + 5)], 0);
}

#[test]
fn parse_reads_each_field() {
    let mut dump = blank_dump();
    put(&mut dump, 0, 15);
    put(&mut dump, 1, 5);
    put(&mut dump, 2, 1);
    put(&mut dump, 3 + 31, 16);
    put(&mut dump, 3 + 31 + 1, 0);
    put(&mut dump, 3 + 31 + 3, 44);
    put(&mut dump, 3 + 31 + 7 + 4, 99);
    put(&mut dump, 3 + 31 + 13, 2);
    put(&mut dump, 3 + 31 + 13 + 1, 1);
    put(&mut dump, 3 + 31 + 25 + 4, 77);
    put(&mut dump, 3, 4);
    put(&mut dump, 251, 3);
    put(&mut dump, 270, 1);
    put(&mut dump, 270 + 3, 17);
    put(&mut dump, 312 + 4, 66);
    put(&mut dump, 320, 88);
    let mut p = Parameters::default();
    assert_eq!(p.parse_scene_dump(&dump), Ok(()));
    assert_eq!(p.global_channel, 15);
    assert_eq!(p.control_mode, ControlMode::Sonar);
    assert_eq!(p.led_mode, LedMode::External);
    assert_eq!(p.groups[0].channel, MidiChannel::Custom(4));
    assert_eq!(p.groups[1].channel, MidiChannel::Global);
    assert_eq!(p.groups[1].slider.assign_type, SliderAssignType::Disable);
    assert_eq!(p.groups[1].slider.note_number, 44);
    assert_eq!(p.groups[1].knob.max_value, 99);
    assert_eq!(p.groups[1].solo_button.assign_type, ButtonAssignType::Note);
    assert_eq!(p.groups[1].solo_button.behavior, ButtonBehavior::Toggle);
    assert_eq!(p.groups[1].record_button.on_value, 77);
    assert_eq!(p.transport_button_channel, MidiChannel::Custom(3));
    assert_eq!(p.set.assign_type, ButtonAssignType::ControlChange);
    assert_eq!(p.set.off_value, 17);
    assert_eq!(p.record.on_value, 66);
    assert_eq!(p.custom_daw_assign, [0, 0, 88, 0, 0]);
    assert_eq!(p.get_transport_button_parameters(TransportButton::MarkerSet).off_value, 17);
    assert_eq!(p.get_transport_button_parameters(TransportButton::Record).on_value, 66);
}

#[test]
fn parse_rejects_global_channel_of_sixteen_or_more() {
    for bad in [16u8, 17, 0x7F, 0xFF] {
        let mut dump = blank_dump();
        put(&mut dump, 0, bad);
        put(&mut dump, 1, 3);
        let before = sample_parameters();
        let mut p = before;
        assert_eq!(p.parse_scene_dump(&dump), Err(Error::InvalidGlobalChannel(bad)));
        assert_eq!(p, before);
    }
}

#[test]
fn parse_defaults_unknown_enumeration_bytes() {
    let mut dump = blank_dump();
    put(&mut dump, 1, 0xFF);
    put(&mut dump, 2, 0x09);
    put(&mut dump, 3, 0x40);
    put(&mut dump, 4, 0x07);
    put(&mut dump, 16, 3);
    put(&mut dump, 17, 2);
    let mut p = sample_parameters();
    assert_eq!(p.parse_scene_dump(&dump), Ok(()));
    assert_eq!(p.control_mode, ControlMode::CcMode);
    assert_eq!(p.led_mode, LedMode::Internal);
    assert_eq!(p.groups[0].channel, MidiChannel::Global);
    assert_eq!(p.groups[0].slider.assign_type, SliderAssignType::Disable);
    assert_eq!(p.groups[0].solo_button.assign_type, ButtonAssignType::NoAssign);
    assert_eq!(p.groups[0].solo_button.behavior, ButtonBehavior::Momentary);
}

#[test]
fn parse_accepts_longer_messages() {
    let p = sample_parameters();
    let mut dump = current_scene_data_dump_message(1, &p.create_scene_dump());
    dump.extend_from_slice(&[0xF0, 0xF7]);
    let mut q = Parameters::default();
    assert_eq!(q.parse_scene_dump(&dump[..401]), Ok(()));
    assert_eq!(q, p);
}

#[test]
fn default_parameters() {
    let p = Parameters::default();
    assert_eq!(p.global_channel, 0);
    assert_eq!(p.control_mode, ControlMode::CcMode);
    assert_eq!(p.led_mode, LedMode::Internal);
    assert_eq!(p.transport_button_channel, MidiChannel::Global);
    assert_eq!(p.groups[3].channel, MidiChannel::Global);
    assert_eq!(p.groups[3].slider.assign_type, SliderAssignType::Enable);
    assert_eq!(p.play.assign_type, ButtonAssignType::NoAssign);
    assert_eq!(p.custom_daw_assign, [0; 5]);
}
