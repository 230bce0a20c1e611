use korgnanokontrol2::connection::{
    classify, current_scene_data_dump_message, current_scene_data_dump_request_message,
    mode_request_message, native_mode_io_request_message, scene_write_request_message, Command,
    ControlChangeEvent, DataFormat, Function, IoType, MidiEvent, RequestType,
    SystemExclusiveEvent,
};

fn sysex(channel: u8, command: u8, payload: &[u8], timestamp: u64) -> MidiEvent {
    MidiEvent::SystemExclusive(SystemExclusiveEvent {
        timestamp,
        channel,
        command,
        payload: payload.to_vec(),
    })
}

#[test]
fn control_change_is_classified() {
    let event = classify(&[0xB3, 0x07, 0x40], 42);
    assert_eq!(
        event,
        MidiEvent::ControlChange(ControlChangeEvent {
            timestamp: 42,
            channel: 3,
            controller: 7,
            value: 0x40,
        })
    );
}

#[test]
fn control_change_with_extra_bytes_uses_first_three() {
    let event = classify(&[0xBF, 0x10, 0x7F, 0x00], 1);
    assert_eq!(
        event,
        MidiEvent::ControlChange(ControlChangeEvent {
            timestamp: 1,
            channel: 15,
            controller: 0x10,
            value: 0x7F,
        })
    );
}

#[test]
fn truncated_control_change_is_ignored() {
    assert_eq!(classify(&[0xB3, 0x07], 0), MidiEvent::Ignored);
    assert_eq!(classify(&[0xB3], 0), MidiEvent::Ignored);
}

#[test]
fn empty_and_other_messages_are_ignored() {
    assert_eq!(classify(&[], 0), MidiEvent::Ignored);
    assert_eq!(classify(&[0x90, 0x3C, 0x40], 0), MidiEvent::Ignored);
    assert_eq!(classify(&[0xF7], 0), MidiEvent::Ignored);
}

#[test]
fn sysex_two_byte_form() {
    let message = [0xF0, 0x42, 0x40, 0, 0, 0, 0, 0x1F, 0x10, 0x05, 0xF7];
    assert_eq!(classify(&message, 7), sysex(0, 0x1F, &[0x10, 0x05], 7));
}

#[test]
fn sysex_two_byte_form_keeps_channel_nibble() {
    let message = [0xF0, 0x42, 0x4B, 0x00, 0x01, 0x13, 0x00, 0x40, 0x00, 0x01, 0xF7];
    assert_eq!(classify(&message, 0), sysex(11, 0x40, &[0x00, 0x01], 0));
}

#[test]
fn sysex_two_byte_form_without_end_byte_is_ignored() {
    let short = [0xF0, 0x42, 0x40, 0, 0, 0, 0, 0x1F, 0x10, 0x05];
    assert_eq!(classify(&short, 0), MidiEvent::Ignored);
    let wrong_end = [0xF0, 0x42, 0x40, 0, 0, 0, 0, 0x1F, 0x10, 0x05, 0x00];
    assert_eq!(classify(&wrong_end, 0), MidiEvent::Ignored);
    let too_short = [0xF0, 0x42, 0x40, 0, 0, 0, 0, 0x1F, 0x10];
    assert_eq!(classify(&too_short, 0), MidiEvent::Ignored);
}

#[test]
fn sysex_with_wrong_manufacturer_or_channel_byte_is_ignored() {
    let wrong_id = [0xF0, 0x41, 0x40, 0, 0, 0, 0, 0x1F, 0x10, 0x05, 0xF7];
    assert_eq!(classify(&wrong_id, 0), MidiEvent::Ignored);
    let wrong_channel = [0xF0, 0x42, 0x50, 0, 0, 0, 0, 0x1F, 0x10, 0x05, 0xF7];
    assert_eq!(classify(&wrong_channel, 0), MidiEvent::Ignored);
    let header_only = [0xF0, 0x42, 0x40, 0, 0, 0];
    assert_eq!(classify(&header_only, 0), MidiEvent::Ignored);
}

#[test]
fn sysex_variable_form_with_short_length() {
    let message = [0xF0, 0x42, 0x42, 0, 1, 0x13, 0, 0x7F, 0x03, 0x0A, 0x0B, 0x0C, 0xF7];
    assert_eq!(classify(&message, 3), sysex(2, 0x7F, &[0x0A, 0x0B, 0x0C], 3));
}

#[test]
fn sysex_variable_form_with_empty_payload() {
    let message = [0xF0, 0x42, 0x40, 0, 1, 0x13, 0, 0x7F, 0x00, 0xF7];
    assert_eq!(classify(&message, 0), sysex(0, 0x7F, &[], 0));
}

#[test]
fn sysex_variable_form_shortfall_is_ignored() {
    let message = [0xF0, 0x42, 0x40, 0, 1, 0x13, 0, 0x7F, 0x05, 0x0A, 0x0B, 0xF7];
    assert_eq!(classify(&message, 0), MidiEvent::Ignored);
}

#[test]
fn sysex_extended_length_form() {
    let msb: u8 = 0x01;
    let lsb: u8 = 0x02;
    let len = ((msb as usize) << 7) | lsb as usize;
    assert_eq!(len, 130);
    let mut message = vec![0xF0, 0x42, 0x40, 0x00, 0x01, 0x13, 0x00, 0x7F, 0x7F, 0x02, msb, lsb];
    let payload: Vec<u8> = (0..len).map(|i| (i % 128) as u8).collect();
    message.extend_from_slice(&payload);
    message.push(0xF7);
    assert_eq!(classify(&message, 9), sysex(0, 0x7F, &payload, 9));
}

#[test]
fn sysex_extended_length_form_checks_end_byte_after_payload() {
    let mut message = vec![0xF0, 0x42, 0x40, 0x00, 0x01, 0x13, 0x00, 0x7F, 0x7F, 0x02, 0x00, 0x04];
    message.extend_from_slice(&[1, 2, 3, 0xF7, 5]);
    assert_eq!(classify(&message, 0), MidiEvent::Ignored);
    message[16] = 0xF7;
    assert_eq!(classify(&message, 0), sysex(0, 0x7F, &[1, 2, 3, 0xF7], 0));
}

#[test]
fn sysex_extended_length_form_needs_marker() {
    let message = [0xF0, 0x42, 0x40, 0, 1, 0x13, 0, 0x7F, 0x7F, 0x03, 0x00, 0x01, 0x09, 0xF7];
    assert_eq!(classify(&message, 0), MidiEvent::Ignored);
    let truncated = [0xF0, 0x42, 0x40, 0, 1, 0x13, 0, 0x7F, 0x7F, 0x02, 0x00];
    assert_eq!(classify(&truncated, 0), MidiEvent::Ignored);
}

#[test]
fn data_format_follows_bit_five() {
    assert_eq!(DataFormat::from_command(0x1F), DataFormat::TwoBytes);
    assert_eq!(DataFormat::from_command(0x40), DataFormat::TwoBytes);
    assert_eq!(DataFormat::from_command(0x7F), DataFormat::Variable);
    assert_eq!(DataFormat::from_command(0x20), DataFormat::Variable);
}

#[test]
fn command_and_function_bytes_parse() {
    assert_eq!(Command::try_parse(0x00), Some(Command::NativeModeInOutRequest));
    assert_eq!(Command::try_parse(0x1F), Some(Command::DataDumpRequest));
    assert_eq!(Command::try_parse(0x40), Some(Command::NativeModeInOut));
    assert_eq!(Command::try_parse(0x5F), Some(Command::PacketCommunication));
    assert_eq!(Command::try_parse(0x7F), Some(Command::DataDump));
    assert_eq!(Command::try_parse(0x20), None);
    assert_eq!(Function::try_parse(0x10), Some(Function::CurrentSceneDataDump));
    assert_eq!(Function::try_parse(0x21), Some(Function::WriteCompleted));
    assert_eq!(Function::try_parse(0x22), Some(Function::WriteError));
    assert_eq!(Function::try_parse(0x23), Some(Function::DataLoadCompleted));
    assert_eq!(Function::try_parse(0x24), Some(Function::DataLoadError));
    assert_eq!(Function::try_parse(0x42), Some(Function::ModeData));
    assert_eq!(Function::try_parse(0x11), None);
    assert_eq!(Command::DataDump.to_byte(), 0x7F);
    assert_eq!(RequestType::SceneWriteRequest.to_byte(), 0x11);
    assert_eq!(IoType::In.to_byte(), 0x01);
}

#[test]
fn request_messages_are_bit_exact() {
    assert_eq!(
        current_scene_data_dump_request_message(3),
        [0xF0, 0x42, 0x43, 0x00, 0x01, 0x13, 0x00, 0x1F, 0x10, 0x00, 0xF7]
    );
    assert_eq!(
        scene_write_request_message(0),
        [0xF0, 0x42, 0x40, 0x00, 0x01, 0x13, 0x00, 0x1F, 0x11, 0x00, 0xF7]
    );
    assert_eq!(
        native_mode_io_request_message(15, IoType::In),
        [0xF0, 0x42, 0x4F, 0x00, 0x01, 0x13, 0x00, 0x00, 0x00, 0x01, 0xF7]
    );
    assert_eq!(
        mode_request_message(1),
        [0xF0, 0x42, 0x41, 0x00, 0x01, 0x13, 0x00, 0x1F, 0x12, 0x00, 0xF7]
    );
}

#[test]
fn data_dump_request_is_classified_as_two_byte_sysex() {
    let message = current_scene_data_dump_request_message(2);
    assert_eq!(classify(&message, 5), sysex(2, 0x1F, &[0x10, 0x00], 5));
}

#[test]
fn data_dump_message_is_bit_exact() {
    let mut scene = [0u8; 389];
    for (i, b) in scene.iter_mut().enumerate() {
        *b = (i % 100) as u8;
    }
    let message = current_scene_data_dump_message(5, &scene);
    assert_eq!(message.len(), 403);
    assert_eq!(
        &message[..13],
        &[0xF0, 0x42, 0x45, 0x00, 0x01, 0x13, 0x00, 0x7F, 0x7F, 0x02, 0x03, 0x05, 0x40]
    );
    assert_eq!(&message[13..402], &scene[..]);
    assert_eq!(message[402], 0xF7);
}
