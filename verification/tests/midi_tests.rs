use snapblaster::effects::Effect;
use snapblaster::events::Event;
use snapblaster::midi::{
    cc_message, decode_note_message, outbound_cc, pad_event, read_note_message, NoteMessage,
};
use snapblaster::model::{Parameter, ProjectState};

#[test]
fn strict_reader_reads_note_on() {
    assert_eq!(
        read_note_message(&[0x90, 81, 100]),
        Some(NoteMessage::On { channel: 0, note: 81, velocity: 100 })
    );
    assert_eq!(
        read_note_message(&[0x9A, 0, 127]),
        Some(NoteMessage::On { channel: 10, note: 0, velocity: 127 })
    );
    assert_eq!(
        read_note_message(&[0x90, 81, 100, 0x90, 1, 1]),
        Some(NoteMessage::On { channel: 0, note: 81, velocity: 100 })
    );
}

#[test]
fn strict_reader_turns_velocity_zero_into_note_off() {
    assert_eq!(
        read_note_message(&[0x93, 81, 0]),
        Some(NoteMessage::Off { channel: 3, note: 81, velocity: 0 })
    );
    assert_eq!(
        read_note_message(&[0x80, 12, 64]),
        Some(NoteMessage::Off { channel: 0, note: 12, velocity: 64 })
    );
}

#[test]
fn strict_reader_refuses_what_is_no_note_message() {
    assert_eq!(read_note_message(&[]), None);
    assert_eq!(read_note_message(&[0x90]), None);
    assert_eq!(read_note_message(&[0x90, 81]), None);
    assert_eq!(read_note_message(&[0x90, 0x80, 1]), None);
    assert_eq!(read_note_message(&[0x90, 1, 0x80]), None);
    assert_eq!(read_note_message(&[0x80, 1, 0xFF]), None);
    assert_eq!(read_note_message(&[0xB0, 1, 2]), None);
    assert_eq!(read_note_message(&[0x10, 1, 2]), None);
    assert_eq!(read_note_message(&[0xF8]), None);
    assert_eq!(read_note_message(&[0xA0, 1, 2]), None);
}

#[test]
fn lenient_reader_takes_data_bytes_as_they_come() {
    assert_eq!(
        decode_note_message(&[0x90, 0x80, 1]),
        Some(NoteMessage::On { channel: 0, note: 0x80, velocity: 1 })
    );
    assert_eq!(
        decode_note_message(&[0x85, 3, 0xFF]),
        Some(NoteMessage::Off { channel: 5, note: 3, velocity: 0xFF })
    );
    assert_eq!(
        decode_note_message(&[0x90, 3, 0]),
        Some(NoteMessage::Off { channel: 0, note: 3, velocity: 0 })
    );
    assert_eq!(decode_note_message(&[0x90, 3]), None);
    assert_eq!(decode_note_message(&[0xB0, 3, 4]), None);
    assert_eq!(decode_note_message(&[]), None);
}

#[test]
fn the_two_readers_agree_on_valid_bytes() {
    for status in [0x00u8, 0x7F, 0x80, 0x8F, 0x90, 0x9F, 0xA0, 0xB3, 0xF0, 0xFF] {
        for note in [0u8, 1, 64, 127] {
            for velocity in [0u8, 1, 127] {
                let bytes = [status, note, velocity];
                assert_eq!(read_note_message(&bytes), decode_note_message(&bytes), "{bytes:?}");
            }
        }
    }
}

#[test]
fn pad_events_of_note_messages() {
    let on = NoteMessage::On { channel: 0, note: 81, velocity: 100 };
    let off = NoteMessage::Off { channel: 0, note: 81, velocity: 40 };
    let silent = NoteMessage::On { channel: 0, note: 81, velocity: 0 };
    assert_eq!(pad_event(on, 0), Event::PadPressed { pad: 0, velocity: 100 });
    assert_eq!(pad_event(off, 7), Event::PadReleased { pad: 7, velocity: 40 });
    assert_eq!(pad_event(silent, 7), Event::PadReleased { pad: 7, velocity: 0 });
}

#[test]
fn cc_messages_are_three_bytes() {
    assert_eq!(cc_message(0, 10, 5), vec![0xB0, 10, 5]);
    assert_eq!(cc_message(3, 20, 127), vec![0xB3, 20, 127]);
    assert_eq!(cc_message(15, 0, 0), vec![0xBF, 0, 0]);
    assert_eq!(cc_message(16, 1, 2), vec![0xB0, 1, 2]);
    assert_eq!(cc_message(0xFF, 1, 2), vec![0xBF, 1, 2]);
}

#[test]
fn outbound_sink_sends_the_cc_of_a_known_parameter() {
    let mut state = ProjectState::default();
    state.project.parameters = vec![
        Parameter { name: "a".to_string(), description: String::new(), cc: 10 },
        Parameter { name: "b".to_string(), description: String::new(), cc: 20 },
    ];
    assert_eq!(
        outbound_cc(&state, &Event::CCValueChanged { param_id: 1, value: 77 }),
        Some(Effect::SendCc { channel: 0, cc: 20, value: 77 })
    );
    assert_eq!(outbound_cc(&state, &Event::CCValueChanged { param_id: 2, value: 77 }), None);
    assert_eq!(outbound_cc(&state, &Event::ParameterEdited { param_id: 1, value: 77 }), None);
    assert_eq!(outbound_cc(&state, &Event::MorphCompleted), None);
}
