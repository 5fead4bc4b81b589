use crate::effects::{Effect, EffectView};
use crate::events::{Event, EventView};
use crate::model::{ProjectState, StateView};
use vstd::prelude::*;

verus! {

/// The pause between two CC messages of one snap, so that the receiver's
/// buffer does not overflow.
pub const CC_SPACING_MS: u64 = 2;

/// A note message as it comes from a controller.
#[derive(Clone, Copy, Debug, PartialEq, Eq, Structural)]
pub enum NoteMessage {
    On { channel: u8, note: u8, velocity: u8 },
    Off { channel: u8, note: u8, velocity: u8 },
}

/// How a MIDI parser that checks its data bytes reads a note message: three
/// bytes or more, status `0x9n` or `0x8n`, both data bytes below `0x80`. A
/// note-on with velocity 0 is a note-off. Anything else is no note message.
pub open spec fn strict_note_message(bytes: Seq<u8>) -> Option<NoteMessage> {
    if bytes.len() >= 3 && bytes[1] < 0x80 && bytes[2] < 0x80 {
        let channel = bytes[0] & 0x0F;
        if bytes[0] & 0xF0 == 0x90 && bytes[2] != 0 {
            Some(NoteMessage::On { channel, note: bytes[1], velocity: bytes[2] })
        } else if bytes[0] & 0xF0 == 0x90 || bytes[0] & 0xF0 == 0x80 {
            Some(NoteMessage::Off { channel, note: bytes[1], velocity: bytes[2] })
        } else {
            None
        }
    } else {
        None
    }
}

/// How the input port's callback reads a note message: three bytes or more
/// and status `0x9n` or `0x8n`; the data bytes are taken as they come. A
/// note-on with velocity 0 is a note-off.
pub open spec fn lenient_note_message(bytes: Seq<u8>) -> Option<NoteMessage> {
    if bytes.len() >= 3 {
        let channel = bytes[0] & 0x0F;
        if bytes[0] & 0xF0 == 0x90 && bytes[2] != 0 {
            Some(NoteMessage::On { channel, note: bytes[1], velocity: bytes[2] })
        } else if bytes[0] & 0xF0 == 0x90 || bytes[0] & 0xF0 == 0x80 {
            Some(NoteMessage::Off { channel, note: bytes[1], velocity: bytes[2] })
        } else {
            None
        }
    } else {
        None
    }
}

/// The event that a note on pad `pad` stands for: a press while the note is
/// on with a velocity above 0, a release otherwise.
pub open spec fn pad_event_of(message: NoteMessage, pad: u8) -> EventView {
    match message {
        NoteMessage::On { velocity, .. } => if velocity > 0 {
            EventView::PadPressed { pad, velocity }
        } else {
            EventView::PadReleased { pad, velocity }
        },
        NoteMessage::Off { velocity, .. } => EventView::PadReleased { pad, velocity },
    }
}

/// The three bytes of a CC message.
pub open spec fn cc_bytes(channel: u8, cc: u8, value: u8) -> Seq<u8> {
    seq![0xB0u8 | (channel & 0x0F), cc, value]
}

/// What the outbound sink sends for an event: the CC message of a parameter
/// whose value changed, if the project has that parameter.
pub open spec fn outbound(s: StateView, event: EventView) -> Option<EffectView> {
    match event {
        EventView::CCValueChanged { param_id, value } => if param_id < s.project.parameters.len() {
            Some(
                EffectView::SendCc {
                    channel: crate::effects::CC_CHANNEL,
                    cc: s.project.parameters[param_id as int].cc,
                    value,
                },
            )
        } else {
            None
        },
        _ => None,
    }
}

/// Reads a note message with `wmidi::MidiMessage::try_from`, and takes
/// channel, note and velocity out of its `NoteOn` and `NoteOff` with
/// `Channel::index` and `u8::from`. Claims what wmidi's parser does for those
/// two: it wants three bytes, the status `0x9n` or `0x8n` and data bytes
/// below `0x80`, and it turns a note-on of velocity 0 into a note-off. Every
/// other message, and every error, gives `None`.
#[verifier::external_body]
fn parse_note_message(bytes: &[u8]) -> (parsed: Option<NoteMessage>)
    ensures
        parsed == strict_note_message(bytes@),
{
    match wmidi::MidiMessage::try_from(bytes) {
        Ok(wmidi::MidiMessage::NoteOn(c, n, v)) => {
            Some(NoteMessage::On { channel: c.index(), note: u8::from(n), velocity: u8::from(v) })
        },
        Ok(wmidi::MidiMessage::NoteOff(c, n, v)) => {
            Some(NoteMessage::Off { channel: c.index(), note: u8::from(n), velocity: u8::from(v) })
        },
        _ => None,
    }
}

/// Reads a note message, refusing data bytes that are none.
pub fn read_note_message(bytes: &[u8]) -> (parsed: Option<NoteMessage>)
    ensures
        parsed == strict_note_message(bytes@),
{
    parse_note_message(bytes)
}

/// Reads a note message as the input port's callback does, without a look
/// at the data bytes' range.
pub fn decode_note_message(bytes: &[u8]) -> (parsed: Option<NoteMessage>)
    ensures
        parsed == lenient_note_message(bytes@),
{
    if bytes.len() < 3 {
        return None;
    }
    let status = bytes[0] & 0xF0;
    let channel = bytes[0] & 0x0F;
    if status == 0x90 && bytes[2] != 0 {
        Some(NoteMessage::On { channel, note: bytes[1], velocity: bytes[2] })
    } else if status == 0x90 || status == 0x80 {
        Some(NoteMessage::Off { channel, note: bytes[1], velocity: bytes[2] })
    } else {
        None
    }
}

/// The pad event that a note message on pad `pad` stands for.
pub fn pad_event(message: NoteMessage, pad: u8) -> (event: Event)
    ensures
        event@ == pad_event_of(message, pad),
{
    match message {
        NoteMessage::On { velocity, .. } => if velocity > 0 {
            Event::PadPressed { pad, velocity }
        } else {
            Event::PadReleased { pad, velocity }
        },
        NoteMessage::Off { velocity, .. } => Event::PadReleased { pad, velocity },
    }
}

/// The bytes of a CC message: status `0xBn` for channel `n`, the CC number,
/// the value.
pub fn cc_message(channel: u8, cc: u8, value: u8) -> (bytes: Vec<u8>)
    ensures
        bytes@ == cc_bytes(channel, cc, value),
{
    let mut bytes: Vec<u8> = Vec::new();
    bytes.push(0xB0u8 | (channel & 0x0F));
    bytes.push(cc);
    bytes.push(value);
    assert(bytes@ =~= cc_bytes(channel, cc, value));
    bytes
}

/// What the outbound sink sends when an event comes by: for a parameter
/// whose value changed, its CC message; for everything else, nothing.
pub fn outbound_cc(state: &ProjectState, event: &Event) -> (effect: Option<Effect>)
    ensures
        match effect {
            Some(e) => outbound(state@, event@) == Some(e@),
            None => outbound(state@, event@) is None,
        },
{
    match event {
        Event::CCValueChanged { param_id, value } => {
            if *param_id < state.project.parameters.len() {
                Some(
                    Effect::SendCc {
                        channel: crate::effects::CC_CHANNEL,
                        cc: state.project.parameters[*param_id].cc,
                        value: *value,
                    },
                )
            } else {
                None
            }
        },
        _ => None,
    }
}

/// Where every data byte is one, the two ways of reading a note message
/// agree.
pub proof fn lemma_readers_agree(bytes: Seq<u8>)
    requires
        forall|i: int| 1 <= i < bytes.len() ==> #[trigger] bytes[i] < 0x80,
    ensures
        strict_note_message(bytes) == lenient_note_message(bytes),
{
}

/// On channel 0 a CC message is `[0xB0, cc, value]`.
pub proof fn lemma_cc_bytes_on_first_channel(cc: u8, value: u8)
    ensures
        cc_bytes(0, cc, value) == seq![0xB0u8, cc, value],
{
    assert(0xB0u8 | (0u8 & 0x0F) == 0xB0u8) by (bit_vector);
}

} // verus!
