use crate::color::Rgb;
use crate::controller::{dark, messages_view, LedBuffer, MidiGridController};
use crate::events::Event;
use crate::midi::{pad_event, pad_event_of, read_note_message, strict_note_message, NoteMessage};
use crate::router::GRID_PADS;
use crate::strings::{contains_text, str_contains};
use vstd::prelude::*;

verus! {

/// The note of pad `pad` in programmer mode: tens count the rows from the
/// bottom (1 to 8), units the columns from the left (1 to 8).
pub open spec fn note_of_pad(pad: int) -> int {
    10 * (8 - pad / 8) + pad % 8 + 1
}

/// The pad of a note in programmer mode, for the notes of the 8 x 8 grid.
pub open spec fn pad_of(note: u8) -> Option<u8> {
    if 11 <= note <= 88 && 1 <= note % 10 <= 8 {
        Some(((8 - note / 10) * 8 + note % 10 - 1) as u8)
    } else {
        None
    }
}

/// How far a channel is turned up, in thirds, rounded down: 0 to 3.
pub open spec fn thirds(channel: u8) -> int {
    channel as int / 85
}

/// The entry of the device's colour table that stands for `color`.
///
/// Off and nearly off are 0; clear green, red and yellow have fixed entries
/// (21, 5, 13); white is 0; any other colour goes by its strongest channel,
/// from 5 for red, 17 for green, 45 for blue, plus that channel's thirds; a
/// colour without a strongest channel is 0.
pub open spec fn velocity_of(color: Rgb) -> int {
    let Rgb { r, g, b } = color;
    if r <= 20 && g <= 20 && b <= 20 {
        0
    } else if g > 200 && r < 100 && b < 100 {
        21
    } else if r > 200 && g < 100 && b < 100 {
        5
    } else if r > 200 && g > 200 && b < 100 {
        13
    } else if r > 200 && g > 200 && b > 200 {
        0
    } else if r > g && r > b {
        5 + thirds(r)
    } else if g > r && g > b {
        17 + thirds(g)
    } else if b > r && b > g {
        45 + thirds(b)
    } else {
        0
    }
}

/// The note-on message that sets the colour of one pad.
pub open spec fn led_message(pad: int, color: Rgb) -> Seq<u8> {
    seq![0x90u8, note_of_pad(pad) as u8, velocity_of(color) as u8]
}

/// Whether pad `pad` shows another colour than the one that is buffered.
pub open spec fn stale(leds: Seq<Rgb>, shown: Seq<Rgb>, pad: int) -> bool {
    0 <= pad < leds.len() && (pad >= shown.len() || shown[pad] != leds[pad])
}

/// The messages that bring the first `n` pads up to date, by pad.
pub open spec fn flush_upto(leds: Seq<Rgb>, shown: Seq<Rgb>, n: nat) -> Seq<Seq<u8>>
    decreases n,
{
    if n == 0 {
        Seq::empty()
    } else {
        let before = flush_upto(leds, shown, (n - 1) as nat);
        if stale(leds, shown, n - 1) {
            before.push(led_message(n - 1, leds[n - 1]))
        } else {
            before
        }
    }
}

/// One message for every pad that shows another colour than the one
/// buffered, by pad; a pad that is up to date gets none.
pub open spec fn flush_messages(leds: Seq<Rgb>, shown: Seq<Rgb>) -> Seq<Seq<u8>> {
    flush_upto(leds, shown, if leds.len() <= GRID_PADS {
        leds.len()
    } else {
        GRID_PADS as nat
    })
}

/// The message that switches programmer mode on or off.
pub open spec fn mode_message(programmer: bool) -> Seq<u8> {
    seq![
        0xF0u8,
        0x00u8,
        0x20u8,
        0x29u8,
        0x02u8,
        0x0Cu8,
        0x0Eu8,
        if programmer {
            0x01u8
        } else {
            0x00u8
        },
        0xF7u8,
    ]
}

/// The message that sets one pad to a colour by its three channels.
pub open spec fn rgb_message(pad: u8, color: Rgb) -> Seq<u8> {
    seq![
        0xF0u8,
        0x00u8,
        0x20u8,
        0x29u8,
        0x02u8,
        0x0Cu8,
        0x03u8,
        pad,
        color.r,
        color.g,
        color.b,
        0xF7u8,
    ]
}

/// The messages that turn every pad off, row by row from the top.
pub open spec fn all_off_messages() -> Seq<Seq<u8>> {
    Seq::new(GRID_PADS as nat, |pad: int| seq![0x90u8, note_of_pad(pad) as u8, 0u8])
}

/// Whether a port of that name is one to take at first sight: it names the
/// controller and says that it is its MIDI port.
pub open spec fn is_midi_port_of(port: Option<Seq<char>>, name: Seq<char>) -> bool {
    port matches Some(p) && contains_text(p, name) && contains_text(p, "MIDI"@)
}

/// Whether a port of that name names the controller.
pub open spec fn is_port_of(port: Option<Seq<char>>, name: Seq<char>) -> bool {
    port matches Some(p) && contains_text(p, name)
}

/// The views of the names of a run of ports; a port whose name cannot be
/// had has none.
pub open spec fn port_names(ports: Seq<Option<String>>) -> Seq<Option<Seq<char>>> {
    ports.map_values(
        |p: Option<String>|
            match p {
                Some(name) => Some(name@),
                None => None,
            },
    )
}

/// Whether `found` is the first port that `wanted` holds of, or nothing
/// where it holds of none.
pub open spec fn is_first<T>(ports: Seq<T>, wanted: spec_fn(T) -> bool, found: Option<usize>)
    -> bool {
    match found {
        Some(i) => i < ports.len() && wanted(ports[i as int]) && forall|k: int|
            0 <= k < i ==> !wanted(#[trigger] ports[k]),
        None => forall|k: int| 0 <= k < ports.len() ==> !wanted(#[trigger] ports[k]),
    }
}

/// The row and column of a pad, from the top left.
pub fn pad_to_row_col(pad: u8) -> (position: (usize, usize))
    ensures
        position.0 == pad / 8,
        position.1 == pad % 8,
{
    ((pad / 8) as usize, (pad % 8) as usize)
}

/// The pad of a note in programmer mode, for the notes of the 8 x 8 grid.
pub fn note_to_pad_index(note: u8) -> (pad: Option<u8>)
    ensures
        pad == pad_of(note),
        pad matches Some(p) ==> p < GRID_PADS,
{
    if note >= 11 && note <= 99 {
        let tens = note / 10;
        let units = note % 10;
        if units >= 1 && units <= 8 && tens <= 8 {
            let row = tens - 1;
            let col = units - 1;
            return Some((7 - row) * 8 + col);
        }
    }
    None
}

/// The note of pad `pad` in programmer mode.
pub fn pad_to_note(pad: u8) -> (note: u8)
    requires
        pad < GRID_PADS,
    ensures
        note == note_of_pad(pad as int),
        11 <= note <= 88,
{
    let row = pad / 8;
    let col = pad % 8;
    10 * (8 - row) + (col + 1)
}

/// The note of the pad in row `row` and column `col`, from the top left; 0
/// for a position beyond the grid.
pub fn rc_to_pad(row: usize, col: usize) -> (note: u8)
    ensures
        note == if row > 7 || col > 7 {
            0
        } else {
            note_of_pad(row * 8 + col)
        },
{
    if row > 7 || col > 7 {
        return 0;
    }
    (10 * (8 - row) + (col + 1)) as u8
}

/// The entry of the device's colour table that stands for `color`.
pub fn rgb_to_velocity(color: Rgb) -> (velocity: u8)
    ensures
        velocity == velocity_of(color),
        velocity <= 48,
{
    if color.r <= 20 && color.g <= 20 && color.b <= 20 {
        return 0;
    }
    if color.g > 200 && color.r < 100 && color.b < 100 {
        return 21;
    }
    if color.r > 200 && color.g < 100 && color.b < 100 {
        return 5;
    }
    if color.r > 200 && color.g > 200 && color.b < 100 {
        return 13;
    }
    if color.r > 200 && color.g > 200 && color.b > 200 {
        return 0;
    }
    if color.r > color.g && color.r > color.b {
        return 5 + color.r / 85;
    }
    if color.g > color.r && color.g > color.b {
        return 17 + color.g / 85;
    }
    if color.b > color.r && color.b > color.g {
        return 45 + color.b / 85;
    }
    0
}

/// The message that switches programmer mode on or off.
pub fn programmer_mode_message(programmer: bool) -> (message: Vec<u8>)
    ensures
        message@ == mode_message(programmer),
{
    let mut message: Vec<u8> = Vec::new();
    message.push(0xF0);
    message.push(0x00);
    message.push(0x20);
    message.push(0x29);
    message.push(0x02);
    message.push(0x0C);
    message.push(0x0E);
    message.push(if programmer {
        0x01
    } else {
        0x00
    });
    message.push(0xF7);
    assert(message@ =~= mode_message(programmer));
    message
}

/// The message that sets one pad to a colour by its three channels.
pub fn send_rgb_color(pad: u8, color: Rgb) -> (message: Vec<u8>)
    ensures
        message@ == rgb_message(pad, color),
{
    let mut message: Vec<u8> = Vec::new();
    message.push(0xF0);
    message.push(0x00);
    message.push(0x20);
    message.push(0x29);
    message.push(0x02);
    message.push(0x0C);
    message.push(0x03);
    message.push(pad);
    message.push(color.r);
    message.push(color.g);
    message.push(color.b);
    message.push(0xF7);
    assert(message@ =~= rgb_message(pad, color));
    message
}

/// The three bytes of a note-on on channel 0.
fn note_on(note: u8, velocity: u8) -> (message: Vec<u8>)
    ensures
        message@ == seq![0x90u8, note, velocity],
{
    let mut message: Vec<u8> = Vec::new();
    message.push(0x90);
    message.push(note);
    message.push(velocity);
    assert(message@ =~= seq![0x90u8, note, velocity]);
    message
}

/// The messages that turn every pad off, row by row from the top.
pub fn clear_leds_internal() -> (messages: Vec<Vec<u8>>)
    ensures
        messages_view(messages@) == all_off_messages(),
{
    let mut messages: Vec<Vec<u8>> = Vec::new();
    let mut pad: u8 = 0;
    while pad < GRID_PADS
        invariant
            pad <= GRID_PADS,
            messages@.len() == pad,
            forall|k: int|
                0 <= k < pad ==> messages@[k]@ == seq![0x90u8, note_of_pad(k) as u8, 0u8],
        decreases GRID_PADS - pad,
    {
        let (row, col) = pad_to_row_col(pad);
        let note = rc_to_pad(row, col);
        assert(row * 8 + col == pad);
        messages.push(note_on(note, 0));
        pad += 1;
    }
    assert(messages_view(messages@) =~= all_off_messages());
    messages
}

/// The first port that names the controller and says it is its MIDI port;
/// failing that, the first that names the controller.
pub fn find_launchpad_port(ports: &Vec<Option<String>>, name: &str) -> (found: Option<usize>)
    ensures
        (exists|k: int|
            0 <= k < ports@.len() && is_midi_port_of(#[trigger] port_names(ports@)[k], name@))
            ==> is_first(
            port_names(ports@),
            |p: Option<Seq<char>>| is_midi_port_of(p, name@),
            found,
        ),
        !(exists|k: int|
            0 <= k < ports@.len() && is_midi_port_of(#[trigger] port_names(ports@)[k], name@))
            ==> is_first(port_names(ports@), |p: Option<Seq<char>>| is_port_of(p, name@), found),
{
    let mut i: usize = 0;
    while i < ports.len()
        invariant
            i <= ports.len(),
            forall|k: int| 0 <= k < i ==> !is_midi_port_of(#[trigger] port_names(ports@)[k], name@),
        decreases ports.len() - i,
    {
        let hit = match &ports[i] {
            Some(port) => str_contains(port.as_str(), name) && str_contains(port.as_str(), "MIDI"),
            None => false,
        };
        assert(hit == is_midi_port_of(port_names(ports@)[i as int], name@));
        if hit {
            return Some(i);
        }
        i += 1;
    }
    find_port(ports, name)
}

/// The first port that names the controller.
pub fn find_port(ports: &Vec<Option<String>>, name: &str) -> (found: Option<usize>)
    ensures
        is_first(port_names(ports@), |p: Option<Seq<char>>| is_port_of(p, name@), found),
{
    let mut i: usize = 0;
    while i < ports.len()
        invariant
            i <= ports.len(),
            forall|k: int| 0 <= k < i ==> !is_port_of(#[trigger] port_names(ports@)[k], name@),
        decreases ports.len() - i,
    {
        let hit = match &ports[i] {
            Some(port) => str_contains(port.as_str(), name),
            None => false,
        };
        assert(hit == is_port_of(port_names(ports@)[i as int], name@));
        if hit {
            return Some(i);
        }
        i += 1;
    }
    None
}

/// A Launchpad X in programmer mode: what its pads are to show, and what
/// they show.
pub struct LaunchpadX {
    led_buffer: LedBuffer,
    shown: LedBuffer,
}

impl LaunchpadX {
    /// A device that was just switched to programmer mode and cleared.
    pub fn new() -> (controller: LaunchpadX)
        ensures
            controller.leds() == dark(),
            controller.shown() == dark(),
    {
        LaunchpadX { led_buffer: LedBuffer::new(), shown: LedBuffer::new() }
    }

    /// The messages that prepare the device: programmer mode on, every pad
    /// off.
    pub fn initialize(&self) -> (messages: Vec<Vec<u8>>)
        ensures
            messages_view(messages@) == seq![mode_message(true)] + all_off_messages(),
    {
        let mut messages: Vec<Vec<u8>> = Vec::new();
        messages.push(programmer_mode_message(true));
        let mut off = clear_leds_internal();
        let ghost off_view = messages_view(off@);
        messages.append(&mut off);
        assert(messages_view(messages@) =~= seq![mode_message(true)] + off_view);
        messages
    }

    /// The messages that leave the device as it was found: every pad off,
    /// programmer mode off.
    pub fn release(&self) -> (messages: Vec<Vec<u8>>)
        ensures
            messages_view(messages@) == all_off_messages().push(mode_message(false)),
    {
        let mut messages = clear_leds_internal();
        let ghost off_view = messages_view(messages@);
        messages.push(programmer_mode_message(false));
        assert(messages_view(messages@) =~= off_view.push(mode_message(false)));
        messages
    }

    /// Turns the bytes that the device sent into the pad event to publish:
    /// a note-on of a grid pad is a press, a note-off a release. Anything
    /// else is nothing.
    pub fn decode_input(&self, bytes: &[u8]) -> (event: Option<Event>)
        ensures
            match event {
                Some(e) => strict_note_message(bytes@) matches Some(message) && pad_of(
                    note_of(message),
                ) matches Some(pad) && e@ == pad_event_of(message, pad),
                None => strict_note_message(bytes@) matches Some(message) ==> pad_of(
                    note_of(message),
                ) is None,
            },
    {
        match read_note_message(bytes) {
            Some(message) => {
                let note = match message {
                    NoteMessage::On { note, .. } => note,
                    NoteMessage::Off { note, .. } => note,
                };
                match note_to_pad_index(note) {
                    Some(pad) => Some(pad_event(message, pad)),
                    None => None,
                }
            },
            None => None,
        }
    }
}

/// The note of a note message.
pub open spec fn note_of(message: NoteMessage) -> u8 {
    match message {
        NoteMessage::On { note, .. } => note,
        NoteMessage::Off { note, .. } => note,
    }
}

impl MidiGridController for LaunchpadX {
    closed spec fn leds(&self) -> Seq<Rgb> {
        self.led_buffer@
    }

    closed spec fn shown(&self) -> Seq<Rgb> {
        self.shown@
    }

    /// One note-on for every pad that shows another colour than it is to
    /// show, by pad.
    open spec fn flush_of(&self, leds: Seq<Rgb>, shown: Seq<Rgb>) -> Seq<Seq<u8>> {
        flush_messages(leds, shown)
    }

    open spec fn pad_of_note(&self, note: u8) -> Option<u8> {
        pad_of(note)
    }

    fn handle_note_input(&mut self, note: u8, velocity: u8) -> (event: Option<Event>) {
        match note_to_pad_index(note) {
            Some(pad) => if velocity > 0 {
                Some(Event::PadPressed { pad, velocity })
            } else {
                Some(Event::PadReleased { pad, velocity })
            },
            None => None,
        }
    }

    fn set_led(&mut self, pad: u8, color: Rgb) {
        self.led_buffer.set(pad, color);
    }

    fn clear_leds(&mut self) {
        self.led_buffer = LedBuffer::new();
    }

    /// One note-on for every pad whose colour changed since the last
    /// refresh, by pad; after it the device shows what is buffered.
    fn refresh_state(&mut self) -> (messages: Vec<Vec<u8>>) {
        let mut messages: Vec<Vec<u8>> = Vec::new();
        let ghost leds = self.led_buffer@;
        let ghost shown = self.shown@;
        let mut fresh = LedBuffer::new();
        let cells = self.led_buffer.len();
        let mut pad: u8 = 0;
        while pad < GRID_PADS
            invariant
                pad <= GRID_PADS,
                leds.len() == GRID_PADS,
                self.led_buffer@ == leds,
                self.shown@ == shown,
                fresh@.len() == GRID_PADS,
                forall|j: int| 0 <= j < pad ==> fresh@[j] == leds[j],
                messages_view(messages@) == flush_upto(leds, shown, pad as nat),
            decreases GRID_PADS - pad,
        {
            let color = self.led_buffer.get(pad);
            let seen = self.shown.get(pad);
            let differs = seen.r != color.r || seen.g != color.g || seen.b != color.b;
            assert(differs == stale(leds, shown, pad as int));
            if differs {
                let ghost before = messages@;
                let message = note_on(pad_to_note(pad), rgb_to_velocity(color));
                messages.push(message);
                assert(messages_view(before.push(message)) =~= messages_view(before).push(
                    message@,
                ));
            }
            fresh.set(pad, color);
            pad += 1;
        }
        assert(fresh@ =~= leds);
        self.shown = fresh;
        messages
    }

    fn get_name(&self) -> (name: &'static str)
        ensures
            name@ == "Launchpad X"@,
    {
        "Launchpad X"
    }

    fn send_cc(&mut self, channel: u8, cc: u8, value: u8) -> (messages: Vec<Vec<u8>>)
        ensures
            messages@.len() == 0,
    {
        Vec::new()
    }
}

/// Going to a note and back gives the pad again.
pub proof fn lemma_pad_note_round_trip(pad: u8)
    requires
        pad < GRID_PADS,
    ensures
        pad_of(note_of_pad(pad as int) as u8) == Some(pad),
{
}

/// Going to a pad and back gives the note again.
pub proof fn lemma_note_pad_round_trip(note: u8)
    requires
        pad_of(note) is Some,
    ensures
        note_of_pad(pad_of(note)->0 as int) == note,
{
}

} // verus!
