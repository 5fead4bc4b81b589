use crate::color::Rgb;
use crate::events::{Event, EventView};
use crate::leds::{led_color, led_for_pad, led_layout, morph_progress_color, progress_color};
use crate::model::ProjectState;
use crate::router::GRID_PADS;
use vstd::prelude::*;

verus! {

/// The event that a note on pad `pad` stands for: a press with a velocity
/// above 0, a release with velocity 0.
pub open spec fn input_event(pad: u8, velocity: u8) -> EventView {
    if velocity > 0 {
        EventView::PadPressed { pad, velocity }
    } else {
        EventView::PadReleased { pad, velocity }
    }
}

/// `leds` with the colour of pad `pad` replaced; a pad beyond the grid
/// changes nothing.
pub open spec fn with_led(leds: Seq<Rgb>, pad: u8, color: Rgb) -> Seq<Rgb> {
    if pad < leds.len() {
        leds.update(pad as int, color)
    } else {
        leds
    }
}

/// All 64 LEDs off.
pub open spec fn dark() -> Seq<Rgb> {
    Seq::new(GRID_PADS as nat, |pad: int| Rgb { r: 0, g: 0, b: 0 })
}

/// The views of a run of messages.
pub open spec fn messages_view(messages: Seq<Vec<u8>>) -> Seq<Seq<u8>> {
    messages.map_values(|m: Vec<u8>| m@)
}

/// Whether two controllers speak to their device in the same way: for the
/// same colours to show and the same colours shown they send the same
/// messages.
pub open spec fn same_device<C: MidiGridController>(a: &C, b: &C) -> bool {
    forall|leds: Seq<Rgb>, shown: Seq<Rgb>|
        #![trigger a.flush_of(leds, shown)]
        #![trigger b.flush_of(leds, shown)]
        a.flush_of(leds, shown) == b.flush_of(leds, shown)
}

/// What the core asks of a grid controller: to turn the device's notes into
/// pad events, to buffer LED colours, and to hand out the bytes that bring
/// the device up to date.
pub trait MidiGridController: Sized {
    /// The colours that were set, by pad.
    spec fn leds(&self) -> Seq<Rgb>;

    /// The colours that the device shows: those of the last refresh.
    spec fn shown(&self) -> Seq<Rgb>;

    /// The messages that bring a device that shows `shown` to show `leds`.
    spec fn flush_of(&self, leds: Seq<Rgb>, shown: Seq<Rgb>) -> Seq<Seq<u8>>;

    /// The pad (0 to 63, row by row from the top left) that the device's note
    /// number stands for.
    spec fn pad_of_note(&self, note: u8) -> Option<u8>;

    /// Turns a note that the device sent into the pad event to publish.
    fn handle_note_input(&mut self, note: u8, velocity: u8) -> (event: Option<Event>)
        ensures
            final(self).leds() == old(self).leds(),
            final(self).shown() == old(self).shown(),
            forall|leds: Seq<Rgb>, shown: Seq<Rgb>|
                #![trigger final(self).flush_of(leds, shown)]
                #![trigger old(self).flush_of(leds, shown)]
                final(self).flush_of(leds, shown) == old(self).flush_of(leds, shown),
            match event {
                Some(e) => old(self).pad_of_note(note) matches Some(pad) && e@ == input_event(
                    pad,
                    velocity,
                ),
                None => old(self).pad_of_note(note) is None,
            },
    ;

    /// Buffers the colour of one pad; nothing is sent yet.
    fn set_led(&mut self, pad: u8, color: Rgb)
        ensures
            final(self).leds() == with_led(old(self).leds(), pad, color),
            final(self).shown() == old(self).shown(),
            forall|leds: Seq<Rgb>, shown: Seq<Rgb>|
                #![trigger final(self).flush_of(leds, shown)]
                #![trigger old(self).flush_of(leds, shown)]
                final(self).flush_of(leds, shown) == old(self).flush_of(leds, shown),
    ;

    /// Buffers every pad as off; nothing is sent yet.
    fn clear_leds(&mut self)
        ensures
            final(self).leds() == dark(),
            final(self).shown() == old(self).shown(),
            forall|leds: Seq<Rgb>, shown: Seq<Rgb>|
                #![trigger final(self).flush_of(leds, shown)]
                #![trigger old(self).flush_of(leds, shown)]
                final(self).flush_of(leds, shown) == old(self).flush_of(leds, shown),
    ;

    /// Hands out the messages that make the device show what is buffered;
    /// after it the device shows that.
    fn refresh_state(&mut self) -> (messages: Vec<Vec<u8>>)
        ensures
            messages_view(messages@) == old(self).flush_of(old(self).leds(), old(self).shown()),
            final(self).leds() == old(self).leds(),
            final(self).shown() == old(self).leds(),
            forall|leds: Seq<Rgb>, shown: Seq<Rgb>|
                #![trigger final(self).flush_of(leds, shown)]
                #![trigger old(self).flush_of(leds, shown)]
                final(self).flush_of(leds, shown) == old(self).flush_of(leds, shown),
    ;

    fn get_name(&self) -> (name: &'static str)
    ;

    /// Hands out the messages that pass a CC on through the device, if it
    /// does that.
    fn send_cc(&mut self, channel: u8, cc: u8, value: u8) -> (messages: Vec<Vec<u8>>)
        ensures
            final(self).leds() == old(self).leds(),
            final(self).shown() == old(self).shown(),
            forall|leds: Seq<Rgb>, shown: Seq<Rgb>|
                #![trigger final(self).flush_of(leds, shown)]
                #![trigger old(self).flush_of(leds, shown)]
                final(self).flush_of(leds, shown) == old(self).flush_of(leds, shown),
    ;

    /// Buffers the colour of a progress pad.
    fn set_progress_led(&mut self, pad: u8, progress: u32)
        ensures
            final(self).leds() == with_led(old(self).leds(), pad, progress_color(progress)),
            final(self).shown() == old(self).shown(),
            forall|leds: Seq<Rgb>, shown: Seq<Rgb>|
                #![trigger final(self).flush_of(leds, shown)]
                #![trigger old(self).flush_of(leds, shown)]
                final(self).flush_of(leds, shown) == old(self).flush_of(leds, shown),
    {
        self.set_led(pad, morph_progress_color(progress));
    }

    /// Buffers the colour of a morph's target.
    fn set_morph_target_led(&mut self, pad: u8)
        ensures
            final(self).leds() == with_led(old(self).leds(), pad, Rgb { r: 128, g: 0, b: 128 }),
            final(self).shown() == old(self).shown(),
            forall|leds: Seq<Rgb>, shown: Seq<Rgb>|
                #![trigger final(self).flush_of(leds, shown)]
                #![trigger old(self).flush_of(leds, shown)]
                final(self).flush_of(leds, shown) == old(self).flush_of(leds, shown),
    {
        self.set_led(pad, Rgb::purple());
    }

    /// Buffers the colour of the held modifier.
    fn set_active_modifier_led(&mut self, pad: u8)
        ensures
            final(self).leds() == with_led(old(self).leds(), pad, Rgb { r: 0, g: 255, b: 0 }),
            final(self).shown() == old(self).shown(),
            forall|leds: Seq<Rgb>, shown: Seq<Rgb>|
                #![trigger final(self).flush_of(leds, shown)]
                #![trigger old(self).flush_of(leds, shown)]
                final(self).flush_of(leds, shown) == old(self).flush_of(leds, shown),
    {
        self.set_led(pad, Rgb::green());
    }
}

/// Redraws every LED of `controller` for `state`: buffers the layout that
/// the state asks for, then refreshes, and hands out the messages that bring
/// the device from what it showed to that layout.
pub fn update_controller_leds<C: MidiGridController>(
    controller: &mut C,
    state: &ProjectState,
) -> (messages: Vec<Vec<u8>>)
    ensures
        final(controller).leds() == led_layout(state@),
        final(controller).shown() == led_layout(state@),
        messages_view(messages@) == old(controller).flush_of(
            led_layout(state@),
            old(controller).shown(),
        ),
        same_device(old(controller), final(controller)),
{
    let ghost before = *controller;
    controller.clear_leds();
    let mut pad: u8 = 0;
    while pad < GRID_PADS
        invariant
            pad <= GRID_PADS,
            controller.leds().len() == GRID_PADS,
            controller.shown() == before.shown(),
            same_device(&before, controller),
            forall|k: int| 0 <= k < pad ==> controller.leds()[k] == led_color(state@, k),
        decreases GRID_PADS - pad,
    {
        controller.set_led(pad, led_for_pad(state, pad));
        pad += 1;
    }
    assert(controller.leds() =~= led_layout(state@));
    controller.refresh_state()
}

/// The colours of the 64 pads, as they were set.
pub struct LedBuffer {
    cells: Vec<Rgb>,
}

impl View for LedBuffer {
    type V = Seq<Rgb>;

    closed spec fn view(&self) -> Seq<Rgb> {
        self.cells@
    }
}

impl LedBuffer {
    #[verifier::type_invariant]
    spec fn sized(self) -> bool {
        self.cells@.len() == GRID_PADS
    }

    /// 64 pads, all off.
    pub fn new() -> (buffer: LedBuffer)
        ensures
            buffer@ == dark(),
    {
        let mut cells: Vec<Rgb> = Vec::new();
        let mut pad: u8 = 0;
        while pad < GRID_PADS
            invariant
                pad <= GRID_PADS,
                cells@.len() == pad,
                forall|k: int| 0 <= k < pad ==> cells@[k] == (Rgb { r: 0, g: 0, b: 0 }),
            decreases GRID_PADS - pad,
        {
            cells.push(Rgb::black());
            pad += 1;
        }
        assert(cells@ =~= dark());
        LedBuffer { cells }
    }

    /// Sets the colour of one pad; a pad beyond the grid is left out.
    pub fn set(&mut self, pad: u8, color: Rgb)
        ensures
            final(self)@ == with_led(old(self)@, pad, color),
            final(self)@.len() == GRID_PADS,
    {
        proof {
            use_type_invariant(&*self);
        }
        if (pad as usize) < self.cells.len() {
            self.cells[pad as usize] = color;
        }
    }

    /// The colour of one pad; off for a pad beyond the grid.
    pub fn get(&self, pad: u8) -> (color: Rgb)
        ensures
            color == if pad < GRID_PADS {
                self@[pad as int]
            } else {
                Rgb { r: 0, g: 0, b: 0 }
            },
            self@.len() == GRID_PADS,
    {
        proof {
            use_type_invariant(self);
        }
        if (pad as usize) < self.cells.len() {
            self.cells[pad as usize]
        } else {
            Rgb::black()
        }
    }

    /// The same colours in a buffer of their own.
    pub fn copy(&self) -> (buffer: LedBuffer)
        ensures
            buffer@ == self@,
    {
        proof {
            use_type_invariant(self);
        }
        let cells = self.cells.clone();
        assert(cells@ =~= self.cells@);
        LedBuffer { cells }
    }

    /// The number of pads: 64.
    pub fn len(&self) -> (n: usize)
        ensures
            n == self@.len(),
            n == GRID_PADS,
    {
        proof {
            use_type_invariant(self);
        }
        self.cells.len()
    }
}

/// A note of a device whose notes are its pads: notes 0 to 63.
pub open spec fn plain_pad(note: u8) -> Option<u8> {
    if note < GRID_PADS {
        Some(note)
    } else {
        None
    }
}

/// The pad event of a device whose notes are its pads.
fn plain_note_input(note: u8, velocity: u8) -> (event: Option<Event>)
    ensures
        match event {
            Some(e) => plain_pad(note) matches Some(pad) && e@ == input_event(pad, velocity),
            None => plain_pad(note) is None,
        },
{
    if note >= GRID_PADS {
        None
    } else if velocity > 0 {
        Some(Event::PadPressed { pad: note, velocity })
    } else {
        Some(Event::PadReleased { pad: note, velocity })
    }
}

/// A grid that exists in memory only: for work without hardware, and the
/// fallback where a device cannot be reached.
pub struct GenericController {
    led_state: LedBuffer,
    shown: LedBuffer,
}

impl GenericController {
    pub fn new() -> (controller: GenericController)
        ensures
            controller.leds() == dark(),
            controller.shown() == dark(),
    {
        GenericController { led_state: LedBuffer::new(), shown: LedBuffer::new() }
    }

    /// The press of a pad that nobody pressed.
    pub fn simulate_pad_press(&self, pad: u8, velocity: u8) -> (event: Event)
        ensures
            event@ == (EventView::PadPressed { pad, velocity }),
    {
        Event::PadPressed { pad, velocity }
    }

    /// The colours of all pads, for drawing them.
    pub fn get_led_state(&self) -> (leds: &LedBuffer)
        ensures
            leds@ == self.leds(),
    {
        &self.led_state
    }
}

impl MidiGridController for GenericController {
    closed spec fn leds(&self) -> Seq<Rgb> {
        self.led_state@
    }

    closed spec fn shown(&self) -> Seq<Rgb> {
        self.shown@
    }

    /// Nothing is sent: there is no device.
    open spec fn flush_of(&self, leds: Seq<Rgb>, shown: Seq<Rgb>) -> Seq<Seq<u8>> {
        Seq::empty()
    }

    open spec fn pad_of_note(&self, note: u8) -> Option<u8> {
        plain_pad(note)
    }

    fn handle_note_input(&mut self, note: u8, velocity: u8) -> (event: Option<Event>) {
        plain_note_input(note, velocity)
    }

    fn set_led(&mut self, pad: u8, color: Rgb) {
        self.led_state.set(pad, color);
    }

    fn clear_leds(&mut self) {
        self.led_state = LedBuffer::new();
    }

    fn refresh_state(&mut self) -> (messages: Vec<Vec<u8>>)
        ensures
            messages@.len() == 0,
    {
        self.shown = self.led_state.copy();
        let messages: Vec<Vec<u8>> = Vec::new();
        assert(messages_view(messages@) =~= Seq::<Seq<u8>>::empty());
        messages
    }

    fn get_name(&self) -> (name: &'static str)
        ensures
            name@ == "Generic Controller"@,
    {
        "Generic Controller"
    }

    fn send_cc(&mut self, channel: u8, cc: u8, value: u8) -> (messages: Vec<Vec<u8>>)
        ensures
            messages@.len() == 0,
    {
        Vec::new()
    }
}

/// An APC Mini, as far as the core knows it: its notes are its pads, and
/// nothing is sent to it.
pub struct ApcMini {
    led_state: LedBuffer,
    shown: LedBuffer,
}

impl ApcMini {
    pub fn new() -> (controller: ApcMini)
        ensures
            controller.leds() == dark(),
            controller.shown() == dark(),
    {
        ApcMini { led_state: LedBuffer::new(), shown: LedBuffer::new() }
    }
}

impl MidiGridController for ApcMini {
    closed spec fn leds(&self) -> Seq<Rgb> {
        self.led_state@
    }

    closed spec fn shown(&self) -> Seq<Rgb> {
        self.shown@
    }

    /// Nothing is sent: there is no device.
    open spec fn flush_of(&self, leds: Seq<Rgb>, shown: Seq<Rgb>) -> Seq<Seq<u8>> {
        Seq::empty()
    }

    open spec fn pad_of_note(&self, note: u8) -> Option<u8> {
        plain_pad(note)
    }

    fn handle_note_input(&mut self, note: u8, velocity: u8) -> (event: Option<Event>) {
        plain_note_input(note, velocity)
    }

    fn set_led(&mut self, pad: u8, color: Rgb) {
        self.led_state.set(pad, color);
    }

    fn clear_leds(&mut self) {
        self.led_state = LedBuffer::new();
    }

    fn refresh_state(&mut self) -> (messages: Vec<Vec<u8>>)
        ensures
            messages@.len() == 0,
    {
        self.shown = self.led_state.copy();
        let messages: Vec<Vec<u8>> = Vec::new();
        assert(messages_view(messages@) =~= Seq::<Seq<u8>>::empty());
        messages
    }

    fn get_name(&self) -> (name: &'static str)
        ensures
            name@ == "APC Mini"@,
    {
        "APC Mini"
    }

    fn send_cc(&mut self, channel: u8, cc: u8, value: u8) -> (messages: Vec<Vec<u8>>)
        ensures
            messages@.len() == 0,
    {
        Vec::new()
    }
}

/// A Push 2, as far as the core knows it: its notes are its pads, and
/// nothing is sent to it.
pub struct Push2 {
    led_state: LedBuffer,
    shown: LedBuffer,
}

impl Push2 {
    pub fn new() -> (controller: Push2)
        ensures
            controller.leds() == dark(),
            controller.shown() == dark(),
    {
        Push2 { led_state: LedBuffer::new(), shown: LedBuffer::new() }
    }
}

impl MidiGridController for Push2 {
    closed spec fn leds(&self) -> Seq<Rgb> {
        self.led_state@
    }

    closed spec fn shown(&self) -> Seq<Rgb> {
        self.shown@
    }

    /// Nothing is sent: there is no device.
    open spec fn flush_of(&self, leds: Seq<Rgb>, shown: Seq<Rgb>) -> Seq<Seq<u8>> {
        Seq::empty()
    }

    open spec fn pad_of_note(&self, note: u8) -> Option<u8> {
        plain_pad(note)
    }

    fn handle_note_input(&mut self, note: u8, velocity: u8) -> (event: Option<Event>) {
        plain_note_input(note, velocity)
    }

    fn set_led(&mut self, pad: u8, color: Rgb) {
        self.led_state.set(pad, color);
    }

    fn clear_leds(&mut self) {
        self.led_state = LedBuffer::new();
    }

    fn refresh_state(&mut self) -> (messages: Vec<Vec<u8>>)
        ensures
            messages@.len() == 0,
    {
        self.shown = self.led_state.copy();
        let messages: Vec<Vec<u8>> = Vec::new();
        assert(messages_view(messages@) =~= Seq::<Seq<u8>>::empty());
        messages
    }

    fn get_name(&self) -> (name: &'static str)
        ensures
            name@ == "Push 2"@,
    {
        "Push 2"
    }

    fn send_cc(&mut self, channel: u8, cc: u8, value: u8) -> (messages: Vec<Vec<u8>>)
        ensures
            messages@.len() == 0,
    {
        Vec::new()
    }
}

} // verus!
