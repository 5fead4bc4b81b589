use crate::color::Rgb;
use crate::controller::{dark, GenericController, MidiGridController};
use crate::events::Event;
use crate::launchpad_x::LaunchpadX;
use crate::strings::str_equals;
use vstd::prelude::*;

verus! {

/// One of the controllers that the core can drive.
pub enum Controller {
    LaunchpadX(LaunchpadX),
    Generic(GenericController),
}

impl MidiGridController for Controller {
    open spec fn leds(&self) -> Seq<Rgb> {
        match self {
            Controller::LaunchpadX(c) => c.leds(),
            Controller::Generic(c) => c.leds(),
        }
    }

    open spec fn shown(&self) -> Seq<Rgb> {
        match self {
            Controller::LaunchpadX(c) => c.shown(),
            Controller::Generic(c) => c.shown(),
        }
    }

    open spec fn flush_of(&self, leds: Seq<Rgb>, shown: Seq<Rgb>) -> Seq<Seq<u8>> {
        match self {
            Controller::LaunchpadX(c) => c.flush_of(leds, shown),
            Controller::Generic(c) => c.flush_of(leds, shown),
        }
    }

    open spec fn pad_of_note(&self, note: u8) -> Option<u8> {
        match self {
            Controller::LaunchpadX(c) => c.pad_of_note(note),
            Controller::Generic(c) => c.pad_of_note(note),
        }
    }

    fn handle_note_input(&mut self, note: u8, velocity: u8) -> (event: Option<Event>) {
        match self {
            Controller::LaunchpadX(c) => c.handle_note_input(note, velocity),
            Controller::Generic(c) => c.handle_note_input(note, velocity),
        }
    }

    fn set_led(&mut self, pad: u8, color: Rgb) {
        match self {
            Controller::LaunchpadX(c) => c.set_led(pad, color),
            Controller::Generic(c) => c.set_led(pad, color),
        }
    }

    fn clear_leds(&mut self) {
        match self {
            Controller::LaunchpadX(c) => c.clear_leds(),
            Controller::Generic(c) => c.clear_leds(),
        }
    }

    fn refresh_state(&mut self) -> (messages: Vec<Vec<u8>>) {
        match self {
            Controller::LaunchpadX(c) => c.refresh_state(),
            Controller::Generic(c) => c.refresh_state(),
        }
    }

    fn get_name(&self) -> (name: &'static str)
        ensures
            name@ == if self is LaunchpadX {
                "Launchpad X"@
            } else {
                "Generic Controller"@
            },
    {
        match self {
            Controller::LaunchpadX(c) => c.get_name(),
            Controller::Generic(c) => c.get_name(),
        }
    }

    fn send_cc(&mut self, channel: u8, cc: u8, value: u8) -> (messages: Vec<Vec<u8>>)
        ensures
            messages@.len() == 0,
    {
        match self {
            Controller::LaunchpadX(c) => c.send_cc(channel, cc, value),
            Controller::Generic(c) => c.send_cc(channel, cc, value),
        }
    }
}

/// The controller to work with: a Launchpad X where the project names one
/// and the device was found, the generic controller otherwise.
pub fn create_controller(name: &str, device_found: bool) -> (controller: Controller)
    ensures
        controller is LaunchpadX <==> name@ == "Launchpad X"@ && device_found,
        controller.leds() == dark(),
        controller.shown() == dark(),
{
    if device_found && str_equals(name, "Launchpad X") {
        Controller::LaunchpadX(LaunchpadX::new())
    } else {
        Controller::Generic(GenericController::new())
    }
}

/// Whether the controller at hand is not the one that the project names, so
/// that another has to be made.
pub fn needs_new_controller(current: Option<&str>, wanted: &str) -> (yes: bool)
    ensures
        yes == !(current matches Some(name) && name@ == wanted@),
{
    match current {
        Some(name) => !str_equals(name, wanted),
        None => true,
    }
}

} // verus!
