pub mod ai;
pub mod bus;
pub mod color;
pub mod commands;
pub mod controller;
pub mod curve;
pub mod effects;
pub mod events;
pub mod factory;
pub mod launchpad_x;
pub mod leds;
pub mod link;
pub mod midi;
pub mod model;
pub mod model_laws;
pub mod morph;
pub mod morph_laws;
pub mod prompt;
pub mod router;
pub mod strings;
