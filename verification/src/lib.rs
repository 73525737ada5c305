//! Decoding and playback logic for a pulse-distance infrared link driven by a
//! microcontroller: the edge-timing decoder, the collector that turns decoded
//! bits into text, the silence detector and sample scheduler of the
//! transmitter, and the small control loops of the demo programs.

pub mod bits;
pub mod button_led;
pub mod clock;
pub mod infrared;
pub mod text;
pub mod transmit;

pub use clock::{current_micro, current_nano};
