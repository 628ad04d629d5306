//! Integer arithmetic and control logic for a timer/counter peripheral:
//! mapping frequencies and duty percentages onto a period/compare register
//! pair, sequencing tone and servo output, and measuring externally
//! generated pulse widths for ultrasonic distance sensing.
//!
//! The library computes decisions and register values only; programming the
//! hardware registers, driving pins and waiting on the tick clock are left
//! to the surrounding platform code.

pub mod adc;
pub mod arith;
pub mod distance;
pub mod error;
pub mod sampler;
pub mod tempo;
pub mod waveform;
