//! Verified core of the Ivylace multiband glue compressor: parameter tables,
//! index and buffer bookkeeping, BPM detection from onsets, the AUTO
//! analysis and knob gesture state machines, the colour palette of the
//! editor and the decoding of its logo. Everything that computes on
//! floating-point samples lives in the application crate around this
//! library.

pub mod oversampling;
pub mod spectrum;
pub mod auto;
pub mod shared;
pub mod theme;
pub mod detect;
pub mod control;
pub mod knob;
pub mod fft;
pub mod logo;
