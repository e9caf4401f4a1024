//! Real-time audio pipeline around a streaming neural codec.
//!
//! The library models the producer/consumer core that reconciles three
//! independently clocked actors: the audio hardware callbacks, a background
//! model-inference worker, and a control surface that starts and stops
//! sessions. The codec step functions, the audio device and the GUI are
//! external collaborators: the surrounding binary performs their calls and
//! feeds the outcomes back into the verified state machines defined here.
//!
//! Samples are mono PCM carried as the raw 32-bit pattern of the hardware's
//! sample format; the silent sample is the all-zero pattern.

use vstd::prelude::*;

pub mod capture;
pub mod controller;
pub mod decode;
pub mod encode;
pub mod frame_buffer;
pub mod playback;
pub mod utils;

verus! {

/// The fixed sample rate both streams are opened with, in hertz.
pub const SAMPLE_RATE_HZ: u32 = 24000;

/// The fixed callback period both streams are opened with, in samples:
/// every hardware callback delivers or asks for exactly this many.
pub const CALLBACK_PERIOD: usize = 1920;

/// What a hardware callback tells the audio subsystem on return: keep the
/// stream running, or stop delivering further callbacks.
#[derive(Clone, Copy, PartialEq, Eq, Structural, Debug)]
pub enum CallbackDecision {
    Continue,
    Stop,
}

} // verus!
