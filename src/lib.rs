//! Capture, hand-off and spectral analysis of a two-channel audio stream.
//!
//! The verified core: naming and pairing of the audio ports of a node, the
//! bounded single-producer/single-consumer sample ring between the real-time
//! capture callback and the analysis worker, and the integer decisions of the
//! analyzer (configuration checks, when a window can be taken, when to stop).
use vstd::prelude::*;

pub mod ports;
pub mod ring;
pub mod analyzer;

verus! {

} // verus!
