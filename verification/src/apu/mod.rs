pub mod envelope;
pub mod frame_counter;
pub mod length_counter;
pub mod pulse;
pub mod sequencer;
pub mod sweep;
pub mod triangle;

use vstd::prelude::*;

verus! {

/// A sound channel that produces a signal level.
pub trait Mixer {
    fn signal(&self) -> u8;
}

} // verus!
