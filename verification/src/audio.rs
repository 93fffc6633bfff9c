//! The audio collaborator's byte-indexed interface.
//!
//! A 23-byte register window that the address decoder forwards to verbatim,
//! without interpreting its contents.

use crate::machine::{GameBoy, Machine};
use vstd::prelude::*;

verus! {

/// The audio collaborator's byte-indexed register window of 23 bytes.
pub struct AudioData {
    pub regs: Vec<u8>,
}

impl AudioData {
    /// A zeroed audio register window.
    pub fn new() -> (r: AudioData)
        ensures
            r.regs@ == Seq::new(0x17, |j: int| 0u8),
    {
        AudioData { regs: vec![0u8; 0x17] }
    }
}

impl GameBoy {
    /// Reads one byte of the audio register window.
    pub fn audio_register(&self, i: usize) -> (v: u8)
        requires
            self@.wf(),
            i < 0x17,
        ensures
            v == self@.audio[i as int],
    {
        self.audio.regs[i]
    }

    /// Writes one byte of the audio register window.
    pub fn set_audio_register(&mut self, i: usize, value: u8)
        requires
            old(self)@.wf(),
            i < 0x17,
        ensures
            final(self)@ == (Machine { audio: old(self)@.audio.update(i as int, value), ..old(self)@ }),
    {
        self.audio.regs[i] = value;
    }
}

} // verus!
