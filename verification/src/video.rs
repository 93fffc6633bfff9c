//! The video collaborator's byte-indexed interface.
//!
//! The address decoder forwards three delegated ranges verbatim; this module
//! holds the state the video collaborator exposes to it — an 8 KiB memory
//! window and the five LCD registers — with byte get/set for each. The
//! decoder performs no interpretation of these bytes.

use crate::machine::{GameBoy, Machine};
use vstd::prelude::*;

verus! {

/// The video collaborator's byte-indexed state, as far as the decoder
/// needs it: an 8 KiB memory window and five single-byte registers.
pub struct VideoData {
    pub vram: Vec<u8>,
    pub lcdc: u8,
    pub scy: u8,
    pub scx: u8,
    pub ly: u8,
    pub bgp: u8,
}

impl VideoData {
    /// A zeroed video window.
    pub fn new() -> (r: VideoData)
        ensures
            r.vram@ == Seq::new(0x2000, |j: int| 0u8),
            r.lcdc == 0,
            r.scy == 0,
            r.scx == 0,
            r.ly == 0,
            r.bgp == 0,
    {
        VideoData { vram: vec![0u8; 0x2000], lcdc: 0, scy: 0, scx: 0, ly: 0, bgp: 0 }
    }
}

impl GameBoy {
    /// Reads one byte of the video memory window.
    pub fn vram(&self, i: usize) -> (v: u8)
        requires
            self@.wf(),
            i < 0x2000,
        ensures
            v == self@.vram[i as int],
    {
        self.video.vram[i]
    }

    /// Writes one byte of the video memory window.
    pub fn set_vram(&mut self, i: usize, value: u8)
        requires
            old(self)@.wf(),
            i < 0x2000,
        ensures
            final(self)@ == (Machine { vram: old(self)@.vram.update(i as int, value), ..old(self)@ }),
    {
        self.video.vram[i] = value;
    }

    /// Reads the LCD control register.
    pub fn lcdc(&self) -> (v: u8)
        ensures
            v == self@.lcdc,
    {
        self.video.lcdc
    }

    /// Writes the LCD control register.
    pub fn set_lcdc(&mut self, value: u8)
        ensures
            final(self)@ == (Machine { lcdc: value, ..old(self)@ }),
    {
        self.video.lcdc = value;
    }

    /// Reads the scroll-Y register.
    pub fn scy(&self) -> (v: u8)
        ensures
            v == self@.scy,
    {
        self.video.scy
    }

    /// Writes the scroll-Y register.
    pub fn set_scy(&mut self, value: u8)
        ensures
            final(self)@ == (Machine { scy: value, ..old(self)@ }),
    {
        self.video.scy = value;
    }

    /// Reads the scroll-X register.
    pub fn scx(&self) -> (v: u8)
        ensures
            v == self@.scx,
    {
        self.video.scx
    }

    /// Writes the scroll-X register.
    pub fn set_scx(&mut self, value: u8)
        ensures
            final(self)@ == (Machine { scx: value, ..old(self)@ }),
    {
        self.video.scx = value;
    }

    /// Reads the current-scanline register.
    pub fn ly(&self) -> (v: u8)
        ensures
            v == self@.ly,
    {
        self.video.ly
    }

    /// Writes the current-scanline register.
    pub fn set_ly(&mut self, value: u8)
        ensures
            final(self)@ == (Machine { ly: value, ..old(self)@ }),
    {
        self.video.ly = value;
    }

    /// Reads the background palette register.
    pub fn bgp(&self) -> (v: u8)
        ensures
            v == self@.bgp,
    {
        self.video.bgp
    }

    /// Writes the background palette register.
    pub fn set_bgp(&mut self, value: u8)
        ensures
            final(self)@ == (Machine { bgp: value, ..old(self)@ }),
    {
        self.video.bgp = value;
    }
}

} // verus!
