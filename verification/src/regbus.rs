//! Access to a block of 32-bit hardware registers.
//!
//! Every driver in this crate works against the [`RegisterBus`] trait rather
//! than a fixed physical address, so the register programming is ordinary
//! verified code. The contracts track the sequence of writes a driver makes;
//! reads return whatever the hardware presents, so nothing is assumed about
//! them. [`SimBus`] is an in-memory implementation for exercising drivers,
//! able to imitate a status register whose bits change after a number of
//! polls; a memory-mapped implementation lives with the boot code outside
//! this crate.

use vstd::prelude::*;

verus! {

/// A block of 32-bit registers reached by byte offsets from the block's
/// base. The trait records the writes made through it; a read may return
/// anything (hardware status changes on its own) but changes no register.
pub trait RegisterBus: Sized {
    /// All writes made through this bus so far, in order, as (byte offset,
    /// value) pairs. A bus that does not model its write history (a
    /// memory-mapped one) may leave the default.
    open spec fn written(&self) -> Seq<(u32, u32)> {
        Seq::empty()
    }

    /// Read the register at byte offset `off`.
    fn read_reg(&mut self, off: u32) -> (r: u32)
        ensures
            final(self).written() == old(self).written(),
    ;

    /// Write `value` to the register at byte offset `off`.
    fn write_reg(&mut self, off: u32, value: u32)
        ensures
            final(self).written() == old(self).written().push((off, value)),
    ;
}

/// A simulated register block: registers hold the last value written to
/// them, and one designated status register can be scripted to present a
/// "pending" value for a number of reads before switching to a "ready"
/// value, the way hardware completion bits behave.
pub struct SimBus {
    cells: Vec<(u32, u32)>,
    script_on: bool,
    script_off: u32,
    script_pending: u32,
    script_ready: u32,
    script_reads_left: u32,
    log: Ghost<Seq<(u32, u32)>>,
}

impl SimBus {
    /// A bus with every register reading as zero and no scripted status
    /// register.
    pub fn new() -> (r: SimBus)
        ensures
            r.written() == Seq::<(u32, u32)>::empty(),
    {
        SimBus {
            cells: Vec::new(),
            script_on: false,
            script_off: 0,
            script_pending: 0,
            script_ready: 0,
            script_reads_left: 0,
            log: Ghost(Seq::empty()),
        }
    }

    /// A bus whose register at `off` reads as `pending` for the first
    /// `reads_until_ready` reads and as `ready` afterwards, regardless of
    /// writes; every other register holds what was written to it.
    pub fn with_status_script(off: u32, pending: u32, ready: u32, reads_until_ready: u32) -> (r:
        SimBus)
        ensures
            r.written() == Seq::<(u32, u32)>::empty(),
    {
        SimBus {
            cells: Vec::new(),
            script_on: true,
            script_off: off,
            script_pending: pending,
            script_ready: ready,
            script_reads_left: reads_until_ready,
            log: Ghost(Seq::empty()),
        }
    }
}

impl RegisterBus for SimBus {
    closed spec fn written(&self) -> Seq<(u32, u32)> {
        self.log@
    }

    fn read_reg(&mut self, off: u32) -> (r: u32) {
        if self.script_on && off == self.script_off {
            if self.script_reads_left > 0 {
                self.script_reads_left = self.script_reads_left - 1;
                return self.script_pending;
            }
            return self.script_ready;
        }
        let mut i: usize = self.cells.len();
        while i > 0
            invariant
                i <= self.cells.len(),
                self.written() == old(self).written(),
            decreases i,
        {
            i = i - 1;
            if self.cells[i].0 == off {
                return self.cells[i].1;
            }
        }
        0
    }

    fn write_reg(&mut self, off: u32, value: u32) {
        self.cells.push((off, value));
        proof {
            self.log@ = self.log@.push((off, value));
        }
    }
}

} // verus!
