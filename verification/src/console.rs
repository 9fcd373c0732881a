//! The console device model.
//!
//! The real device is external hardware with two operations: a non-blocking
//! "try to get one byte" and a fire-and-forget "write bytes" that always
//! accepts everything.  The model holds the device's side of both: a script
//! of poll outcomes to be consumed front to back, and every byte written so
//! far.  A host program injects into the script what the real device yields;
//! tests inject scripts directly.

use crate::model::ConsoleView;
use vstd::prelude::*;

verus! {

/// The byte-oriented console device: a script of poll outcomes and the bytes
/// written out.
pub struct Console {
    events: Vec<Option<u8>>,
    written: Vec<u8>,
}

impl View for Console {
    type V = ConsoleView;

    closed spec fn view(&self) -> ConsoleView {
        ConsoleView { input: self.events@, echoed: self.written@ }
    }
}

impl Console {
    /// A device with nothing to deliver and nothing written yet.
    pub fn new() -> (r: Console)
        ensures
            r@.input == Seq::<Option<u8>>::empty(),
            r@.echoed == Seq::<u8>::empty(),
    {
        Console { events: Vec::new(), written: Vec::new() }
    }

    /// Make `b` the next byte the device will deliver (after everything
    /// already scripted).
    pub fn inject_byte(&mut self, b: u8)
        ensures
            final(self)@.input == old(self)@.input.push(Some(b)),
            final(self)@.echoed == old(self)@.echoed,
    {
        self.events.push(Some(b));
    }

    /// Script one empty poll: the device will report "nothing available" once
    /// before moving on.
    pub fn inject_gap(&mut self)
        ensures
            final(self)@.input == old(self)@.input.push(None),
            final(self)@.echoed == old(self)@.echoed,
    {
        self.events.push(None);
    }

    /// One non-blocking poll of the device: consumes the next scripted
    /// outcome, or reports nothing when the script is exhausted.
    pub fn try_get_byte(&mut self) -> (r: Option<u8>)
        ensures
            old(self)@.input.len() == 0 ==> r is None && *final(self) == *old(self),
            old(self)@.input.len() > 0 ==> r == old(self)@.input[0] && final(self)@.input == old(
                self,
            )@.input.skip(1) && final(self)@.echoed == old(self)@.echoed,
    {
        if self.events.len() == 0 {
            None
        } else {
            self.events.remove(0)
        }
    }

    /// Write bytes to the device.  The device accepts every byte, always.
    pub fn write_bytes(&mut self, buf: &Vec<u8>)
        ensures
            final(self)@.echoed == old(self)@.echoed + buf@,
            final(self)@.input == old(self)@.input,
    {
        let mut i: usize = 0;
        while i < buf.len()
            invariant
                i <= buf.len(),
                self@.echoed == old(self)@.echoed + buf@.take(i as int),
                self@.input == old(self)@.input,
            decreases buf.len() - i,
        {
            self.written.push(buf[i]);
            i = i + 1;
            assert(old(self)@.echoed + buf@.take(i as int) =~= (old(self)@.echoed + buf@.take(
                i - 1,
            )).push(buf@[i - 1]));
        }
        assert(buf@.take(buf@.len() as int) =~= buf@);
    }

    /// Everything written to the device so far, oldest byte first.
    pub fn output(&self) -> (r: &Vec<u8>)
        ensures
            r@ == self@.echoed,
    {
        &self.written
    }
}

} // verus!
