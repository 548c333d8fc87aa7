//! Fake collaborators for exercising the driver without hardware: a bus
//! that records every byte and can be told to fault after a set number of
//! bytes, a busy line that follows a script, a plain output line and a
//! timer that does not actually block.

use vstd::prelude::*;

use crate::hal::{BusFault, InputLine, OutputLine, SerialBus, Timer};

verus! {

/// A serial bus that records every byte it accepts. With a capacity limit
/// it accepts bytes only up to that lifetime total: a burst that would
/// cross the limit has its head appended and is reported as a fault.
pub struct RecordingBus {
    log: Vec<u8>,
    limit: Option<u64>,
}

impl RecordingBus {
    /// A bus without a capacity limit: every transfer succeeds.
    pub fn new() -> (r: RecordingBus)
        ensures
            r.wire() == Seq::<u8>::empty(),
    {
        RecordingBus { log: Vec::new(), limit: None }
    }

    /// A bus that accepts `cap` bytes in total and then faults.
    pub fn with_capacity_limit(cap: u64) -> (r: RecordingBus)
        ensures
            r.wire() == Seq::<u8>::empty(),
    {
        RecordingBus { log: Vec::new(), limit: Some(cap) }
    }

    /// Every byte accepted so far, oldest first.
    pub fn recorded(&self) -> (r: &Vec<u8>)
        ensures
            r@ == self.wire(),
    {
        &self.log
    }
}

impl SerialBus for RecordingBus {
    closed spec fn wire(&self) -> Seq<u8> {
        self.log@
    }

    fn transfer(&mut self, bytes: &[u8]) -> (r: Result<(), BusFault>) {
        let take: usize = match self.limit {
            None => bytes.len(),
            Some(cap) => {
                let used: u64 = self.log.len() as u64;
                let avail: u64 = if cap > used {
                    cap - used
                } else {
                    0
                };
                if (bytes.len() as u64) <= avail {
                    bytes.len()
                } else {
                    avail as usize
                }
            },
        };
        let mut i: usize = 0;
        while i < take
            invariant
                take <= bytes@.len(),
                i <= take,
                self.log@ == old(self).log@ + bytes@.subrange(0, i as int),
            decreases take - i,
        {
            let b: u8 = bytes[i];
            self.log.push(b);
            proof {
                assert(self.log@ =~= old(self).log@ + bytes@.subrange(0, i as int + 1));
            }
            i = i + 1;
        }
        if take == bytes.len() {
            proof {
                assert(bytes@.subrange(0, bytes@.len() as int) =~= bytes@);
            }
            Ok(())
        } else {
            Err(BusFault)
        }
    }
}

/// A busy line that plays back a script of levels, one per poll, and then
/// reports a fixed level forever.
pub struct ScriptedBusyLine {
    script: Vec<bool>,
    next: usize,
    after: bool,
}

impl ScriptedBusyLine {
    /// Reports `script[0]`, `script[1]`, ... on successive polls, then
    /// `after` on every poll past the script's end.
    pub fn new(script: Vec<bool>, after: bool) -> ScriptedBusyLine {
        ScriptedBusyLine { script, next: 0, after }
    }
}

impl InputLine for ScriptedBusyLine {
    fn is_high(&mut self) -> bool {
        if self.next < self.script.len() {
            let v: bool = self.script[self.next];
            self.next = self.next + 1;
            v
        } else {
            self.after
        }
    }
}

/// An output line that only remembers its level.
pub struct SimOutputLine {
    high: bool,
}

impl SimOutputLine {
    /// A line initially driven low.
    pub fn new() -> (r: SimOutputLine)
        ensures
            !r.level(),
    {
        SimOutputLine { high: false }
    }
}

impl OutputLine for SimOutputLine {
    closed spec fn level(&self) -> bool {
        self.high
    }

    fn set_high(&mut self) {
        self.high = true;
    }

    fn set_low(&mut self) {
        self.high = false;
    }
}

/// A timer that returns immediately instead of blocking.
pub struct SimTimer;

impl Timer for SimTimer {
    fn sleep_millis(&mut self, ms: u64) {
    }

    fn sleep_micros(&mut self, us: u64) {
    }
}

} // verus!
