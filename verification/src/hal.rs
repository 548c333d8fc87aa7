//! Interfaces to the hardware collaborators the driver consumes: a
//! byte-level serial bus, digital output/input lines and a blocking timer.
//!
//! The driver core never talks to hardware directly; platform code (or a
//! test fake) implements these traits and hands the values in.

use vstd::prelude::*;

verus! {

/// Transport-level fault reported by a serial bus implementation.
#[derive(Clone, Copy, Debug, PartialEq, Eq, Structural)]
pub struct BusFault;

/// Write-only byte-level serial bus.
///
/// `wire` is the abstract trace of every byte the bus has accepted so far,
/// oldest first; a transfer appends to it and never rewrites history.
pub trait SerialBus {
    /// All bytes the bus has accepted so far, oldest first. Implementations
    /// that want the transfer contract to say anything override this; the
    /// default trace stays empty.
    open spec fn wire(&self) -> Seq<u8> {
        Seq::empty()
    }

    /// Writes a burst of bytes.
    ///
    /// On success the whole burst was accepted; on a fault some prefix of
    /// the burst (possibly empty) was accepted before the failure.
    fn transfer(&mut self, bytes: &[u8]) -> (r: Result<(), BusFault>)
        ensures
            r is Ok ==> final(self).wire() == old(self).wire() + bytes@,
            r is Err ==> exists|n: int|
                0 <= n <= bytes@.len()
                    && final(self).wire() == old(self).wire() + bytes@.subrange(0, n),
    ;
}

/// A digital output line the driver owns exclusively.
pub trait OutputLine {
    /// Current electrical level: true = high. Implementations that track
    /// the level override this.
    open spec fn level(&self) -> bool {
        false
    }

    /// Drives the line high.
    fn set_high(&mut self)
        ensures
            final(self).level(),
    ;

    /// Drives the line low.
    fn set_low(&mut self)
        ensures
            !final(self).level(),
    ;
}

/// A digital input line; for this driver, the panel's BUSY signal
/// (high = busy, low = ready). What it reads is the panel's decision,
/// so nothing is promised of the result.
pub trait InputLine {
    /// Samples the line: true = high.
    fn is_high(&mut self) -> bool;
}

/// Blocking delay source.
pub trait Timer {
    /// Blocks for `ms` milliseconds.
    fn sleep_millis(&mut self, ms: u64);

    /// Blocks for `us` microseconds.
    fn sleep_micros(&mut self, us: u64);
}

} // verus!
