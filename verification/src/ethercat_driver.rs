//! Bookkeeping of the UDP receive loop: packet and drop counters reported by
//! the periodic statistics tick, with a warning every thousand drops.

use vstd::prelude::*;

verus! {

#[derive(Debug, Clone, Copy, PartialEq, Eq, Structural)]
pub struct DriverStats {
    pub packet_count: u64,
    pub drop_count: u64,
}

impl DriverStats {
    pub fn new() -> (r: Self)
        ensures
            r.packet_count == 0,
            r.drop_count == 0,
    {
        DriverStats { packet_count: 0, drop_count: 0 }
    }

    /// Counts one received datagram.
    pub fn record_packet(&mut self)
        requires
            old(self).packet_count < u64::MAX,
        ensures
            final(self).packet_count == old(self).packet_count + 1,
            final(self).drop_count == old(self).drop_count,
    {
        self.packet_count = self.packet_count + 1;
    }

    /// Counts one sample set dropped because the pipeline was full; returns
    /// whether a warning is due (every thousandth drop).
    pub fn record_drop(&mut self) -> (warn: bool)
        requires
            old(self).drop_count < u64::MAX,
        ensures
            final(self).drop_count == old(self).drop_count + 1,
            final(self).packet_count == old(self).packet_count,
            warn == (final(self).drop_count % 1000 == 0),
    {
        self.drop_count = self.drop_count + 1;
        self.drop_count % 1000 == 0
    }

    /// Statistics tick: the counts since the previous tick; both restart.
    pub fn take(&mut self) -> (r: (u64, u64))
        ensures
            r == (old(self).packet_count, old(self).drop_count),
            final(self).packet_count == 0,
            final(self).drop_count == 0,
    {
        let r = (self.packet_count, self.drop_count);
        self.packet_count = 0;
        self.drop_count = 0;
        r
    }
}

} // verus!
