//! A packet source in memory: packets staged in advance and handed out in
//! order.

use vstd::prelude::*;
use crate::vospi::PacketSource;

verus! {

/// Why a staged source could not hand out a packet.
#[derive(Debug, Clone, Copy, PartialEq, Eq)]
pub enum StagedError {
    /// Every staged packet has been handed out.
    Exhausted,
    /// The next staged packet has another size than the buffer.
    SizeMismatch,
}

/// Packets staged in memory.
pub struct StagedPackets {
    packets: Vec<Vec<u8>>,
    next: usize,
}

impl StagedPackets {
    /// The packets that have not been handed out yet, in the order in
    /// which they will be.
    pub closed spec fn pending(&self) -> Seq<Seq<u8>> {
        if self.next >= self.packets@.len() {
            Seq::empty()
        } else {
            Seq::new(
                (self.packets@.len() - self.next) as nat,
                |i: int| self.packets@[self.next + i]@,
            )
        }
    }

    /// The position is within the staged packets.
    pub closed spec fn wf(&self) -> bool {
        self.next <= self.packets@.len()
    }

    /// A source that hands out `packets` in order.
    pub fn new(packets: Vec<Vec<u8>>) -> (source: Self)
        ensures
            source.wf(),
            source.pending() == Seq::new(packets@.len(), |i: int| packets@[i]@),
    {
        let source = StagedPackets { packets, next: 0 };
        assert(source.pending() =~= Seq::new(packets@.len(), |i: int| packets@[i]@));
        source
    }

    /// The number of packets that have not been handed out yet.
    pub fn remaining(&self) -> (n: usize)
        requires
            self.wf(),
        ensures
            n == self.pending().len(),
    {
        self.packets.len() - self.next
    }

    /// Hands out the next packet: fills `packet` with it, where it has the
    /// size of `packet`. A packet of another size stays staged.
    pub fn hand_out(&mut self, packet: &mut [u8]) -> (res: Result<(), StagedError>)
        requires
            old(self).wf(),
        ensures
            final(self).wf(),
            final(packet)@.len() == old(packet)@.len(),
            match res {
                Ok(()) => {
                    &&& old(self).pending().len() > 0
                    &&& final(packet)@ == old(self).pending()[0]
                    &&& final(self).pending() == old(self).pending().skip(1)
                },
                Err(e) => {
                    &&& final(self).pending() == old(self).pending()
                    &&& final(packet)@ == old(packet)@
                    &&& e == if old(self).pending().len() == 0 {
                        StagedError::Exhausted
                    } else {
                        StagedError::SizeMismatch
                    }
                    &&& old(self).pending().len() > 0 ==> old(self).pending()[0].len() != old(
                        packet,
                    )@.len()
                },
            },
    {
        if self.next >= self.packets.len() {
            return Err(StagedError::Exhausted);
        }
        let size: usize = packet.len();
        assert(self.pending()[0] == self.packets@[self.next as int]@);
        if self.packets[self.next].len() != size {
            return Err(StagedError::SizeMismatch);
        }
        let mut i: usize = 0;
        while i < size
            invariant
                i <= size,
                size == packet@.len(),
                self.next < self.packets@.len(),
                self.packets@[self.next as int]@.len() == size,
                *self == *old(self),
                forall|j: int| 0 <= j < i ==> packet@[j] == self.packets@[self.next as int]@[j],
            decreases size - i,
        {
            packet[i] = self.packets[self.next][i];
            i = i + 1;
        }
        assert(packet@ =~= self.packets@[self.next as int]@);
        self.next = self.next + 1;
        assert(self.pending() =~= old(self).pending().skip(1));
        Ok(())
    }
}

impl PacketSource for StagedPackets {
    type Error = StagedError;

    /// Hands out the next staged packet, as `hand_out` does: on success
    /// `packet` holds the first of the pending packets and that packet is
    /// pending no more. Where nothing is pending the source is `Exhausted`;
    /// where the first pending packet has another size than `packet` the
    /// sizes mismatch; either way the source and `packet` stay as they were.
    fn read_packet(&mut self, packet: &mut [u8]) -> (res: Result<(), StagedError>)
        ensures
            old(self).wf() ==> final(self).wf(),
            res is Ok <==> old(self).pending().len() > 0 && old(self).pending()[0].len() == old(
                packet,
            )@.len(),
            match res {
                Ok(()) => {
                    &&& final(packet)@ == old(self).pending()[0]
                    &&& final(self).pending() == old(self).pending().skip(1)
                },
                Err(e) => {
                    &&& final(self).pending() == old(self).pending()
                    &&& final(packet)@ == old(packet)@
                    &&& e == if old(self).pending().len() == 0 {
                        StagedError::Exhausted
                    } else {
                        StagedError::SizeMismatch
                    }
                },
            },
    {
        if self.next > self.packets.len() {
            return Err(StagedError::Exhausted);
        }
        self.hand_out(packet)
    }
}

} // verus!
