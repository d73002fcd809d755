use vstd::prelude::*;
use std::collections::VecDeque;
use crate::encode::{encode_pcm16, pcm16_le};

verus! {

/// What the consumer finds when it looks at the channel.
#[derive(Debug)]
pub enum Next {
    /// The oldest pending batch, now removed from the channel.
    Batch(Vec<u8>),
    /// Nothing pending yet; the producer is still live.
    Empty,
    /// Nothing pending, and the producer has ended: no batch will ever come.
    Ended,
}

/// Bounded, ordered hand-off of encoded batches from the capture callback to the
/// sender. When full, a new batch is dropped; the producer never waits.
pub struct CaptureChannel {
    batches: VecDeque<Vec<u8>>,
    capacity: usize,
    closed: bool,
}

/// The pending batches after one offer: kept when there is room and the
/// producer is live, dropped otherwise.
pub open spec fn offer_spec(p: Seq<Seq<u8>>, cap: nat, closed: bool, b: Seq<u8>) -> Seq<Seq<u8>> {
    if !closed && p.len() < cap {
        p.push(b)
    } else {
        p
    }
}

/// The pending batches after offering each of `bs` in turn, with nothing taken.
pub open spec fn offer_all(p: Seq<Seq<u8>>, cap: nat, closed: bool, bs: Seq<Seq<u8>>) -> Seq<
    Seq<u8>,
>
    decreases bs.len(),
{
    if bs.len() == 0 {
        p
    } else {
        offer_all(offer_spec(p, cap, closed, bs[0]), cap, closed, bs.drop_first())
    }
}

impl CaptureChannel {
    /// The pending batches, oldest first.
    pub closed spec fn pending(&self) -> Seq<Seq<u8>> {
        self.batches@.map_values(|b: Vec<u8>| b@)
    }

    pub closed spec fn capacity_spec(&self) -> nat {
        self.capacity as nat
    }

    pub closed spec fn is_closed_spec(&self) -> bool {
        self.closed
    }

    pub closed spec fn wf(&self) -> bool {
        &&& self.capacity > 0
        &&& self.batches@.len() <= self.capacity
    }

    /// An empty, live channel holding at most `capacity` batches.
    pub fn new(capacity: usize) -> (r: CaptureChannel)
        requires
            capacity > 0,
        ensures
            r.wf(),
            r.pending() == Seq::<Seq<u8>>::empty(),
            r.capacity_spec() == capacity,
            !r.is_closed_spec(),
    {
        let r = CaptureChannel { batches: VecDeque::new(), capacity, closed: false };
        assert(r.pending() =~= Seq::<Seq<u8>>::empty());
        r
    }

    /// Number of pending batches.
    pub fn len(&self) -> (r: usize)
        ensures
            r == self.pending().len(),
    {
        self.batches.len()
    }

    pub fn capacity(&self) -> (r: usize)
        ensures
            r == self.capacity_spec(),
    {
        self.capacity
    }

    pub fn is_closed(&self) -> (r: bool)
        ensures
            r == self.is_closed_spec(),
    {
        self.closed
    }

    /// Producer side: queue `batch` if there is room and the producer is live,
    /// else drop it. Never waits. Returns whether the batch was queued.
    pub fn offer(&mut self, batch: Vec<u8>) -> (r: bool)
        requires
            old(self).wf(),
        ensures
            final(self).wf(),
            final(self).pending() == offer_spec(
                old(self).pending(),
                old(self).capacity_spec(),
                old(self).is_closed_spec(),
                batch@,
            ),
            r == (!old(self).is_closed_spec() && old(self).pending().len() < old(self).capacity_spec()),
            final(self).capacity_spec() == old(self).capacity_spec(),
            final(self).is_closed_spec() == old(self).is_closed_spec(),
    {
        if !self.closed && self.batches.len() < self.capacity {
            let ghost before = self.batches@;
            self.batches.push_back(batch);
            assert(self.batches@.map_values(|b: Vec<u8>| b@) =~= before.map_values(
                |b: Vec<u8>| b@,
            ).push(batch@));
            true
        } else {
            false
        }
    }

    /// Producer side: the producer has ended. Batches already pending stay.
    pub fn close(&mut self)
        requires
            old(self).wf(),
        ensures
            final(self).wf(),
            final(self).pending() == old(self).pending(),
            final(self).capacity_spec() == old(self).capacity_spec(),
            final(self).is_closed_spec(),
    {
        self.closed = true;
    }

    /// Consumer side: remove and return the oldest pending batch, or report
    /// that there is none yet, or that none will come.
    pub fn take(&mut self) -> (r: Next)
        requires
            old(self).wf(),
        ensures
            final(self).wf(),
            final(self).capacity_spec() == old(self).capacity_spec(),
            final(self).is_closed_spec() == old(self).is_closed_spec(),
            old(self).pending().len() > 0 ==> (match r {
                Next::Batch(b) => b@ == old(self).pending()[0] && final(self).pending()
                    == old(self).pending().drop_first(),
                _ => false,
            }),
            old(self).pending().len() == 0 ==> final(self).pending() == old(self).pending() && (
            match r {
                Next::Ended => old(self).is_closed_spec(),
                Next::Empty => !old(self).is_closed_spec(),
                _ => false,
            }),
    {
        let ghost before = self.batches@;
        match self.batches.pop_front() {
            Some(b) => {
                assert(self.batches@.map_values(|b: Vec<u8>| b@) =~= before.map_values(
                    |b: Vec<u8>| b@,
                ).drop_first());
                Next::Batch(b)
            },
            None => {
                if self.closed {
                    Next::Ended
                } else {
                    Next::Empty
                }
            },
        }
    }
}

/// With nothing taken, any run of offers keeps at most `cap` batches pending: the
/// pending ones and the earliest offered are kept in order, every later one is dropped.
pub proof fn undrained_offers_stay_bounded(p: Seq<Seq<u8>>, cap: nat, bs: Seq<Seq<u8>>)
    requires
        p.len() <= cap,
    ensures
        offer_all(p, cap, false, bs).len() <= cap,
        offer_all(p, cap, false, bs) == (p + bs).take(
            if p.len() + bs.len() <= cap {
                (p.len() + bs.len()) as int
            } else {
                cap as int
            },
        ),
    decreases bs.len(),
{
    if bs.len() == 0 {
        assert((p + bs).take(p.len() as int) =~= p);
    } else {
        let q = offer_spec(p, cap, false, bs[0]);
        undrained_offers_stay_bounded(q, cap, bs.drop_first());
        if p.len() < cap {
            assert(q + bs.drop_first() =~= p + bs);
        } else {
            let n = cap as int;
            assert(q == p);
            assert((p + bs.drop_first()).take(n) =~= (p + bs).take(n));
        }
    }
}

/// Producer duty for one batch of 16-bit samples: encode it and offer it to
/// the channel. Never waits. Returns whether the batch was queued.
pub fn capture_batch(channel: &mut CaptureChannel, samples: &[i16]) -> (r: bool)
    requires
        old(channel).wf(),
        2 * samples@.len() <= usize::MAX,
    ensures
        final(channel).wf(),
        final(channel).pending() == offer_spec(
            old(channel).pending(),
            old(channel).capacity_spec(),
            old(channel).is_closed_spec(),
            pcm16_le(samples@),
        ),
        r == (!old(channel).is_closed_spec() && old(channel).pending().len()
            < old(channel).capacity_spec()),
        final(channel).capacity_spec() == old(channel).capacity_spec(),
        final(channel).is_closed_spec() == old(channel).is_closed_spec(),
{
    let bytes = encode_pcm16(samples);
    channel.offer(bytes)
}

} // verus!
