//! Bounded, insertion-ordered storage of parsed packets with running
//! statistics.  When full, the oldest packets leave first, and the
//! survivors keep their order.
use vstd::prelude::*;

use crate::packet::CSIPacket;

verus! {

/// What one `push` leaves in a buffer of capacity `cap` that held `s`:
/// the packet goes on the back, then the front is dropped until the
/// length fits.
pub open spec fn push_step(s: Seq<CSIPacket>, p: CSIPacket, cap: int) -> Seq<CSIPacket> {
    let grown = s.push(p);
    if grown.len() <= cap {
        grown
    } else {
        grown.skip(grown.len() - cap)
    }
}

/// The contents after pushing `ps`, oldest first, into an empty buffer
/// of capacity `cap`.
pub open spec fn fold_pushes(ps: Seq<CSIPacket>, cap: int) -> Seq<CSIPacket>
    decreases ps.len(),
{
    if ps.len() == 0 {
        Seq::empty()
    } else {
        push_step(fold_pushes(ps.drop_last(), cap), ps.last(), cap)
    }
}

/// Buffer bound: any number of pushes into an empty buffer of capacity
/// `cap` leaves exactly the last `cap` packets pushed, in arrival order.
pub proof fn lemma_buffer_bound(ps: Seq<CSIPacket>, cap: int)
    requires
        cap >= 0,
    ensures
        fold_pushes(ps, cap).len() == if ps.len() <= cap {
            ps.len() as int
        } else {
            cap
        },
        fold_pushes(ps, cap) == ps.skip(
            if ps.len() <= cap {
                0
            } else {
                ps.len() - cap
            },
        ),
    decreases ps.len(),
{
    if ps.len() == 0 {
        assert(ps.skip(0) =~= fold_pushes(ps, cap));
    } else {
        let dl = ps.drop_last();
        lemma_buffer_bound(dl, cap);
        let prev = fold_pushes(dl, cap);
        if dl.len() < cap {
            assert(prev == dl.skip(0));
            assert(dl.skip(0) =~= dl);
            assert(prev.push(ps.last()) =~= ps);
            assert(ps.skip(0) =~= ps);
        } else {
            assert(prev.len() == cap);
            let lhs = prev.push(ps.last()).skip(1);
            assert(fold_pushes(ps, cap) == lhs);
            assert(lhs =~= ps.skip(ps.len() - cap)) by {
                assert(forall|i: int|
                    0 <= i < cap ==> #[trigger] lhs[i] == ps[ps.len() - cap + i]) by {
                    assert(forall|i: int|
                        0 <= i < cap - 1 ==> #[trigger] prev.push(ps.last())[i + 1] == prev[i + 1]);
                    assert(forall|i: int|
                        0 <= i < cap ==> #[trigger] prev[i] == dl[dl.len() - cap + i]);
                }
            }
        }
    }
}

/// Summary of the received-signal-strength values of a window.
#[derive(Debug, Clone)]
pub struct SummaryStats {
    pub count: usize,
    pub rssi_min: i32,
    pub rssi_max: i32,
    pub rssi_sum: i128,
}

pub open spec fn rssi_sum_spec(s: Seq<CSIPacket>) -> int
    decreases s.len(),
{
    if s.len() == 0 {
        0
    } else {
        rssi_sum_spec(s.drop_last()) + s.last().rssi as int
    }
}

pub open spec fn rssi_min_spec(s: Seq<CSIPacket>) -> int
    decreases s.len(),
{
    if s.len() == 0 {
        0
    } else if s.len() == 1 {
        s[0].rssi as int
    } else {
        let m = rssi_min_spec(s.drop_last());
        if (s.last().rssi as int) < m {
            s.last().rssi as int
        } else {
            m
        }
    }
}

pub open spec fn rssi_max_spec(s: Seq<CSIPacket>) -> int
    decreases s.len(),
{
    if s.len() == 0 {
        0
    } else if s.len() == 1 {
        s[0].rssi as int
    } else {
        let m = rssi_max_spec(s.drop_last());
        if (s.last().rssi as int) > m {
            s.last().rssi as int
        } else {
            m
        }
    }
}

/// Computes count, minimum, maximum and sum of the packets' RSSI by one
/// linear scan; the mean is the sum over the count.
pub fn summary_stats(packets: &Vec<CSIPacket>) -> (r: SummaryStats)
    ensures
        r.count == packets@.len(),
        r.rssi_min == rssi_min_spec(packets@),
        r.rssi_max == rssi_max_spec(packets@),
        r.rssi_sum == rssi_sum_spec(packets@),
{
    let mut mn: i32 = 0;
    let mut mx: i32 = 0;
    let mut sum: i128 = 0;
    let mut i: usize = 0;
    let n = packets.len();
    proof {
        assert(packets@.len() == n);
    }
    while i < packets.len()
        invariant
            i <= packets@.len(),
            packets@.len() <= usize::MAX as int,
            mn == rssi_min_spec(packets@.take(i as int)),
            mx == rssi_max_spec(packets@.take(i as int)),
            sum == rssi_sum_spec(packets@.take(i as int)),
            -0x8000_0000 * (i as int) <= sum <= 0x7fff_ffff * (i as int),
        decreases packets.len() - i,
    {
        let p = &packets[i];
        proof {
            let pre = packets@.take(i as int);
            let post = packets@.take(i + 1);
            assert(post.drop_last() =~= pre);
            assert(post.last() == packets@[i as int]);
            assert(-0x8000_0000 * (i as int) - 0x8000_0000 == -0x8000_0000 * (i + 1))
                by (nonlinear_arith);
            assert(0x7fff_ffff * (i as int) + 0x7fff_ffff == 0x7fff_ffff * (i + 1))
                by (nonlinear_arith);
        }
        if i == 0 {
            mn = p.rssi;
            mx = p.rssi;
        } else {
            if p.rssi < mn {
                mn = p.rssi;
            }
            if p.rssi > mx {
                mx = p.rssi;
            }
        }
        sum = sum + (p.rssi as i128);
        i = i + 1;
    }
    proof {
        assert(packets@.take(i as int) =~= packets@);
    }
    SummaryStats { count: packets.len(), rssi_min: mn, rssi_max: mx, rssi_sum: sum }
}

/// Bounded, insertion-ordered packet store.
pub struct TelemetryBuffer {
    capacity: usize,
    packets: Vec<CSIPacket>,
}

impl TelemetryBuffer {
    /// The stored packets, oldest first.
    pub closed spec fn contents(&self) -> Seq<CSIPacket> {
        self.packets@
    }

    /// The fixed upper bound on the stored count.
    pub closed spec fn cap(&self) -> int {
        self.capacity as int
    }

    /// The buffer never holds more than its capacity.
    pub closed spec fn wf(&self) -> bool {
        self.packets@.len() <= self.capacity
    }

    pub fn new(capacity: usize) -> (r: Self)
        ensures
            r.contents() == Seq::<CSIPacket>::empty(),
            r.cap() == capacity,
            r.wf(),
    {
        TelemetryBuffer { capacity, packets: Vec::new() }
    }

    /// Appends `p`; if the buffer would exceed its capacity the oldest
    /// packet leaves, and the rest keep their order.
    pub fn push(&mut self, p: CSIPacket)
        requires
            old(self).wf(),
        ensures
            final(self).wf(),
            final(self).cap() == old(self).cap(),
            final(self).contents() == push_step(old(self).contents(), p, old(self).cap()),
    {
        self.packets.push(p);
        if self.packets.len() > self.capacity {
            let ghost grown = self.packets@;
            let _ = self.packets.remove(0);
            proof {
                assert(grown.remove(0) =~= grown.skip(grown.len() - self.capacity));
            }
        }
    }

    /// The current window, oldest first.
    pub fn snapshot(&self) -> (r: &Vec<CSIPacket>)
        ensures
            r@ == self.contents(),
    {
        &self.packets
    }

    /// The most recently stored packet, if any.
    pub fn latest(&self) -> (r: Option<&CSIPacket>)
        ensures
            match r {
                Some(p) => self.contents().len() > 0 && *p == self.contents().last(),
                None => self.contents().len() == 0,
            },
    {
        if self.packets.len() == 0 {
            None
        } else {
            Some(&self.packets[self.packets.len() - 1])
        }
    }

    /// Number of stored packets.
    pub fn len(&self) -> (r: usize)
        ensures
            r == self.contents().len(),
    {
        self.packets.len()
    }

    /// Statistics of the current window by a single linear scan.
    pub fn summary(&self) -> (r: SummaryStats)
        ensures
            r.count == self.contents().len(),
            r.rssi_min == rssi_min_spec(self.contents()),
            r.rssi_max == rssi_max_spec(self.contents()),
            r.rssi_sum == rssi_sum_spec(self.contents()),
    {
        summary_stats(&self.packets)
    }
}


/// Read-only projections over a window of packets for rendering.
pub struct DataProcessor;

impl DataProcessor {
    /// Squared magnitude per subcarrier of the latest packet; empty
    /// when no packet has arrived.  Magnitudes are the square roots.
    pub fn magnitude_sq_spectrum(packets: &Vec<CSIPacket>) -> (r: Vec<u64>)
        ensures
            packets@.len() == 0 ==> r@.len() == 0,
            packets@.len() > 0 ==> ({
                let d = packets@.last()@.csi_data;
                r@.len() == crate::packet::pair_count(d.len() as int) && forall|k: int|
                    0 <= k < r@.len() ==> r@[k] == crate::packet::amp_sq_at(d, k)
            }),
    {
        if packets.len() == 0 {
            Vec::new()
        } else {
            packets[packets.len() - 1].amplitude_squared()
        }
    }

    /// Squared magnitudes of every packet in the window, in order.
    pub fn heatmap_sq_data(packets: &Vec<CSIPacket>) -> (r: Vec<Vec<u64>>)
        ensures
            r@.len() == packets@.len(),
            forall|i: int|
                0 <= i < r@.len() ==> ({
                    let d = packets@[i]@.csi_data;
                    #[trigger] r@[i]@.len() == crate::packet::pair_count(d.len() as int) && forall|
                        k: int,
                    | 0 <= k < r@[i]@.len() ==> r@[i]@[k] == crate::packet::amp_sq_at(d, k)
                }),
    {
        let mut r: Vec<Vec<u64>> = Vec::new();
        let mut i: usize = 0;
        while i < packets.len()
            invariant
                i <= packets@.len(),
                r@.len() == i,
                forall|j: int|
                    0 <= j < i ==> ({
                        let d = packets@[j]@.csi_data;
                        #[trigger] r@[j]@.len() == crate::packet::pair_count(d.len() as int)
                            && forall|k: int|
                            0 <= k < r@[j]@.len() ==> r@[j]@[k] == crate::packet::amp_sq_at(d, k)
                    }),
            decreases packets.len() - i,
        {
            r.push(packets[i].amplitude_squared());
            i = i + 1;
        }
        r
    }

    /// RSSI statistics of the window by one linear scan.
    pub fn statistics(packets: &Vec<CSIPacket>) -> (r: SummaryStats)
        ensures
            r.count == packets@.len(),
            r.rssi_min == rssi_min_spec(packets@),
            r.rssi_max == rssi_max_spec(packets@),
            r.rssi_sum == rssi_sum_spec(packets@),
    {
        summary_stats(packets)
    }
}

} // verus!
