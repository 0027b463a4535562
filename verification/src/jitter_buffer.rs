//! Bounded jitter buffer: reorders RTP payloads by sequence number,
//! bounds residency, drops on overflow and counts loss.

use vstd::prelude::*;

verus! {

/// Forward distance from `a` to `b` on the 16-bit sequence circle:
/// `(b - a) mod 2^16`.
pub open spec fn fwd_distance(a: u16, b: u16) -> u16 {
    b.wrapping_sub(a)
}

/// The sequence number expected right after `last`: `(last + 1) mod 2^16`.
pub open spec fn next_seq(last: u16) -> u16 {
    last.wrapping_add(1)
}

/// An insertion of `(k, v)` into the sorted association sequence `pre`
/// produced `post` at position `pos`: entries below `k` keep their place, an
/// entry with key `k` is replaced, and entries above `k` shift right by one.
pub open spec fn sorted_insert_at(
    pre: Seq<(u16, Seq<u8>)>,
    post: Seq<(u16, Seq<u8>)>,
    k: u16,
    v: Seq<u8>,
    pos: int,
) -> bool {
    &&& 0 <= pos <= pre.len()
    &&& (forall|i: int| 0 <= i < pos ==> (#[trigger] pre[i]).0 < k)
    &&& (pos < pre.len() ==> pre[pos].0 >= k)
    &&& post == pre.subrange(0, pos) + seq![(k, v)] + (if pos < pre.len() && pre[pos].0 == k {
        pre.subrange(pos + 1, pre.len() as int)
    } else {
        pre.subrange(pos, pre.len() as int)
    })
}

/// `post` is `pre` with `(k, v)` inserted in sequence order.
pub open spec fn sorted_insert_of(
    pre: Seq<(u16, Seq<u8>)>,
    post: Seq<(u16, Seq<u8>)>,
    k: u16,
    v: Seq<u8>,
) -> bool {
    exists|pos: int| sorted_insert_at(pre, post, k, v, pos)
}

/// What one `insert` of `(sequence_num, data)` does to the buffer: the
/// received counter advances, the delivery point and the capacity stay;
/// a late packet (forward distance from the expected sequence above
/// 32768) changes nothing else, otherwise the loss counter grows by the
/// forward gap and the payload joins the sorted residents, with the
/// lowest-sequence entry evicted if the capacity is then exceeded.
pub open spec fn insert_transition(
    pre: JitterBuffer,
    post: JitterBuffer,
    sequence_num: u16,
    data: Seq<u8>,
) -> bool {
    &&& post.wf()
    &&& post.spec_received() == pre.spec_received().saturating_add(1)
    &&& post.spec_last_sequence() == pre.spec_last_sequence()
    &&& post.spec_max_packets() == pre.spec_max_packets()
    &&& ({
        let late = match pre.spec_last_sequence() {
            Some(last) => fwd_distance(next_seq(last), sequence_num) > 32768,
            None => false,
        };
        let lost_now = match pre.spec_last_sequence() {
            Some(last) => {
                let d = fwd_distance(next_seq(last), sequence_num);
                if 1 <= d <= 32768 {
                    d
                } else {
                    0
                }
            },
            None => 0,
        };
        if late {
            &&& post.view_entries() == pre.view_entries()
            &&& post.spec_lost() == pre.spec_lost()
        } else {
            &&& post.spec_lost() == pre.spec_lost().saturating_add(lost_now as u64)
            &&& exists|mid: Seq<(u16, Seq<u8>)>|
                {
                    &&& sorted_insert_of(pre.view_entries(), mid, sequence_num, data)
                    &&& post.view_entries() == (if mid.len() > pre.spec_max_packets() {
                        mid.drop_first()
                    } else {
                        mid
                    })
                }
        }
    })
}

/// Jitter buffer for one session.
///
/// Entries are kept sorted by sequence number with unique keys; the buffer
/// never holds more than `max_packets()` entries.
pub struct JitterBuffer {
    entries: Vec<(u16, Vec<u8>)>,
    max_size_ms: u32,
    sample_rate: u32,
    last_sequence: Option<u16>,
    packets_received: u64,
    packets_lost: u64,
}

impl JitterBuffer {
    /// The resident entries, in ascending sequence order.
    pub closed spec fn view_entries(&self) -> Seq<(u16, Seq<u8>)> {
        self.entries@.map_values(|e: (u16, Vec<u8>)| (e.0, e.1@))
    }

    /// The resident sequence numbers, in ascending order.
    pub open spec fn seqs(&self) -> Seq<u16> {
        self.view_entries().map_values(|e: (u16, Seq<u8>)| e.0)
    }

    pub closed spec fn spec_last_sequence(&self) -> Option<u16> {
        self.last_sequence
    }

    pub closed spec fn spec_received(&self) -> u64 {
        self.packets_received
    }

    pub closed spec fn spec_lost(&self) -> u64 {
        self.packets_lost
    }

    /// Derived capacity: at least 10 packets, else the packet count that
    /// covers `max_size_ms` of 20 ms frames at the configured rate.
    pub closed spec fn spec_max_packets(&self) -> int {
        vstd::math::max(
            10,
            vstd::math::min(
                ((self.max_size_ms as int) * ((self.sample_rate as int) / 320)) / 1000,
                usize::MAX as int,
            ),
        )
    }

    /// Well-formed: strictly ascending keys, size within capacity.
    pub open spec fn wf(&self) -> bool {
        &&& (forall|i: int, j: int|
            0 <= i < j < self.view_entries().len() ==> (#[trigger] self.view_entries()[i]).0 < (
            #[trigger] self.view_entries()[j]).0)
        &&& self.view_entries().len() <= self.spec_max_packets()
    }

    /// Create an empty buffer for `max_size_ms` of audio at `sample_rate`.
    ///
    /// The capacity is fixed by the construction parameters: at least 10
    /// packets, else one packet per 20 ms frame over `max_size_ms`.
    pub fn new(max_size_ms: u32, sample_rate: u32) -> (r: Self)
        ensures
            r.wf(),
            r.view_entries() == Seq::<(u16, Seq<u8>)>::empty(),
            r.spec_last_sequence() is None,
            r.spec_received() == 0,
            r.spec_lost() == 0,
            r.spec_max_packets() == vstd::math::max(
                10,
                vstd::math::min(
                    ((max_size_ms as int) * ((sample_rate as int) / 320)) / 1000,
                    usize::MAX as int,
                ),
            ),
    {
        let r = Self {
            entries: Vec::new(),
            max_size_ms,
            sample_rate,
            last_sequence: None,
            packets_received: 0,
            packets_lost: 0,
        };
        proof {
            assert(r.view_entries() =~= Seq::<(u16, Seq<u8>)>::empty());
        }
        r
    }

    /// Packet capacity derived from the construction parameters.
    pub fn max_packets(&self) -> (r: usize)
        ensures
            r == self.spec_max_packets(),
    {
        let frames_per_second = (self.sample_rate / 320) as u64;
        proof {
            assert((self.max_size_ms as int) * (frames_per_second as int) <= 0xFFFF_FFFF
                * 13421772) by (nonlinear_arith)
                requires
                    0 <= self.max_size_ms <= 0xFFFF_FFFFu32,
                    0 <= frames_per_second <= 13421772,
            ;
        }
        let cap = ((self.max_size_ms as u64) * frames_per_second) / 1000;
        let capped: usize = if cap > (usize::MAX as u64) {
            usize::MAX
        } else {
            cap as usize
        };
        if capped < 10 {
            10
        } else {
            capped
        }
    }

    /// Insert a payload under its sequence number.
    ///
    /// The received counter always advances. When a delivery point exists,
    /// a packet strictly ahead of the expected sequence (forward distance in
    /// 1..=32768) adds that distance to the loss counter, and a late packet
    /// (forward distance above 32768) is dropped silently. Otherwise the
    /// payload joins the sorted residents, replacing an equal key; if the
    /// buffer then exceeds capacity the lowest-sequence entry is evicted.
    #[verifier::rlimit(50)]
    pub fn insert(&mut self, sequence_num: u16, data: Vec<u8>)
        requires
            old(self).wf(),
        ensures
            insert_transition(*old(self), *final(self), sequence_num, data@),
    {
        self.packets_received = self.packets_received.saturating_add(1);

        if let Some(last) = self.last_sequence {
            let expected = last.wrapping_add(1);
            let d = sequence_num.wrapping_sub(expected);
            if d > 32768 {
                // Late, wrapped straggler: drop silently.
                return ;
            }
            if d >= 1 {
                self.packets_lost = self.packets_lost.saturating_add(d as u64);
            }
        }

        let ghost pre = self.view_entries();
        let mut pos: usize = 0;
        while pos < self.entries.len() && self.entries[pos].0 < sequence_num
            invariant
                pos <= self.entries.len(),
                forall|i: int| 0 <= i < pos ==> (#[trigger] self.view_entries()[i]).0 < sequence_num,
            decreases self.entries.len() - pos,
        {
            pos += 1;
        }

        if pos < self.entries.len() && self.entries[pos].0 == sequence_num {
            self.entries.set(pos, (sequence_num, data));
            proof {
                let mid = self.view_entries();
                assert(mid =~= pre.subrange(0, pos as int) + seq![(sequence_num, data@)]
                    + pre.subrange(pos + 1, pre.len() as int));
                assert(sorted_insert_at(pre, mid, sequence_num, data@, pos as int));
                assert(sorted_insert_of(pre, mid, sequence_num, data@));
                assert(self.view_entries().len() <= self.spec_max_packets());
            }
        } else {
            self.entries.insert(pos, (sequence_num, data));
            proof {
                let mid = self.view_entries();
                assert(mid =~= pre.subrange(0, pos as int) + seq![(sequence_num, data@)]
                    + pre.subrange(pos as int, pre.len() as int));
                assert(sorted_insert_at(pre, mid, sequence_num, data@, pos as int));
                assert(sorted_insert_of(pre, mid, sequence_num, data@));
            }
            let cap = self.max_packets();
            if self.entries.len() > cap {
                let ghost mid = self.view_entries();
                self.entries.remove(0);
                proof {
                    assert(self.view_entries() =~= mid.drop_first());
                }
            }
        }
    }

    /// Pop the lowest-sequence resident payload, advancing the delivery point.
    pub fn get_ready_frame(&mut self) -> (r: Option<Vec<u8>>)
        requires
            old(self).wf(),
        ensures
            final(self).wf(),
            final(self).spec_received() == old(self).spec_received(),
            final(self).spec_lost() == old(self).spec_lost(),
            final(self).spec_max_packets() == old(self).spec_max_packets(),
            old(self).view_entries().len() == 0 ==> {
                &&& r is None
                &&& *final(self) == *old(self)
            },
            old(self).view_entries().len() > 0 ==> {
                &&& r matches Some(d) && d@ == old(self).view_entries()[0].1
                &&& final(self).view_entries() == old(self).view_entries().drop_first()
                &&& final(self).spec_last_sequence() == Some(old(self).view_entries()[0].0)
            },
    {
        if self.entries.len() == 0 {
            return None;
        }
        let ghost pre = self.view_entries();
        let (seq, payload) = self.entries.remove(0);
        self.last_sequence = Some(seq);
        proof {
            assert(self.view_entries() =~= pre.drop_first());
        }
        Some(payload)
    }

    /// Pop up to `max_count` payloads, lowest sequence first.
    pub fn get_ready_frames(&mut self, max_count: usize) -> (r: Vec<Vec<u8>>)
        requires
            old(self).wf(),
        ensures
            final(self).wf(),
            r@.len() == vstd::math::min(max_count as int, old(self).view_entries().len() as int),
            forall|i: int| 0 <= i < r@.len() ==> (#[trigger] r@[i])@ == old(self).view_entries()[i].1,
            final(self).view_entries() == old(self).view_entries().skip(r@.len() as int),
            final(self).spec_received() == old(self).spec_received(),
            final(self).spec_lost() == old(self).spec_lost(),
            final(self).spec_max_packets() == old(self).spec_max_packets(),
            r@.len() == 0 ==> final(self).spec_last_sequence() == old(self).spec_last_sequence(),
            r@.len() > 0 ==> final(self).spec_last_sequence() == Some(
                old(self).view_entries()[r@.len() - 1].0,
            ),
    {
        let mut frames: Vec<Vec<u8>> = Vec::new();
        let ghost pre = self.view_entries();
        let mut n: usize = 0;
        while n < max_count && self.entries.len() > 0
            invariant
                old(self).wf(),
                self.wf(),
                n <= max_count,
                n == frames@.len(),
                n <= pre.len(),
                pre == old(self).view_entries(),
                n < pre.len() || self.view_entries().len() == 0,
                self.view_entries() == pre.skip(n as int),
                forall|i: int| 0 <= i < n ==> (#[trigger] frames@[i])@ == pre[i].1,
                self.spec_received() == old(self).spec_received(),
                self.spec_lost() == old(self).spec_lost(),
                self.spec_max_packets() == old(self).spec_max_packets(),
                n == 0 ==> self.spec_last_sequence() == old(self).spec_last_sequence(),
                n > 0 ==> self.spec_last_sequence() == Some(pre[n - 1].0),
            decreases max_count - n,
        {
            let frame = self.get_ready_frame();
            match frame {
                Some(f) => {
                    frames.push(f);
                    proof {
                        assert(pre.skip(n as int).drop_first() =~= pre.skip(n + 1));
                    }
                    n += 1;
                },
                None => {
                    // Unreachable: the buffer was non-empty.
                    proof {
                        assert(false);
                    }
                },
            }
        }
        frames
    }

    /// Whether at least `min_packets` payloads are resident.
    pub fn is_ready(&self, min_packets: usize) -> (r: bool)
        ensures
            r == (self.view_entries().len() >= min_packets),
    {
        self.entries.len() >= min_packets
    }

    /// Number of resident payloads.
    pub fn size(&self) -> (r: usize)
        ensures
            r == self.view_entries().len(),
    {
        self.entries.len()
    }

    /// Buffer level as an integer percentage of capacity.
    pub fn level_percent(&self) -> (r: u32)
        requires
            self.wf(),
        ensures
            r == 100 * self.view_entries().len() as int / self.spec_max_packets(),
            r <= 100,
    {
        let max = self.max_packets();
        proof {
            assert(100 * self.view_entries().len() as int / self.spec_max_packets() <= 100) by (
            nonlinear_arith)
                requires
                    self.view_entries().len() <= self.spec_max_packets(),
                    self.spec_max_packets() >= 10,
            ;
        }
        let r = ((100u128 * (self.entries.len() as u128)) / (max as u128)) as u32;
        r
    }

    /// Packet loss in whole per-mille: `1000 * lost / (received + lost)`,
    /// or 0 before any packet arrived.
    pub fn packet_loss_permille(&self) -> (r: u32)
        ensures
            self.spec_received() == 0 ==> r == 0,
            self.spec_received() > 0 ==> r == 1000 * self.spec_lost() as int / (
            self.spec_received() as int + self.spec_lost() as int),
            r <= 1000,
    {
        if self.packets_received == 0 {
            return 0;
        }
        let lost = self.packets_lost as u128;
        let total = self.packets_received as u128 + self.packets_lost as u128;
        let r = ((1000 * lost) / total) as u32;
        proof {
            assert(1000 * self.spec_lost() as int / (self.spec_received() as int
                + self.spec_lost() as int) <= 1000) by (nonlinear_arith)
                requires
                    self.spec_received() as int >= 1,
                    self.spec_lost() as int >= 0,
            ;
        }
        r
    }

    /// Total packets accepted by `insert`.
    pub fn packets_received(&self) -> (r: u64)
        ensures
            r == self.spec_received(),
    {
        self.packets_received
    }

    /// Total packets counted as lost.
    pub fn packets_lost(&self) -> (r: u64)
        ensures
            r == self.spec_lost(),
    {
        self.packets_lost
    }

    /// Drop all residents and forget the delivery point.
    pub fn clear(&mut self)
        ensures
            final(self).wf(),
            final(self).view_entries() == Seq::<(u16, Seq<u8>)>::empty(),
            final(self).spec_last_sequence() is None,
            final(self).spec_received() == old(self).spec_received(),
            final(self).spec_lost() == old(self).spec_lost(),
            final(self).spec_max_packets() == old(self).spec_max_packets(),
    {
        self.entries.clear();
        self.last_sequence = None;
        proof {
            assert(self.view_entries() =~= Seq::<(u16, Seq<u8>)>::empty());
        }
    }

    /// Zero the received and lost counters.
    pub fn reset_stats(&mut self)
        ensures
            final(self).spec_received() == 0,
            final(self).spec_lost() == 0,
            final(self).view_entries() == old(self).view_entries(),
            final(self).spec_last_sequence() == old(self).spec_last_sequence(),
            final(self).spec_max_packets() == old(self).spec_max_packets(),
            old(self).wf() ==> final(self).wf(),
    {
        self.packets_received = 0;
        self.packets_lost = 0;
    }
}

/// Jitter ordering law: the resident sequence numbers are strictly
/// ascending, so consecutive `get_ready_frame` calls return payloads keyed
/// by strictly increasing sequence numbers until the buffer drains.
pub proof fn lemma_jitter_ordering(b: JitterBuffer, i: int, j: int)
    requires
        b.wf(),
        0 <= i < j < b.seqs().len(),
    ensures
        b.seqs()[i] < b.seqs()[j],
{
}

/// Jitter bound law: a well-formed buffer never holds more entries than its
/// configured capacity, and every operation keeps it well-formed.
pub proof fn lemma_jitter_bound(b: JitterBuffer)
    requires
        b.wf(),
    ensures
        b.view_entries().len() <= b.spec_max_packets(),
{
}

} // verus!
