//! Model of the non-blocking file-sink forwarder and its flush guard.
//!
//! Under the non-blocking policy, producers enqueue formatted lines into a
//! bounded channel and a background worker drains it to the file in arrival
//! order. The policy is lossy and deterministic: a line offered to a full
//! channel — or to one whose guard was destroyed and is therefore closed —
//! is dropped and counted, never delivered late. The guard's destruction
//! closes the channel; the worker then stops, and lines
//! still buffered may be discarded. What is guaranteed afterwards is only
//! that the delivered lines are an initial segment, in order, of the lines
//! the channel accepted — never more than were enqueued, possibly fewer.

use vstd::prelude::*;

verus! {

/// `a` is an initial segment of `b`.
pub open spec fn is_prefix_of(a: Seq<String>, b: Seq<String>) -> bool {
    a.len() <= b.len() && a == b.take(a.len() as int)
}

/// Every sequence is an initial segment of itself.
proof fn lemma_whole_is_prefix(x: Seq<String>)
    ensures
        is_prefix_of(x, x),
{
    assert(x =~= x.take(x.len() as int));
}

/// The bounded forwarding channel between producers and the file worker,
/// together with the worker's delivery log and the guard's liveness.
pub struct NonBlockingQueue {
    buffer: Vec<String>,
    delivered: Vec<String>,
    capacity: usize,
    guard_alive: bool,
    dropped: u64,
    accepted: Ghost<Seq<String>>,
}

impl NonBlockingQueue {
    /// The lines accepted into the channel, in arrival order.
    pub closed spec fn accepted_log(self) -> Seq<String> {
        self.accepted@
    }

    /// The lines the worker has delivered to the file, in order.
    pub closed spec fn delivered_log(self) -> Seq<String> {
        self.delivered@
    }

    /// The lines accepted but not yet delivered.
    pub closed spec fn buffered_log(self) -> Seq<String> {
        self.buffer@
    }

    /// The channel's bound.
    pub closed spec fn spec_capacity(self) -> int {
        self.capacity as int
    }

    /// Whether the flush guard is still alive.
    pub closed spec fn spec_guard_alive(self) -> bool {
        self.guard_alive
    }

    /// How many lines were dropped at capacity (saturating).
    pub closed spec fn dropped_count(self) -> int {
        self.dropped as int
    }

    /// The channel invariant: delivered lines followed by buffered lines are
    /// an initial segment of the accepted lines; while the guard is alive
    /// nothing accepted has been discarded, and the buffer respects the bound.
    pub open spec fn wf(self) -> bool {
        &&& is_prefix_of(self.delivered_log() + self.buffered_log(), self.accepted_log())
        &&& (self.spec_guard_alive() ==> self.delivered_log() + self.buffered_log()
            == self.accepted_log())
        &&& self.buffered_log().len() <= self.spec_capacity()
    }

    /// A fresh channel of bound `capacity`, its guard alive, nothing queued.
    pub fn new(capacity: usize) -> (q: Self)
        ensures
            q.wf(),
            q.accepted_log() == Seq::<String>::empty(),
            q.delivered_log() == Seq::<String>::empty(),
            q.buffered_log() == Seq::<String>::empty(),
            q.spec_capacity() == capacity as int,
            q.spec_guard_alive(),
            q.dropped_count() == 0,
    {
        let q = NonBlockingQueue {
            buffer: Vec::new(),
            delivered: Vec::new(),
            capacity,
            guard_alive: true,
            dropped: 0,
            accepted: Ghost(Seq::empty()),
        };
        proof {
            assert(q.delivered_log() + q.buffered_log() =~= q.accepted_log());
            lemma_whole_is_prefix(q.accepted_log());
        }
        q
    }

    /// Offers one formatted line to the channel. While the guard is alive
    /// and there is room, the line is accepted at the back of the buffer; at
    /// capacity, or once the guard is destroyed and the channel closed, it is
    /// dropped and counted, and the channel is otherwise unchanged. Returns
    /// whether the line was accepted.
    pub fn enqueue(&mut self, line: String) -> (accepted: bool)
        requires
            old(self).wf(),
        ensures
            final(self).wf(),
            final(self).spec_guard_alive() == old(self).spec_guard_alive(),
            final(self).spec_capacity() == old(self).spec_capacity(),
            final(self).delivered_log() == old(self).delivered_log(),
            accepted == (old(self).spec_guard_alive() && old(self).buffered_log().len() < old(
                self,
            ).spec_capacity()),
            accepted ==> final(self).accepted_log() == old(self).accepted_log().push(line)
                && final(self).buffered_log() == old(self).buffered_log().push(line)
                && final(self).dropped_count() == old(self).dropped_count(),
            !accepted ==> final(self).accepted_log() == old(self).accepted_log()
                && final(self).buffered_log() == old(self).buffered_log()
                && final(self).dropped_count() == if old(self).dropped_count() < u64::MAX as int {
                    old(self).dropped_count() + 1
                } else {
                    old(self).dropped_count()
                },
    {
        if self.guard_alive && self.buffer.len() < self.capacity {
            proof {
                let d = self.delivered@;
                let b = self.buffer@;
                let a = self.accepted@;
                assert(d + b.push(line) =~= (d + b).push(line));
                assert((d + b).push(line) =~= a.push(line));
            }
            self.buffer.push(line);
            self.accepted = Ghost(self.accepted@.push(line));
            proof {
                lemma_whole_is_prefix(self.accepted@);
            }
            true
        } else {
            if self.dropped < u64::MAX {
                self.dropped = self.dropped + 1;
            }
            false
        }
    }

    /// The worker takes the oldest buffered line and writes it to the file:
    /// it moves from the front of the buffer to the back of the delivery log,
    /// preserving arrival order.
    pub fn drain_one(&mut self)
        requires
            old(self).wf(),
            old(self).buffered_log().len() > 0,
        ensures
            final(self).wf(),
            final(self).spec_guard_alive() == old(self).spec_guard_alive(),
            final(self).spec_capacity() == old(self).spec_capacity(),
            final(self).accepted_log() == old(self).accepted_log(),
            final(self).dropped_count() == old(self).dropped_count(),
            final(self).delivered_log() == old(self).delivered_log().push(
                old(self).buffered_log()[0],
            ),
            final(self).buffered_log() == old(self).buffered_log().drop_first(),
    {
        let line = self.buffer.remove(0);
        self.delivered.push(line);
        proof {
            let d0 = old(self).delivered@;
            let b0 = old(self).buffer@;
            assert(self.delivered@ + self.buffer@ =~= d0 + b0);
        }
    }

    /// Destroys the flush guard: the channel closes and accepts nothing
    /// further. Nothing already buffered or delivered changes here, but the
    /// worker is from now on free to stop without draining the rest.
    pub fn destroy_guard(&mut self)
        requires
            old(self).wf(),
        ensures
            final(self).wf(),
            !final(self).spec_guard_alive(),
            final(self).spec_capacity() == old(self).spec_capacity(),
            final(self).accepted_log() == old(self).accepted_log(),
            final(self).delivered_log() == old(self).delivered_log(),
            final(self).buffered_log() == old(self).buffered_log(),
            final(self).dropped_count() == old(self).dropped_count(),
    {
        self.guard_alive = false;
    }

    /// The worker stops after the guard's destruction without draining:
    /// every line still buffered is discarded. The delivery log keeps exactly
    /// the prefix drained before the destruction signal took effect.
    pub fn abandon_rest(&mut self)
        requires
            old(self).wf(),
            !old(self).spec_guard_alive(),
        ensures
            final(self).wf(),
            !final(self).spec_guard_alive(),
            final(self).spec_capacity() == old(self).spec_capacity(),
            final(self).accepted_log() == old(self).accepted_log(),
            final(self).delivered_log() == old(self).delivered_log(),
            final(self).buffered_log() == Seq::<String>::empty(),
            final(self).dropped_count() == old(self).dropped_count(),
    {
        proof {
            let d = self.delivered@;
            let b = self.buffer@;
            let a = self.accepted@;
            assert(d + b == a.take((d + b).len() as int));
            assert(d + Seq::<String>::empty() =~= a.take((d + b).len() as int).take(
                d.len() as int,
            ));
            assert(a.take((d + b).len() as int).take(d.len() as int) =~= a.take(d.len() as int));
        }
        self.buffer = Vec::new();
    }

    /// How many lines the worker has delivered.
    pub fn delivered_len(&self) -> (n: usize)
        ensures
            n as int == self.delivered_log().len(),
    {
        self.delivered.len()
    }

    /// The `i`-th line the worker delivered.
    pub fn delivered_at(&self, i: usize) -> (line: &String)
        requires
            i < self.delivered_log().len(),
        ensures
            line == self.delivered_log()[i as int],
    {
        &self.delivered[i]
    }

    /// How many lines are accepted but not yet delivered.
    pub fn buffered_len(&self) -> (n: usize)
        ensures
            n as int == self.buffered_log().len(),
    {
        self.buffer.len()
    }

    /// How many lines were dropped at capacity.
    pub fn dropped_lines(&self) -> (n: u64)
        ensures
            n as int == self.dropped_count(),
    {
        self.dropped
    }
}

/// Destroying the guard after a burst guarantees only the already-drained
/// prefix: the delivered lines are exactly an initial segment, in arrival
/// order, of the accepted burst — never more than were enqueued, and
/// trailing buffered records may be lost rather than delivered.
pub proof fn lemma_guard_drop_may_lose_trailing(q: NonBlockingQueue)
    requires
        q.wf(),
    ensures
        q.delivered_log().len() <= q.accepted_log().len(),
        q.delivered_log() == q.accepted_log().take(q.delivered_log().len() as int),
{
    let d = q.delivered_log();
    let b = q.buffered_log();
    let a = q.accepted_log();
    assert(d + b == a.take((d + b).len() as int));
    assert(d =~= a.take((d + b).len() as int).take(d.len() as int));
    assert(a.take((d + b).len() as int).take(d.len() as int) =~= a.take(d.len() as int));
}

} // verus!
