//! The outbound half of the session: a bounded FIFO queue of pre-serialized
//! payloads, and the loop that drains it to the wire.
//!
//! Producers enqueue; the outbound loop dequeues and writes each payload as
//! one frame. The queue's contracts pin the order: what reaches the wire is
//! exactly the enqueue order.

use vstd::prelude::*;

verus! {

/// How many payloads the queue holds before it pushes back on producers.
pub const OUTBOUND_QUEUE_CAPACITY: usize = 32;

/// The views of a sequence of queued payloads.
pub open spec fn payload_views(s: Seq<String>) -> Seq<Seq<char>> {
    s.map_values(|p: String| p@)
}

/// The bounded queue between message producers and the outbound loop.
pub struct OutboundQueue {
    items: Vec<String>,
}

impl View for OutboundQueue {
    type V = Seq<Seq<char>>;

    closed spec fn view(&self) -> Seq<Seq<char>> {
        payload_views(self.items@)
    }
}

impl OutboundQueue {
    /// An empty queue.
    pub fn new() -> (r: OutboundQueue)
        ensures
            r@ == Seq::<Seq<char>>::empty(),
    {
        let q = OutboundQueue { items: Vec::new() };
        proof {
            assert(q@ =~= Seq::<Seq<char>>::empty());
        }
        q
    }

    /// How many payloads are waiting.
    pub fn len(&self) -> (n: usize)
        ensures
            n == self@.len(),
    {
        self.items.len()
    }

    /// Offers one payload to the queue. A full queue refuses it and hands it
    /// back — the caller-visible backpressure signal; the caller retries once
    /// the loop has drained some of the queue.
    pub fn try_enqueue(&mut self, payload: String) -> (r: Result<(), String>)
        ensures
            old(self)@.len() < OUTBOUND_QUEUE_CAPACITY ==> r is Ok && final(self)@ == old(
                self,
            )@.push(payload@),
            old(self)@.len() >= OUTBOUND_QUEUE_CAPACITY ==> (r matches Result::Err(p) && p
                == payload) && final(self)@ == old(self)@,
    {
        if self.items.len() >= OUTBOUND_QUEUE_CAPACITY {
            return Result::Err(payload);
        }
        self.items.push(payload);
        proof {
            assert(self@ =~= old(self)@.push(payload@));
        }
        Result::Ok(())
    }

    /// Takes the payload that has waited longest, if any.
    pub fn dequeue(&mut self) -> (r: Option<String>)
        ensures
            old(self)@.len() == 0 ==> r is None && final(self)@ == old(self)@,
            old(self)@.len() > 0 ==> (r matches Option::Some(p) && p@ == old(self)@.first())
                && final(self)@ == old(self)@.drop_first(),
    {
        if self.items.len() == 0 {
            return Option::None;
        }
        let p = self.items.remove(0);
        proof {
            assert(self@ =~= old(self)@.drop_first());
        }
        Option::Some(p)
    }

    /// The outbound loop's work once its producers are done: drains the
    /// queue, oldest payload first. The wire receives exactly the queued
    /// payloads, in enqueue order.
    pub fn drain_to_wire(&mut self) -> (wire: Vec<String>)
        ensures
            final(self)@.len() == 0,
            payload_views(wire@) == old(self)@,
    {
        let mut wire: Vec<String> = Vec::new();
        proof {
            assert(payload_views(wire@) + self@ =~= old(self)@);
        }
        loop
            invariant
                payload_views(wire@) + self@ == old(self)@,
            decreases self@.len(),
        {
            let ghost before_wire = wire@;
            let ghost before_queue = self@;
            match self.dequeue() {
                Option::Some(p) => {
                    wire.push(p);
                    proof {
                        assert(payload_views(wire@) =~= payload_views(before_wire).push(p@));
                        assert(payload_views(wire@) + self@ =~= old(self)@);
                    }
                },
                Option::None => {
                    proof {
                        assert(payload_views(wire@) =~= old(self)@);
                    }
                    return wire;
                },
            }
        }
    }

    /// A producer's run of enqueues: offers the payloads in submission
    /// order, stopping at the first refusal. Everything accepted stands in
    /// the queue behind the earlier contents, in submission order.
    pub fn enqueue_all(&mut self, payloads: &Vec<String>) -> (accepted: usize)
        ensures
            accepted <= payloads@.len(),
            final(self)@ == old(self)@ + payload_views(payloads@.take(accepted as int)),
            accepted == payloads@.len() || final(self)@.len() >= OUTBOUND_QUEUE_CAPACITY,
            old(self)@.len() + payloads@.len() <= OUTBOUND_QUEUE_CAPACITY ==> accepted
                == payloads@.len(),
    {
        let n = payloads.len();
        let mut i: usize = 0;
        proof {
            assert(old(self)@ + payload_views(payloads@.take(0)) =~= old(self)@);
        }
        while i < n
            invariant
                n == payloads@.len(),
                i <= n,
                self@ == old(self)@ + payload_views(payloads@.take(i as int)),
                self@.len() == old(self)@.len() + i,
            decreases n - i,
        {
            let ghost before = self@;
            match self.try_enqueue(payloads[i].clone()) {
                Result::Ok(()) => {
                    proof {
                        assert(payloads@.take(i as int + 1).drop_last() =~= payloads@.take(
                            i as int,
                        ));
                        assert(self@ =~= old(self)@ + payload_views(
                            payloads@.take(i as int + 1),
                        ));
                    }
                    i += 1;
                },
                Result::Err(_) => {
                    return i;
                },
            }
        }
        proof {
            assert(payloads@.take(n as int) =~= payloads@);
        }
        i
    }
}

/// The queue contents after a run of enqueues, each appending one payload.
pub open spec fn queue_after(q: Seq<Seq<char>>, ps: Seq<Seq<char>>) -> Seq<Seq<char>>
    decreases ps.len(),
{
    if ps.len() == 0 {
        q
    } else {
        queue_after(q.push(ps.first()), ps.drop_first())
    }
}

/// Enqueues append: running a sequence of enqueues leaves the earlier
/// contents followed by the new payloads in submission order.
pub proof fn lemma_queue_after_appends(q: Seq<Seq<char>>, ps: Seq<Seq<char>>)
    ensures
        queue_after(q, ps) == q + ps,
    decreases ps.len(),
{
    if ps.len() == 0 {
        assert(q + ps =~= q);
    } else {
        lemma_queue_after_appends(q.push(ps.first()), ps.drop_first());
        assert(q.push(ps.first()) + ps.drop_first() =~= q + ps);
    }
}

/// Law: the outbound wire order equals the enqueue order. Any sequence of
/// payloads enqueued into an empty queue stands in the queue exactly in
/// submission order, and draining hands the queue's contents to the wire
/// unchanged — so the wire sees the payloads as they were enqueued.
pub proof fn lemma_outbound_fifo(ps: Seq<Seq<char>>)
    ensures
        queue_after(Seq::empty(), ps) == ps,
{
    lemma_queue_after_appends(Seq::empty(), ps);
    assert(Seq::empty() + ps =~= ps);
}

} // verus!
