//! The shared channel of the worker pool: a FIFO sequence of entries, each a
//! unit of work or one shutdown marker. The channel is unbounded: sending
//! never blocks and is refused only once the receive side is gone.
//!
//! The queue keeps, besides the pending entries, a ghost log of the entries
//! already handed out. Every submitted entry therefore sits in exactly one of
//! the two sequences, which is what the delivery laws at the bottom of this
//! module rest on: delivery happens in submission order, and draining the
//! queue delivers every entry exactly once.

use vstd::prelude::*;

verus! {

/// One slot in the shared channel: a unit of work, or a marker telling the
/// worker that dequeues it to terminate.
pub enum Entry<J> {
    Work(J),
    Shutdown,
}

/// Returned by `Queue::send` when the receive side has been dropped and the
/// entry can never be delivered.
#[derive(Debug, PartialEq, Eq, Structural)]
pub struct QueueClosed;

/// What a worker sees when it asks for the next entry.
pub enum Received<J> {
    /// The next pending entry, in submission order.
    Next(Entry<J>),
    /// Nothing is pending yet; the worker should wait and ask again.
    Empty,
    /// The send side is gone and nothing is pending; the worker should treat
    /// this like an explicit shutdown.
    Closed,
}

/// A FIFO channel of `Entry<J>` with one send side and one shared receive
/// side. Dequeuing is a `&mut` operation, so at most one holder can be in the
/// act of taking the next entry at a time.
pub struct Queue<J> {
    entries: Vec<Entry<J>>,
    sender_open: bool,
    receiver_open: bool,
    delivered_log: Ghost<Seq<Entry<J>>>,
}

/// The work items among a sequence of entries, in order.
pub open spec fn works_of<J>(s: Seq<Entry<J>>) -> Seq<J> {
    s.filter(|e: Entry<J>| e is Work).map_values(|e: Entry<J>| e->Work_0)
}

/// How many shutdown markers a sequence of entries holds.
pub open spec fn shutdown_count<J>(s: Seq<Entry<J>>) -> nat {
    s.filter(|e: Entry<J>| e is Shutdown).len()
}

impl<J> Queue<J> {
    /// The entries submitted but not yet handed to any worker, in order.
    pub closed spec fn pending(self) -> Seq<Entry<J>> {
        self.entries@
    }

    /// The entries already handed out, in the order they were handed out.
    pub closed spec fn delivered(self) -> Seq<Entry<J>> {
        self.delivered_log@
    }

    /// Everything ever accepted by the queue, in submission order.
    pub open spec fn submitted(self) -> Seq<Entry<J>> {
        self.delivered() + self.pending()
    }

    /// Whether the send side is still held.
    pub closed spec fn sender_is_open(self) -> bool {
        self.sender_open
    }

    /// Whether the receive side is still held.
    pub closed spec fn receiver_is_open(self) -> bool {
        self.receiver_open
    }

    /// Creates an empty queue with both sides open.
    pub fn new() -> (q: Queue<J>)
        ensures
            q.pending() == Seq::<Entry<J>>::empty(),
            q.delivered() == Seq::<Entry<J>>::empty(),
            q.sender_is_open(),
            q.receiver_is_open(),
    {
        Queue {
            entries: Vec::new(),
            sender_open: true,
            receiver_open: true,
            delivered_log: Ghost(Seq::empty()),
        }
    }

    /// How many entries are pending.
    pub fn len(&self) -> (n: usize)
        ensures
            n == self.pending().len(),
    {
        self.entries.len()
    }

    /// Enqueues an entry at the back. Fails only if the receive side has been
    /// entirely dropped, in which case the queue is left unchanged.
    pub fn send(&mut self, entry: Entry<J>) -> (r: Result<(), QueueClosed>)
        requires
            old(self).sender_is_open(),
        ensures
            final(self).sender_is_open(),
            final(self).receiver_is_open() == old(self).receiver_is_open(),
            if old(self).receiver_is_open() {
                &&& r is Ok
                &&& final(self).pending() == old(self).pending().push(entry)
                &&& final(self).delivered() == old(self).delivered()
            } else {
                &&& r == Result::<(), QueueClosed>::Err(QueueClosed)
                &&& *final(self) == *old(self)
            },
    {
        if self.receiver_open {
            self.entries.push(entry);
            Ok(())
        } else {
            Err(QueueClosed)
        }
    }

    /// Takes the next entry in FIFO order, if one is pending. When nothing is
    /// pending, reports `Empty` while the send side is still open, and
    /// `Closed` once it is gone.
    pub fn receive(&mut self) -> (r: Received<J>)
        requires
            old(self).receiver_is_open(),
        ensures
            final(self).sender_is_open() == old(self).sender_is_open(),
            final(self).receiver_is_open(),
            final(self).submitted() == old(self).submitted(),
            if old(self).pending().len() > 0 {
                &&& r == Received::Next(old(self).pending()[0])
                &&& final(self).pending() == old(self).pending().drop_first()
                &&& final(self).delivered() == old(self).delivered().push(
                    old(self).pending()[0],
                )
            } else {
                &&& *final(self) == *old(self)
                &&& r == if old(self).sender_is_open() {
                    Received::<J>::Empty
                } else {
                    Received::<J>::Closed
                }
            },
    {
        if self.entries.len() > 0 {
            let ghost prior = *self;
            let entry = self.entries.remove(0);
            proof {
                self.delivered_log@ = self.delivered_log@.push(entry);
                assert(final(self).pending() =~= prior.pending().drop_first());
                assert(final(self).submitted() =~= prior.submitted());
            }
            Received::Next(entry)
        } else if self.sender_open {
            Received::Empty
        } else {
            Received::Closed
        }
    }

    /// Records that the send side has been dropped.
    pub fn drop_sender(&mut self)
        ensures
            !final(self).sender_is_open(),
            final(self).receiver_is_open() == old(self).receiver_is_open(),
            final(self).pending() == old(self).pending(),
            final(self).delivered() == old(self).delivered(),
    {
        self.sender_open = false;
    }

    /// Records that the receive side has been entirely dropped.
    pub fn drop_receiver(&mut self)
        ensures
            !final(self).receiver_is_open(),
            final(self).sender_is_open() == old(self).sender_is_open(),
            final(self).pending() == old(self).pending(),
            final(self).delivered() == old(self).delivered(),
    {
        self.receiver_open = false;
    }
}

/// Delivery preserves submission order across the whole queue: what has been
/// delivered so far is, in order, exactly the prefix of what was submitted.
/// In particular, if entry A was submitted strictly before entry B, then A is
/// handed to some worker no later than B is handed to any worker.
pub proof fn lemma_delivery_preserves_submission_order<J>(q: Queue<J>)
    ensures
        q.delivered() =~= q.submitted().take(q.delivered().len() as int),
        forall|i: int|
            0 <= i < q.delivered().len() ==> q.delivered()[i] == q.submitted()[i],
{
}

/// No entry is lost and none is handed out twice: once the pending queue is
/// drained, the sequence of delivered entries equals the sequence of
/// submitted entries, so each submitted job was handed to exactly one worker,
/// in submission order.
pub proof fn lemma_drained_queue_delivered_everything<J>(q: Queue<J>)
    requires
        q.pending().len() == 0,
    ensures
        q.delivered() == q.submitted(),
        works_of(q.delivered()) == works_of(q.submitted()),
{
    assert(q.delivered() =~= q.submitted());
}

} // verus!
