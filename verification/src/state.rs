//! The channel's protocol state and its laws.
//!
//! Everything a sender or the receiver does under the lock is a small, total
//! operation on [`Inner`]: the pending queue and the live-producer count.
//! The mathematical side of each operation is stated over `Seq` and `nat`,
//! so the delivery laws at the bottom of this file speak the same language
//! as the executable contracts.

use std::collections::VecDeque;
use vstd::prelude::*;

verus! {

/// What one locked inspection of the shared state decides for the receiver.
pub enum RecvStep<T> {
    /// The oldest pending item; delivery succeeds.
    Ready(T),
    /// No item is pending and no producer is left: the channel is closed,
    /// permanently.
    Closed,
    /// No item is pending but a producer is still alive: the receiver must
    /// wait for a change.
    Pending,
}

/// The decision the receiver takes on a queue `q` with `senders` live
/// producers, paired with the items still pending after the step.
pub open spec fn step_spec<T>(q: Seq<T>, senders: nat) -> (RecvStep<T>, Seq<T>) {
    if q.len() > 0 {
        (RecvStep::Ready(q[0]), q.drop_first())
    } else if senders == 0 {
        (RecvStep::Closed, q)
    } else {
        (RecvStep::Pending, q)
    }
}

/// The queue contents after one producer enqueues each item of `sent`, in
/// order, behind a queue that already holds `q`.
pub open spec fn queue_after_sends<T>(q: Seq<T>, sent: Seq<T>) -> Seq<T>
    decreases sent.len(),
{
    if sent.len() == 0 {
        q
    } else {
        queue_after_sends(q.push(sent[0]), sent.drop_first())
    }
}

/// The first `fuel` receiver decisions on a channel whose queue holds `q`
/// and whose producer count stays `senders`, when no producer acts in
/// between.
pub open spec fn outcomes<T>(q: Seq<T>, senders: nat, fuel: nat) -> Seq<RecvStep<T>>
    decreases fuel,
{
    if fuel == 0 {
        Seq::empty()
    } else {
        seq![step_spec(q, senders).0] + outcomes(
            step_spec(q, senders).1,
            senders,
            (fuel - 1) as nat,
        )
    }
}

/// Law: sending keeps order. After a producer enqueues the items of `sent`
/// one by one, the pending items are exactly `q` followed by `sent`: no item
/// is lost, duplicated, or reordered on the way in.
pub proof fn lemma_sends_keep_order<T>(q: Seq<T>, sent: Seq<T>)
    ensures
        queue_after_sends(q, sent) == q + sent,
    decreases sent.len(),
{
    if sent.len() == 0 {
        assert(q + sent =~= q);
    } else {
        lemma_sends_keep_order(q.push(sent[0]), sent.drop_first());
        assert(q.push(sent[0]) + sent.drop_first() =~= q + sent);
    }
}

/// Law: drain before close. Once no producer is left, the receiver's
/// successive decisions deliver every queued item, oldest first, and every
/// decision after the last item reports the close — which is terminal, no
/// matter how often the receiver asks again.
pub proof fn lemma_drain_then_close<T>(q: Seq<T>, fuel: nat)
    ensures
        outcomes(q, 0, fuel).len() == fuel,
        forall|i: int|
            0 <= i < fuel ==> outcomes(q, 0, fuel)[i] == (if i < q.len() {
                RecvStep::Ready(q[i])
            } else {
                RecvStep::<T>::Closed
            }),
    decreases fuel,
{
    if fuel > 0 {
        if q.len() > 0 {
            lemma_drain_then_close(q.drop_first(), (fuel - 1) as nat);
            assert forall|i: int| 0 <= i < fuel implies outcomes(q, 0, fuel)[i] == (if i
                < q.len() {
                RecvStep::Ready(q[i])
            } else {
                RecvStep::<T>::Closed
            }) by {
                if i > 0 {
                    let rest = outcomes(q.drop_first(), 0, (fuel - 1) as nat);
                    assert(outcomes(q, 0, fuel)[i] == rest[i - 1]);
                }
            }
        } else {
            lemma_drain_then_close(q, (fuel - 1) as nat);
        }
    }
}

/// Law: what goes in is what comes out. Sending the items of `sent` on a
/// fresh channel and then closing it makes the receiver deliver exactly
/// `sent`, oldest first, followed by the permanent close.
pub proof fn lemma_round_trip_in_order<T>(sent: Seq<T>, fuel: nat)
    ensures
        forall|i: int|
            0 <= i < fuel ==> outcomes(queue_after_sends(Seq::empty(), sent), 0, fuel)[i] == (
            if i < sent.len() {
                RecvStep::Ready(sent[i])
            } else {
                RecvStep::<T>::Closed
            }),
{
    lemma_sends_keep_order(Seq::empty(), sent);
    assert(Seq::empty() + sent =~= sent);
    lemma_drain_then_close(sent, fuel);
}

/// Law: the receiver waits exactly when the queue is empty and a producer
/// remains. It never waits on a closed channel, and it never reports a close
/// while a producer could still send.
pub proof fn lemma_wait_iff_open_and_empty<T>(q: Seq<T>, senders: nat)
    ensures
        (step_spec(q, senders).0 is Pending) <==> (q.len() == 0 && senders > 0),
        (step_spec(q, senders).0 is Closed) <==> (q.len() == 0 && senders == 0),
{
}

/// The state every handle shares: the pending queue and the live-producer
/// count. Each value of this type is touched only under the channel's lock.
pub(crate) struct Inner<T> {
    /// Items sent and not yet taken by the receiver, oldest first.
    pub(crate) queue: VecDeque<T>,
    /// How many producer handles are alive.
    pub(crate) senders: usize,
}

impl<T> Inner<T> {
    /// The state of a fresh channel: nothing pending, one producer.
    pub(crate) fn new() -> (r: Self)
        ensures
            r.queue@.len() == 0,
            r.senders == 1,
    {
        Inner { queue: VecDeque::new(), senders: 1 }
    }

    /// Append `t` behind every pending item: the one effect of a send under
    /// the lock.
    pub(crate) fn push_item(&mut self, t: T)
        ensures
            final (self).queue@ == old(self).queue@.push(t),
            final (self).senders == old(self).senders,
    {
        self.queue.push_back(t);
    }

    /// Register one more live producer. The count saturates at the machine
    /// limit, which no real set of handles can reach, since each one
    /// occupies memory.
    pub(crate) fn add_sender(&mut self)
        ensures
            final (self).senders == (if old(self).senders < usize::MAX {
                old(self).senders + 1
            } else {
                old(self).senders as int
            }),
            final (self).queue@ == old(self).queue@,
    {
        if self.senders < usize::MAX {
            self.senders = self.senders + 1;
        }
    }

    /// Deregister one live producer. Returns whether this was the last one,
    /// in which case the channel has just closed.
    pub(crate) fn remove_sender(&mut self) -> (last: bool)
        ensures
            final (self).senders == (if old(self).senders > 0 {
                (old(self).senders - 1) as usize
            } else {
                0usize
            }),
            final (self).queue@ == old(self).queue@,
            last == (old(self).senders == 1),
    {
        let last = self.senders == 1;
        if self.senders > 0 {
            self.senders = self.senders - 1;
        }
        last
    }

    /// The receiver's locked step: pop the oldest item and move the whole
    /// remainder of the queue into the receiver's private buffer in one
    /// exchange, or report why nothing can be delivered. The decision and
    /// the items left pending are exactly those of [`step_spec`].
    pub(crate) fn take_step(&mut self, buf: &mut VecDeque<T>) -> (r: RecvStep<T>)
        requires
            old(buf)@.len() == 0,
        ensures
            final (self).senders == old(self).senders,
            r == step_spec(old(self).queue@, old(self).senders as nat).0,
            final (buf)@ + final (self).queue@ == step_spec(
                old(self).queue@,
                old(self).senders as nat,
            ).1,
            !(r is Ready) ==> final (buf)@ == old(buf)@ && final (self).queue@ == old(self).queue@,
            r is Ready ==> final (self).queue@.len() == 0,
    {
        match self.queue.pop_front() {
            Some(t) => {
                if self.queue.len() > 0 {
                    core::mem::swap(buf, &mut self.queue);
                }
                proof {
                    assert(buf@ + self.queue@ =~= old(self).queue@.drop_first());
                }
                RecvStep::Ready(t)
            },
            None => {
                proof {
                    assert(buf@ + self.queue@ =~= old(self).queue@);
                }
                if self.senders == 0 {
                    RecvStep::Closed
                } else {
                    RecvStep::Pending
                }
            },
        }
    }
}

} // verus!
