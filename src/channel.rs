use vstd::prelude::*;

use crate::chain_event::{ChainEventModel, Message};

verus! {

/// A bounded, ordered, single-producer/single-consumer queue between two
/// stages. A send on a full channel is refused and the message handed back,
/// so the producer waits; nothing is ever dropped or reordered.
#[derive(Debug)]
pub struct Channel {
    buf: Vec<Message>,
    capacity: usize,
}

/// The queue after a send of `m` to `q` with room for `cap`, and whether the
/// message was taken.
pub open spec fn send_model(q: Seq<ChainEventModel>, cap: nat, m: ChainEventModel) -> (
    Seq<ChainEventModel>,
    bool,
) {
    if q.len() < cap {
        (q.push(m), true)
    } else {
        (q, false)
    }
}

/// The queue after sending each of `ms` in turn, waiting on none.
pub open spec fn send_each(q: Seq<ChainEventModel>, cap: nat, ms: Seq<ChainEventModel>) -> Seq<
    ChainEventModel,
>
    decreases ms.len(),
{
    if ms.len() == 0 {
        q
    } else {
        send_model(send_each(q, cap, ms.drop_last()), cap, ms.last()).0
    }
}

impl Channel {
    /// The queued events, oldest first.
    pub closed spec fn view(&self) -> Seq<ChainEventModel> {
        self.buf@.map_values(|m: Message| m@)
    }

    /// The fixed capacity.
    pub closed spec fn cap(&self) -> nat {
        self.capacity as nat
    }

    /// Never more queued than the capacity.
    pub closed spec fn wf(&self) -> bool {
        self.buf.len() <= self.capacity
    }

    /// An empty channel that holds at most `capacity` messages.
    pub fn new(capacity: usize) -> (r: Channel)
        ensures
            r.wf(),
            r.view() == Seq::<ChainEventModel>::empty(),
            r.cap() == capacity,
    {
        let r = Channel { buf: Vec::new(), capacity };
        assert(r.view() =~= Seq::<ChainEventModel>::empty());
        r
    }

    /// Number of queued messages.
    pub fn len(&self) -> (r: usize)
        requires
            self.wf(),
        ensures
            r == self.view().len(),
    {
        self.buf.len()
    }

    /// The fixed capacity.
    pub fn capacity(&self) -> (r: usize)
        ensures
            r == self.cap(),
    {
        self.capacity
    }

    /// Whether a send would have to wait.
    pub fn is_full(&self) -> (r: bool)
        requires
            self.wf(),
        ensures
            r == (self.view().len() >= self.cap()),
    {
        self.buf.len() >= self.capacity
    }

    /// Queues `m` at the back if there is room; otherwise hands it back
    /// untouched and leaves the channel as it was.
    pub fn try_send(&mut self, m: Message) -> (r: Result<(), Message>)
        requires
            old(self).wf(),
        ensures
            final(self).wf(),
            final(self).cap() == old(self).cap(),
            (final(self).view(), r is Ok) == send_model(old(self).view(), old(self).cap(), m@),
            r matches Err(back) ==> back == m,
    {
        if self.buf.len() < self.capacity {
            self.buf.push(m);
            assert(self.view() =~= old(self).view().push(m@));
            Ok(())
        } else {
            Err(m)
        }
    }

    /// Takes the oldest queued message, if any.
    pub fn recv(&mut self) -> (r: Option<Message>)
        requires
            old(self).wf(),
        ensures
            final(self).wf(),
            final(self).cap() == old(self).cap(),
            old(self).view().len() == 0 ==> r is None && final(self).view() == old(self).view(),
            old(self).view().len() > 0 ==> (r matches Some(m) && m@ == old(self).view()[0]
                && final(self).view() == old(self).view().drop_first()),
    {
        if self.buf.len() == 0 {
            None
        } else {
            let m = self.buf.remove(0);
            assert(self.view() =~= old(self).view().drop_first());
            Some(m)
        }
    }
}

/// Sends that fit in the free room are all taken, in order.
pub proof fn lemma_send_each_fits(q: Seq<ChainEventModel>, cap: nat, ms: Seq<ChainEventModel>)
    requires
        q.len() + ms.len() <= cap,
    ensures
        send_each(q, cap, ms) == q + ms,
    decreases ms.len(),
{
    if ms.len() > 0 {
        lemma_send_each_fits(q, cap, ms.drop_last());
        assert(q + ms.drop_last().push(ms.last()) =~= q + ms);
        assert(ms.drop_last().push(ms.last()) =~= ms);
    } else {
        assert(q + ms =~= q);
    }
}

/// Backpressure: on a channel of capacity `cap`, `cap` sends with no receive
/// are all queued in order; one more send is refused and changes nothing;
/// after the consumer takes the oldest message, that send is taken at the back.
pub proof fn lemma_backpressure(cap: nat, ms: Seq<ChainEventModel>, extra: ChainEventModel)
    requires
        ms.len() == cap,
        cap >= 1,
    ensures
        send_each(Seq::empty(), cap, ms) == ms,
        send_model(ms, cap, extra) == (ms, false),
        send_model(ms.drop_first(), cap, extra) == (ms.drop_first().push(extra), true),
{
    lemma_send_each_fits(Seq::empty(), cap, ms);
    assert(Seq::<ChainEventModel>::empty() + ms =~= ms);
}

} // verus!
