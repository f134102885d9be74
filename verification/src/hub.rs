use vstd::prelude::*;
use std::collections::VecDeque;
use crate::message::Message;
use crate::message::MessageView;

verus! {

/// One bounded queue after a publish: the message is appended, and when the
/// queue is already at capacity the oldest buffered message is dropped first.
/// The publisher is never blocked or rejected.
pub open spec fn push_bounded(q: Seq<MessageView>, m: MessageView, cap: nat) -> Seq<MessageView> {
    if q.len() < cap {
        q.push(m)
    } else {
        q.drop_first().push(m)
    }
}

/// One registry slot after a publish: a live subscription's queue takes the
/// message, a released slot stays released.
pub open spec fn publish_one(
    slot: Option<Seq<MessageView>>,
    m: MessageView,
    cap: nat,
) -> Option<Seq<MessageView>> {
    match slot {
        Some(q) => Some(push_bounded(q, m, cap)),
        None => None,
    }
}

/// The whole registry after a publish: every live subscription receives the
/// message independently; no slot is added or removed.
pub open spec fn publish_all(
    s: Seq<Option<Seq<MessageView>>>,
    m: MessageView,
    cap: nat,
) -> Seq<Option<Seq<MessageView>>> {
    Seq::new(s.len(), |i: int| publish_one(s[i], m, cap))
}

/// The registry after releasing subscription `id`: its slot is cleared;
/// an out-of-range or already-cleared id changes nothing.
pub open spec fn remove_slot(
    s: Seq<Option<Seq<MessageView>>>,
    id: int,
) -> Seq<Option<Seq<MessageView>>> {
    if 0 <= id < s.len() {
        s.update(id, None)
    } else {
        s
    }
}

/// A live slot's queue viewed as the sequence of buffered message values,
/// oldest first.
spec fn queue_view(q: Seq<Message>) -> Seq<MessageView> {
    Seq::new(q.len(), |i: int| q[i]@)
}

/// The mathematical value of one registry slot.
spec fn slot_view(slot: Option<VecDeque<Message>>) -> Option<Seq<MessageView>> {
    match slot {
        Some(q) => Some(queue_view(q@)),
        None => None,
    }
}

/// Internal soundness of one slot against the hub's capacity and the log of
/// everything published so far: the queue never exceeds the capacity and
/// holds only messages that were actually published.
spec fn queue_inv(slot: Option<VecDeque<Message>>, cap: nat, log: Seq<MessageView>) -> bool {
    match slot {
        Some(q) => q@.len() <= cap && (forall|k: int|
            0 <= k < q@.len() ==> log.contains(#[trigger] q@[k]@)),
        None => true,
    }
}

/// The shared broadcast distribution point: a registry of per-subscriber
/// bounded FIFO queues, all fed by a single global publish order. A slot is
/// `Some` while its subscription is live and `None` once released; ids are
/// never reused. Publishing while no subscription is live has no effect and
/// is not an error.
pub struct Hub {
    capacity: usize,
    queues: Vec<Option<VecDeque<Message>>>,
    published_log: Ghost<Seq<MessageView>>,
}

impl Hub {
    /// The bound C on every subscriber's delivery queue.
    pub closed spec fn cap(self) -> nat {
        self.capacity as nat
    }

    /// Every message ever published to this hub, in the single global
    /// publish order.
    pub closed spec fn published(self) -> Seq<MessageView> {
        self.published_log@
    }

    /// The registry: one slot per subscription ever created, each live slot
    /// holding its buffered messages oldest first.
    pub closed spec fn slots(self) -> Seq<Option<Seq<MessageView>>> {
        Seq::new(self.queues@.len(), |i: int| slot_view(self.queues@[i]))
    }

    /// The hub's internal soundness: a positive capacity, every queue within
    /// it, and no queue holding a message that was never published. Holds of
    /// every hub [`Hub::new`] returns and is preserved by every operation.
    pub closed spec fn wf(self) -> bool {
        &&& 1 <= self.capacity
        &&& forall|j: int|
            0 <= j < self.queues@.len() ==> queue_inv(
                #[trigger] self.queues@[j],
                self.capacity as nat,
                self.published_log@,
            )
    }

    /// A hub with no subscriptions yet and queue capacity `capacity`.
    pub fn new(capacity: usize) -> (h: Hub)
        requires
            1 <= capacity,
        ensures
            h.wf(),
            h.cap() == capacity as nat,
            h.slots() == Seq::<Option<Seq<MessageView>>>::empty(),
            h.published() == Seq::<MessageView>::empty(),
    {
        let h = Hub {
            capacity,
            queues: Vec::new(),
            published_log: Ghost(Seq::empty()),
        };
        proof {
            assert(h.slots() =~= Seq::<Option<Seq<MessageView>>>::empty());
        }
        h
    }

    /// Registers a new subscription with an empty bounded queue and returns
    /// its id. Always succeeds; no other subscription is affected.
    pub fn subscribe(&mut self) -> (id: usize)
        requires
            old(self).wf(),
        ensures
            final(self).wf(),
            final(self).cap() == old(self).cap(),
            final(self).published() == old(self).published(),
            id == old(self).slots().len(),
            final(self).slots() == old(self).slots().push(
                Some(Seq::<MessageView>::empty()),
            ),
    {
        let id = self.queues.len();
        self.queues.push(Some(VecDeque::new()));
        proof {
            assert(queue_view(Seq::<Message>::empty()) =~= Seq::<MessageView>::empty());
            assert(final(self).slots() =~= old(self).slots().push(
                Some(Seq::<MessageView>::empty()),
            ));
        }
        id
    }

    /// Appends `m` to every live subscription's queue independently, dropping
    /// that subscriber's oldest buffered message first when its queue is
    /// full. Never blocks and never fails, whatever the subscribers' drain
    /// rates; with no live subscription it has no effect.
    pub fn publish(&mut self, m: Message)
        requires
            old(self).wf(),
        ensures
            final(self).wf(),
            final(self).cap() == old(self).cap(),
            final(self).published() == old(self).published().push(m@),
            final(self).slots() == publish_all(old(self).slots(), m@, old(self).cap()),
    {
        let ghost s0 = self.slots();
        let ghost cap0 = self.cap();
        let ghost log0 = self.published_log@;
        proof {
            self.published_log@ = log0.push(m@);
            assert forall|j: int| 0 <= j < self.queues@.len() implies queue_inv(
                #[trigger] self.queues@[j],
                cap0,
                log0.push(m@),
            ) by {
                lemma_queue_inv_log_extends(self.queues@[j], cap0, log0, m@);
            }
        }
        let n = self.queues.len();
        let mut i: usize = 0;
        while i < n
            invariant
                i <= n,
                n == self.queues@.len(),
                n == s0.len(),
                self.capacity as nat == cap0,
                1 <= self.capacity,
                self.published_log@ == log0.push(m@),
                forall|j: int|
                    0 <= j < n ==> queue_inv(
                        #[trigger] self.queues@[j],
                        cap0,
                        log0.push(m@),
                    ),
                forall|j: int| i <= j < n ==> slot_view(#[trigger] self.queues@[j]) == s0[j],
                forall|j: int|
                    0 <= j < i ==> slot_view(#[trigger] self.queues@[j]) == publish_one(
                        s0[j],
                        m@,
                        cap0,
                    ),
            decreases n - i,
        {
            let ghost pre = self.queues@;
            let slot = self.queues.remove(i);
            let new_slot = match slot {
                Some(mut q) => {
                    let ghost qv0 = q@;
                    if q.len() == self.capacity {
                        let _dropped = q.pop_front();
                    }
                    q.push_back(m.duplicate());
                    proof {
                        assert(queue_view(q@) =~= push_bounded(queue_view(qv0), m@, cap0));
                        assert forall|k: int| 0 <= k < q@.len() implies log0.push(m@).contains(
                            #[trigger] q@[k]@,
                        ) by {
                            if k < q@.len() - 1 {
                                assert(log0.push(m@).contains(q@[k]@));
                            } else {
                                assert(log0.push(m@)[log0.len() as int] == m@);
                            }
                        }
                    }
                    Some(q)
                },
                None => None,
            };
            let ghost ns = new_slot;
            self.queues.insert(i, new_slot);
            proof {
                assert(self.queues@ =~= pre.update(i as int, ns));
                assert(slot_view(ns) == publish_one(s0[i as int], m@, cap0));
            }
            i += 1;
        }
        proof {
            assert(final(self).slots() =~= publish_all(s0, m@, cap0));
        }
    }

    /// Releases subscription `id`: its slot is cleared and every other
    /// subscription is untouched. Idempotent: releasing an already-released
    /// or unknown id is a no-op.
    pub fn unsubscribe(&mut self, id: usize)
        requires
            old(self).wf(),
        ensures
            final(self).wf(),
            final(self).cap() == old(self).cap(),
            final(self).published() == old(self).published(),
            final(self).slots() == remove_slot(old(self).slots(), id as int),
    {
        if id < self.queues.len() {
            let ghost pre = self.queues@;
            let _removed = self.queues.remove(id);
            self.queues.insert(id, None);
            proof {
                assert(self.queues@ =~= pre.update(id as int, None::<VecDeque<Message>>));
                assert(final(self).slots() =~= remove_slot(old(self).slots(), id as int));
            }
        }
    }

    /// Hands subscription `id` its next buffered message in FIFO order, or
    /// nothing when its queue is empty or the id is not live. Only that one
    /// queue changes, and every message handed out was actually published.
    pub fn pop_next(&mut self, id: usize) -> (r: Option<Message>)
        requires
            old(self).wf(),
        ensures
            final(self).wf(),
            final(self).cap() == old(self).cap(),
            final(self).published() == old(self).published(),
            match r {
                Some(m) => {
                    &&& id < old(self).slots().len()
                    &&& (old(self).slots()[id as int] matches Some(q) && q.len() > 0 && m@ == q[0]
                        && final(self).slots() == old(self).slots().update(
                        id as int,
                        Some(q.drop_first()),
                    ))
                    &&& old(self).published().contains(m@)
                },
                None => {
                    &&& final(self).slots() == old(self).slots()
                    &&& (id < old(self).slots().len() ==> match old(self).slots()[id as int] {
                        Some(q) => q.len() == 0,
                        None => true,
                    })
                },
            },
    {
        if id >= self.queues.len() {
            return None;
        }
        let ghost pre = self.queues@;
        let slot = self.queues.remove(id);
        match slot {
            Some(mut q) => {
                let ghost qv0 = q@;
                let r = q.pop_front();
                let ghost qv1 = q@;
                self.queues.insert(id, Some(q));
                proof {
                    assert(self.queues@ =~= pre.update(id as int, self.queues@[id as int]));
                    if r is Some {
                        assert(queue_view(qv1) =~= queue_view(qv0).drop_first());
                        assert(final(self).slots() =~= old(self).slots().update(
                            id as int,
                            Some(queue_view(qv0).drop_first()),
                        ));
                    } else {
                        assert(final(self).slots() =~= old(self).slots());
                    }
                }
                r
            },
            None => {
                self.queues.insert(id, None);
                proof {
                    assert(self.queues@ =~= pre);
                    assert(final(self).slots() =~= old(self).slots());
                }
                None
            },
        }
    }

    /// The queue bound this hub was created with.
    pub fn capacity(&self) -> (c: usize)
        ensures
            c as nat == self.cap(),
    {
        self.capacity
    }

    /// Whether subscription `id` exists and has not been released.
    pub fn is_live(&self, id: usize) -> (b: bool)
        ensures
            b == (id < self.slots().len() && self.slots()[id as int] is Some),
    {
        if id < self.queues.len() {
            match &self.queues[id] {
                Some(_) => true,
                None => false,
            }
        } else {
            false
        }
    }
}

/// The queue of one subscriber after the messages `msgs` are published in
/// order while the subscriber drains nothing in between.
pub open spec fn publish_seq(q: Seq<MessageView>, msgs: Seq<MessageView>, cap: nat) -> Seq<
    MessageView,
>
    decreases msgs.len(),
{
    if msgs.len() == 0 {
        q
    } else {
        publish_seq(push_bounded(q, msgs[0], cap), msgs.drop_first(), cap)
    }
}

/// Fan-out correctness: a publish reaches every live subscription's queue.
/// The published message becomes the newest entry of each such queue, and a
/// queue that was not yet full keeps everything it had. Released slots stay
/// released and no slot appears or disappears.
pub proof fn lemma_publish_fanout(
    s: Seq<Option<Seq<MessageView>>>,
    m: MessageView,
    cap: nat,
    i: int,
)
    requires
        1 <= cap,
        0 <= i < s.len(),
        s[i] is Some,
    ensures
        publish_all(s, m, cap).len() == s.len(),
        s[i] matches Some(q) ==> {
            &&& publish_all(s, m, cap)[i] == Some(push_bounded(q, m, cap))
            &&& push_bounded(q, m, cap).len() > 0
            &&& push_bounded(q, m, cap).last() == m
            &&& (q.len() < cap ==> push_bounded(q, m, cap) == q.push(m))
        },
{
}

/// Self-echo: the publisher's own subscription is a subscriber like any
/// other, so after it publishes `m` its own queue ends with `m` too.
pub proof fn lemma_self_echo(
    s: Seq<Option<Seq<MessageView>>>,
    m: MessageView,
    cap: nat,
    publisher: int,
)
    requires
        1 <= cap,
        0 <= publisher < s.len(),
        s[publisher] is Some,
    ensures
        publish_all(s, m, cap)[publisher] matches Some(q2) && q2.len() > 0 && q2.last() == m,
{
    lemma_publish_fanout(s, m, cap, publisher);
}

/// The queue left by an uninterrupted run of publishes: the newest messages,
/// as many as fit behind what was already buffered, with the oldest entries
/// dropped first once the bound is reached.
proof fn lemma_publish_seq_suffix(q: Seq<MessageView>, msgs: Seq<MessageView>, cap: nat)
    requires
        1 <= cap,
        q.len() <= cap,
    ensures
        publish_seq(q, msgs, cap) == (if q.len() + msgs.len() <= cap {
            q + msgs
        } else {
            (q + msgs).skip(q.len() + msgs.len() - cap)
        }),
    decreases msgs.len(),
{
    if msgs.len() == 0 {
        assert(q + msgs =~= q);
    } else {
        let m0 = msgs[0];
        let rest = msgs.drop_first();
        let q1 = push_bounded(q, m0, cap);
        lemma_publish_seq_suffix(q1, rest, cap);
        if q.len() < cap {
            assert(q1 + rest =~= q + msgs);
        } else {
            assert(q1 + rest =~= (q + msgs).skip(1));
            if q1.len() + rest.len() <= cap {
                assert((q + msgs).skip(1) =~= (q + msgs).skip(q.len() + msgs.len() - cap));
            } else {
                assert(((q + msgs).skip(1)).skip(q1.len() + rest.len() - cap) =~= (q
                    + msgs).skip(q.len() + msgs.len() - cap));
            }
        }
    }
}

/// Bounded lag: a subscriber that never drains its queue and sees at least
/// C publishes is left with exactly the most recent C of them, oldest
/// dropped first; in particular C+1 publishes leave the last C. No publish
/// along the way blocked or failed.
pub proof fn lemma_bounded_lag(q: Seq<MessageView>, msgs: Seq<MessageView>, cap: nat)
    requires
        1 <= cap,
        q.len() <= cap,
        msgs.len() >= cap,
    ensures
        publish_seq(q, msgs, cap) == msgs.skip(msgs.len() - cap),
{
    lemma_publish_seq_suffix(q, msgs, cap);
    if q.len() + msgs.len() <= cap {
        assert(q + msgs =~= msgs.skip(msgs.len() - cap));
    } else {
        assert((q + msgs).skip(q.len() + msgs.len() - cap) =~= msgs.skip(msgs.len() - cap));
    }
}

/// Identical delivery order: a publish appends the same message under the
/// same policy to every live queue, so subscribers whose queues agreed
/// before a publish agree after it too — every subscriber observes the one
/// global publish order.
pub proof fn lemma_identical_delivery(
    s: Seq<Option<Seq<MessageView>>>,
    m: MessageView,
    cap: nat,
    i: int,
    j: int,
)
    requires
        0 <= i < s.len(),
        0 <= j < s.len(),
        s[i] == s[j],
    ensures
        publish_all(s, m, cap)[i] == publish_all(s, m, cap)[j],
{
}

/// Isolation: releasing one subscription neither changes any other
/// subscription's queue nor what a later publish delivers to it.
pub proof fn lemma_isolation(
    s: Seq<Option<Seq<MessageView>>>,
    closing: int,
    other: int,
    m: MessageView,
    cap: nat,
)
    requires
        0 <= other < s.len(),
        other != closing,
    ensures
        remove_slot(s, closing).len() == s.len(),
        remove_slot(s, closing)[other] == s[other],
        publish_all(remove_slot(s, closing), m, cap)[other] == publish_all(s, m, cap)[other],
{
}

/// Idempotent unsubscribe: releasing a subscription twice leaves the
/// registry exactly as releasing it once does.
pub proof fn lemma_unsubscribe_idempotent(s: Seq<Option<Seq<MessageView>>>, id: int)
    ensures
        remove_slot(remove_slot(s, id), id) == remove_slot(s, id),
{
    if 0 <= id < s.len() {
        assert(remove_slot(remove_slot(s, id), id) =~= remove_slot(s, id));
    }
}

/// A queue that was sound against a publish log stays sound when the log
/// grows by one entry.
proof fn lemma_queue_inv_log_extends(
    slot: Option<VecDeque<Message>>,
    cap: nat,
    log: Seq<MessageView>,
    m: MessageView,
)
    requires
        queue_inv(slot, cap, log),
    ensures
        queue_inv(slot, cap, log.push(m)),
{
    match slot {
        Some(q) => {
            assert forall|k: int| 0 <= k < q@.len() implies log.push(m).contains(
                #[trigger] q@[k]@,
            ) by {
                let x = q@[k]@;
                let idx = choose|idx: int| 0 <= idx < log.len() && log[idx] == x;
                assert(log.push(m)[idx] == x);
            }
        },
        None => {},
    }
}

} // verus!
