//! A topic: a bounded multicast channel carrying messages to its subscribers.
//!
//! The channel itself is tokio's broadcast channel. Its state is described by
//! a `TopicView`: the capacity of the ring buffer, the number of subscriber
//! slots handed out, and for each attached subscriber its backlog, that is
//! the count of messages overwritten before it read them and the messages
//! still held for it, oldest first.
use tokio::sync::broadcast;
use vstd::prelude::*;

use crate::message::Message;

verus! {

/// The largest capacity that a topic accepts.
pub const MAX_CAPACITY: usize = usize::MAX >> 1;

/// The number of subscriptions that one topic hands out over its lifetime.
pub const MAX_SUBSCRIPTIONS: usize = usize::MAX >> 2;

/// The smallest power of two, starting from `p` and doubling, that is at least `n`.
pub open spec fn pow2_from(n: nat, p: nat) -> nat
    decreases (if p >= n { 0 } else { n - p }),
{
    if p == 0 || p >= n {
        p
    } else {
        pow2_from(n, p * 2)
    }
}

/// The smallest power of two that is at least `n`.
pub open spec fn round_capacity(n: nat) -> nat {
    pow2_from(n, 1)
}

/// The state of a topic.
pub struct TopicView {
    /// How many messages the ring buffer holds.
    pub capacity: nat,
    /// The identifier that the next subscriber gets.
    pub next_id: nat,
    /// For each attached subscriber: (messages it missed, messages held for it).
    pub backlogs: Map<nat, (nat, Seq<Message>)>,
}

/// A topic with no subscriber yet.
pub open spec fn fresh_topic(capacity: nat) -> TopicView {
    TopicView { capacity, next_id: 0, backlogs: Map::empty() }
}

/// A backlog after `m` was published: when it already holds `capacity`
/// messages, its oldest is overwritten and counted as missed.
pub open spec fn enqueue(b: (nat, Seq<Message>), m: Message, capacity: nat) -> (nat, Seq<Message>) {
    if b.1.len() < capacity {
        (b.0, b.1.push(m))
    } else {
        (b.0 + 1, b.1.push(m).drop_first())
    }
}

/// The topic after `m` was published: every attached subscriber gets it.
pub open spec fn published(v: TopicView, m: Message) -> TopicView {
    TopicView {
        capacity: v.capacity,
        next_id: v.next_id,
        backlogs: v.backlogs.map_values(|b: (nat, Seq<Message>)| enqueue(b, m, v.capacity)),
    }
}

/// The topic after a new subscriber attached at its tail.
pub open spec fn subscribed(v: TopicView) -> TopicView {
    TopicView {
        capacity: v.capacity,
        next_id: v.next_id + 1,
        backlogs: v.backlogs.insert(v.next_id, (0, Seq::empty())),
    }
}

/// The topic after subscriber `id` detached.
pub open spec fn unsubscribed(v: TopicView, id: nat) -> TopicView {
    TopicView { capacity: v.capacity, next_id: v.next_id, backlogs: v.backlogs.remove(id) }
}

/// What one read of a subscription yields.
#[derive(Clone, Debug, PartialEq, Eq)]
pub enum Pull {
    /// The next message.
    Message(Message),
    /// This many messages were overwritten before they were read.
    Lagged(u64),
    /// Nothing is available yet.
    Empty,
    /// The subscription is gone: nothing will come any more.
    Closed,
}

/// `r` is what reading backlog `b` yields: first the count of missed
/// messages, if any, then the oldest message held.
pub open spec fn pull_of(b: (nat, Seq<Message>), r: Pull) -> bool {
    match r {
        Pull::Lagged(n) => b.0 > 0 && n as nat == b.0,
        Pull::Message(m) => b.0 == 0 && b.1.len() > 0 && m == b.1[0],
        Pull::Empty => b.0 == 0 && b.1.len() == 0,
        Pull::Closed => false,
    }
}

/// Backlog `b` after one read.
pub open spec fn after_pull(b: (nat, Seq<Message>)) -> (nat, Seq<Message>) {
    if b.0 > 0 {
        (0, b.1)
    } else if b.1.len() > 0 {
        (0, b.1.drop_first())
    } else {
        b
    }
}

/// The topic after subscriber `id` read once.
pub open spec fn pulled(v: TopicView, id: nat) -> TopicView {
    if v.backlogs.contains_key(id) {
        TopicView {
            capacity: v.capacity,
            next_id: v.next_id,
            backlogs: v.backlogs.insert(id, after_pull(v.backlogs[id])),
        }
    } else {
        v
    }
}

/// The state that every topic keeps: finitely many subscribers, each with
/// an identifier already handed out and at most `capacity` messages held.
pub open spec fn topic_wf(v: TopicView) -> bool {
    &&& v.capacity > 0
    &&& v.backlogs.dom().finite()
    &&& forall|id: nat| #[trigger] v.backlogs.contains_key(id) ==> id < v.next_id
    &&& forall|id: nat| #[trigger] v.backlogs.contains_key(id) ==> v.backlogs[id].1.len() <= v.capacity
}

/// A tokio broadcast channel together with the receivers of its subscribers,
/// one slot per subscription ever made.
#[verifier::external_body]
pub struct Channel {
    sender: broadcast::Sender<Message>,
    receivers: Vec<Option<broadcast::Receiver<Message>>>,
}

/// The capacity of a channel's ring buffer.
pub uninterp spec fn channel_capacity(c: Channel) -> nat;

/// The number of subscriber slots of a channel.
pub uninterp spec fn channel_slots(c: Channel) -> nat;

/// What a channel holds for each attached receiver: (missed, held messages).
pub uninterp spec fn channel_backlogs(c: Channel) -> Map<nat, (nat, Seq<Message>)>;

impl View for Channel {
    type V = TopicView;

    open spec fn view(&self) -> TopicView {
        TopicView {
            capacity: channel_capacity(*self),
            next_id: channel_slots(*self),
            backlogs: channel_backlogs(*self),
        }
    }
}

impl Channel {
    /// Relies on tokio's `broadcast::Sender::new`: a channel without receivers
    /// whose ring buffer holds `capacity` rounded up to a power of two; it
    /// panics on a capacity of zero or above `usize::MAX / 2`.
    #[verifier::external_body]
    fn open(capacity: usize) -> (r: Channel)
        requires
            0 < capacity <= MAX_CAPACITY,
        ensures
            channel_capacity(r) == round_capacity(capacity as nat),
            channel_slots(r) == 0,
            channel_backlogs(r).dom() == Set::<nat>::empty(),
    {
        Channel { sender: broadcast::Sender::new(capacity), receivers: Vec::new() }
    }

    /// Relies on tokio's `broadcast::Sender::send`: the value is written at the
    /// tail of the ring buffer, overwriting the oldest value once the buffer is
    /// full, and `Ok` gives the number of receivers; with no receiver it fails
    /// and nothing is written.
    #[verifier::external_body]
    fn send(&mut self, m: Message) -> (n: usize)
        ensures
            channel_capacity(*final(self)) == channel_capacity(*old(self)),
            channel_slots(*final(self)) == channel_slots(*old(self)),
            channel_backlogs(*final(self)) == published(old(self)@, m).backlogs,
            n as nat == channel_backlogs(*old(self)).dom().len(),
    {
        match self.sender.send(m) {
            Ok(n) => n,
            Err(_) => 0,
        }
    }

    /// Relies on tokio's `broadcast::Sender::subscribe`: a receiver that gets
    /// the values sent after this call; it panics once `usize::MAX / 4`
    /// receivers are alive.
    #[verifier::external_body]
    fn attach(&mut self) -> (id: usize)
        requires
            old(self)@.next_id < MAX_SUBSCRIPTIONS,
        ensures
            id as nat == channel_slots(*old(self)),
            channel_capacity(*final(self)) == channel_capacity(*old(self)),
            channel_slots(*final(self)) == channel_slots(*old(self)) + 1,
            channel_backlogs(*final(self)) == channel_backlogs(*old(self)).insert(
                id as nat,
                (0, Seq::empty()),
            ),
    {
        let id = self.receivers.len();
        self.receivers.push(Some(self.sender.subscribe()));
        id
    }

    /// Relies on tokio's `broadcast::Receiver` drop: the receiver leaves the
    /// channel and the others are not affected.
    #[verifier::external_body]
    fn detach(&mut self, id: usize)
        requires
            (id as nat) < old(self)@.next_id,
        ensures
            channel_capacity(*final(self)) == channel_capacity(*old(self)),
            channel_slots(*final(self)) == channel_slots(*old(self)),
            channel_backlogs(*final(self)) == channel_backlogs(*old(self)).remove(id as nat),
    {
        self.receivers[id] = None;
    }

    /// Relies on tokio's `broadcast::Receiver::try_recv`: a receiver that fell
    /// behind by more than the capacity first gets `Lagged` with the count of
    /// overwritten values and moves to the oldest value held; otherwise it gets
    /// the next value, or `Empty`. `Closed` comes only once every sender is
    /// gone, which the channel's own sender prevents.
    #[verifier::external_body]
    fn take(&mut self, id: usize) -> (r: Pull)
        requires
            (id as nat) < old(self)@.next_id,
        ensures
            channel_backlogs(*old(self)).contains_key(id as nat) ==> pull_of(
                channel_backlogs(*old(self))[id as nat],
                r,
            ),
            !channel_backlogs(*old(self)).contains_key(id as nat) ==> r == Pull::Closed,
            channel_capacity(*final(self)) == channel_capacity(*old(self)),
            channel_slots(*final(self)) == channel_slots(*old(self)),
            channel_backlogs(*final(self)) == pulled(old(self)@, id as nat).backlogs,
    {
        match &mut self.receivers[id] {
            Some(rx) => match rx.try_recv() {
                Ok(m) => Pull::Message(m),
                Err(broadcast::error::TryRecvError::Lagged(n)) => Pull::Lagged(n),
                Err(broadcast::error::TryRecvError::Empty) => Pull::Empty,
                Err(broadcast::error::TryRecvError::Closed) => Pull::Closed,
            },
            None => Pull::Closed,
        }
    }
}

/// The smallest power of two from `p` on that is at least `n` is at least `p`
/// and at least `n`.
pub proof fn lemma_pow2_from_bounds(n: nat, p: nat)
    requires
        p > 0,
    ensures
        pow2_from(n, p) >= p,
        pow2_from(n, p) >= n,
    decreases (if p >= n { 0 } else { n - p }),
{
    if p < n {
        lemma_pow2_from_bounds(n, p * 2);
    }
}

/// Publishing keeps a topic well formed and its subscribers as they are.
proof fn lemma_published_wf(v: TopicView, m: Message)
    requires
        topic_wf(v),
    ensures
        topic_wf(published(v, m)),
        published(v, m).backlogs.dom() == v.backlogs.dom(),
{
    assert(published(v, m).backlogs.dom() =~= v.backlogs.dom());
}

/// Reading keeps a topic well formed and its subscribers as they are.
proof fn lemma_pulled_wf(v: TopicView, id: nat)
    requires
        topic_wf(v),
    ensures
        topic_wf(pulled(v, id)),
        pulled(v, id).backlogs.dom() == v.backlogs.dom(),
{
    assert(pulled(v, id).backlogs.dom() =~= v.backlogs.dom());
}

/// A topic: a channel and the identifier of its next subscriber.
pub struct Topic {
    channel: Channel,
    next_id: usize,
}

impl View for Topic {
    type V = TopicView;

    closed spec fn view(&self) -> TopicView {
        self.channel@
    }
}

impl Topic {
    /// The topic's state keeps `topic_wf` and its counter agrees with it.
    pub closed spec fn wf(&self) -> bool {
        &&& topic_wf(self.channel@)
        &&& self.next_id as nat == self.channel@.next_id
    }

    /// The state of a well-formed topic keeps `topic_wf`.
    pub proof fn lemma_wf(&self)
        requires
            self.wf(),
        ensures
            topic_wf(self@),
    {
    }

    /// A topic whose ring buffer holds `capacity` messages, rounded up to a
    /// power of two, with no subscriber.
    pub fn new(capacity: usize) -> (r: Topic)
        requires
            0 < capacity <= MAX_CAPACITY,
        ensures
            r.wf(),
            r@ == fresh_topic(round_capacity(capacity as nat)),
    {
        let channel = Channel::open(capacity);
        proof {
            lemma_pow2_from_bounds(capacity as nat, 1);
            assert(channel@.backlogs =~= Map::empty());
        }
        Topic { channel, next_id: 0 }
    }

    /// Delivers `m` to every attached subscriber and returns how many there are.
    pub fn publish(&mut self, m: Message) -> (n: usize)
        requires
            old(self).wf(),
        ensures
            final(self).wf(),
            final(self)@ == published(old(self)@, m),
            n as nat == old(self)@.backlogs.dom().len(),
    {
        let n = self.channel.send(m);
        proof {
            lemma_published_wf(old(self)@, m);
        }
        n
    }

    /// Attaches a subscriber at the tail and returns its identifier, or
    /// `None` once the topic has handed out `MAX_SUBSCRIPTIONS` of them.
    pub fn subscribe(&mut self) -> (r: Option<usize>)
        requires
            old(self).wf(),
        ensures
            final(self).wf(),
            old(self)@.next_id < MAX_SUBSCRIPTIONS ==> {
                &&& r matches Some(id)
                &&& id as nat == old(self)@.next_id
                &&& final(self)@ == subscribed(old(self)@)
            },
            old(self)@.next_id >= MAX_SUBSCRIPTIONS ==> r is None && final(self)@ == old(self)@,
    {
        if self.next_id < MAX_SUBSCRIPTIONS {
            let id = self.channel.attach();
            self.next_id = self.next_id + 1;
            proof {
                assert(self.channel@.backlogs.dom() =~= old(self)@.backlogs.dom().insert(id as nat));
            }
            Some(id)
        } else {
            None
        }
    }

    /// Detaches subscriber `id`; the others are not affected.
    pub fn unsubscribe(&mut self, id: usize)
        requires
            old(self).wf(),
        ensures
            final(self).wf(),
            final(self)@ == unsubscribed(old(self)@, id as nat),
    {
        if id < self.next_id {
            self.channel.detach(id);
        } else {
            assert(old(self)@.backlogs.remove(id as nat) =~= old(self)@.backlogs);
        }
    }

    /// Reads once for subscriber `id`: the count of missed messages if it
    /// fell behind, else its next message, else `Empty`; `Closed` for an
    /// identifier that is not attached.
    pub fn poll(&mut self, id: usize) -> (r: Pull)
        requires
            old(self).wf(),
        ensures
            final(self).wf(),
            final(self)@ == pulled(old(self)@, id as nat),
            old(self)@.backlogs.contains_key(id as nat) ==> pull_of(old(self)@.backlogs[id as nat], r),
            !old(self)@.backlogs.contains_key(id as nat) ==> r == Pull::Closed,
    {
        if id < self.next_id {
            let r = self.channel.take(id);
            proof {
                lemma_pulled_wf(old(self)@, id as nat);
            }
            r
        } else {
            Pull::Closed
        }
    }
}

} // verus!
