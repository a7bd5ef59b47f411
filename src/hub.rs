//! The hub: one topic per subject, created once and shared by every call.
//!
//! The hub owns each topic's sending side, so a topic stays open as long as
//! the hub lives: publishing never fails, it reaches whoever is attached.
use vstd::prelude::*;

use crate::message::{subject_of, Message, Subject};
use crate::topic::{
    fresh_topic, published, pull_of, pulled, round_capacity, subscribed, topic_wf, unsubscribed, Pull,
    Topic, TopicView, MAX_CAPACITY, MAX_SUBSCRIPTIONS,
};

verus! {

/// A subscriber of one topic of the hub.
#[derive(Clone, Copy, Debug, PartialEq, Eq, Structural)]
pub struct Subscription {
    pub subject: Subject,
    pub id: usize,
}

/// The topics of the hub, one per subject.
pub struct Hub {
    command: Topic,
    line: Topic,
    operation: Topic,
    notification: Topic,
    online_players: Topic,
}

/// `after` is `before` with `m` published to the topic of its kind.
pub open spec fn publish_effect(before: Hub, after: Hub, m: Message) -> bool {
    forall|s: Subject|
        #[trigger] after.topic(s) == if s == subject_of(m) {
            published(before.topic(s), m)
        } else {
            before.topic(s)
        }
}

/// `after` is `before` with topic `s` changed into `v`.
pub open spec fn update_effect(before: Hub, after: Hub, s: Subject, v: TopicView) -> bool {
    forall|t: Subject| #[trigger] after.topic(t) == if t == s { v } else { before.topic(t) }
}

/// `a` and `b` have the same topics.
pub open spec fn same_topics(a: Hub, b: Hub) -> bool {
    forall|s: Subject| #[trigger] a.topic(s) == b.topic(s)
}

impl Hub {
    /// The state of the topic of subject `s`.
    pub closed spec fn topic(&self, s: Subject) -> TopicView {
        match s {
            Subject::Command => self.command@,
            Subject::Line => self.line@,
            Subject::Operation => self.operation@,
            Subject::Notification => self.notification@,
            Subject::OnlinePlayers => self.online_players@,
        }
    }

    /// Every topic is well formed.
    pub closed spec fn wf(&self) -> bool {
        &&& self.command.wf()
        &&& self.line.wf()
        &&& self.operation.wf()
        &&& self.notification.wf()
        &&& self.online_players.wf()
    }

    /// A well-formed hub has well-formed topic states.
    pub proof fn lemma_topics_wf(&self)
        requires
            self.wf(),
        ensures
            forall|s: Subject| topic_wf(#[trigger] self.topic(s)),
    {
        assert forall|s: Subject| topic_wf(#[trigger] self.topic(s)) by {
            match s {
                Subject::Command => self.command.lemma_wf(),
                Subject::Line => self.line.lemma_wf(),
                Subject::Operation => self.operation.lemma_wf(),
                Subject::Notification => self.notification.lemma_wf(),
                Subject::OnlinePlayers => self.online_players.lemma_wf(),
            }
        }
    }

    /// A hub whose topics hold the given numbers of messages, each rounded up
    /// to a power of two.
    pub fn new(
        command: usize,
        line: usize,
        operation: usize,
        notification: usize,
        online_players: usize,
    ) -> (r: Hub)
        requires
            0 < command <= MAX_CAPACITY,
            0 < line <= MAX_CAPACITY,
            0 < operation <= MAX_CAPACITY,
            0 < notification <= MAX_CAPACITY,
            0 < online_players <= MAX_CAPACITY,
        ensures
            r.wf(),
            r.topic(Subject::Command) == fresh_topic(round_capacity(command as nat)),
            r.topic(Subject::Line) == fresh_topic(round_capacity(line as nat)),
            r.topic(Subject::Operation) == fresh_topic(round_capacity(operation as nat)),
            r.topic(Subject::Notification) == fresh_topic(round_capacity(notification as nat)),
            r.topic(Subject::OnlinePlayers) == fresh_topic(round_capacity(online_players as nat)),
    {
        Hub {
            command: Topic::new(command),
            line: Topic::new(line),
            operation: Topic::new(operation),
            notification: Topic::new(notification),
            online_players: Topic::new(online_players),
        }
    }

    /// A hub whose every topic holds `capacity` messages, rounded up to a
    /// power of two.
    pub fn with_capacity(capacity: usize) -> (r: Hub)
        requires
            0 < capacity <= MAX_CAPACITY,
        ensures
            r.wf(),
            forall|s: Subject| #[trigger] r.topic(s) == fresh_topic(round_capacity(capacity as nat)),
    {
        let r = Hub::new(capacity, capacity, capacity, capacity, capacity);
        assert forall|s: Subject| #[trigger] r.topic(s) == fresh_topic(round_capacity(capacity as nat)) by {
            match s {
                Subject::Command => {},
                Subject::Line => {},
                Subject::Operation => {},
                Subject::Notification => {},
                Subject::OnlinePlayers => {},
            }
        }
        r
    }

    /// Delivers `m` to every subscriber of the topic of its kind and returns
    /// how many there are.
    pub fn publish(&mut self, m: Message) -> (n: usize)
        requires
            old(self).wf(),
        ensures
            final(self).wf(),
            publish_effect(*old(self), *final(self), m),
            n as nat == old(self).topic(subject_of(m)).backlogs.dom().len(),
    {
        let s = m.subject();
        match s {
            Subject::Command => self.command.publish(m),
            Subject::Line => self.line.publish(m),
            Subject::Operation => self.operation.publish(m),
            Subject::Notification => self.notification.publish(m),
            Subject::OnlinePlayers => self.online_players.publish(m),
        }
    }

    /// Attaches a subscriber at the tail of topic `s`; `None` once that topic
    /// has handed out `MAX_SUBSCRIPTIONS` subscriptions.
    pub fn subscribe(&mut self, s: Subject) -> (r: Option<Subscription>)
        requires
            old(self).wf(),
        ensures
            final(self).wf(),
            old(self).topic(s).next_id < MAX_SUBSCRIPTIONS ==> {
                &&& r matches Some(sub)
                &&& sub.subject == s
                &&& sub.id as nat == old(self).topic(s).next_id
                &&& update_effect(*old(self), *final(self), s, subscribed(old(self).topic(s)))
            },
            old(self).topic(s).next_id >= MAX_SUBSCRIPTIONS ==> {
                &&& r is None
                &&& same_topics(*old(self), *final(self))
            },
    {
        let r = match s {
            Subject::Command => self.command.subscribe(),
            Subject::Line => self.line.subscribe(),
            Subject::Operation => self.operation.subscribe(),
            Subject::Notification => self.notification.subscribe(),
            Subject::OnlinePlayers => self.online_players.subscribe(),
        };
        match r {
            Some(id) => Some(Subscription { subject: s, id }),
            None => None,
        }
    }

    /// Detaches `sub` from its topic; every other subscriber is unaffected.
    pub fn unsubscribe(&mut self, sub: Subscription)
        requires
            old(self).wf(),
        ensures
            final(self).wf(),
            update_effect(
                *old(self),
                *final(self),
                sub.subject,
                unsubscribed(old(self).topic(sub.subject), sub.id as nat),
            ),
    {
        match sub.subject {
            Subject::Command => self.command.unsubscribe(sub.id),
            Subject::Line => self.line.unsubscribe(sub.id),
            Subject::Operation => self.operation.unsubscribe(sub.id),
            Subject::Notification => self.notification.unsubscribe(sub.id),
            Subject::OnlinePlayers => self.online_players.unsubscribe(sub.id),
        }
    }

    /// Reads once for `sub`: the count of messages it missed if it fell
    /// behind, else its next message, else `Empty`; `Closed` once it is
    /// detached.
    pub fn poll(&mut self, sub: Subscription) -> (r: Pull)
        requires
            old(self).wf(),
        ensures
            final(self).wf(),
            update_effect(
                *old(self),
                *final(self),
                sub.subject,
                pulled(old(self).topic(sub.subject), sub.id as nat),
            ),
            old(self).topic(sub.subject).backlogs.contains_key(sub.id as nat) ==> pull_of(
                old(self).topic(sub.subject).backlogs[sub.id as nat],
                r,
            ),
            !old(self).topic(sub.subject).backlogs.contains_key(sub.id as nat) ==> r
                == Pull::Closed,
    {
        match sub.subject {
            Subject::Command => self.command.poll(sub.id),
            Subject::Line => self.line.poll(sub.id),
            Subject::Operation => self.operation.poll(sub.id),
            Subject::Notification => self.notification.poll(sub.id),
            Subject::OnlinePlayers => self.online_players.poll(sub.id),
        }
    }
}

} // verus!
