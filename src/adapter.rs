//! The two halves of a stream-to-topic bridge, as steps over the hub.
//!
//! An ingress adapter is handed each event of its inbound stream and says
//! whether to go on; an egress adapter reads its subscription and says what
//! to do with its outbound stream. The runtime performs the reads, writes and
//! waits, and hands the outcomes back.
use vstd::prelude::*;

use crate::hub::{publish_effect, same_topics, update_effect, Hub, Subscription};
use crate::message::{subject_of, Message, Subject};
use crate::topic::{pull_of, pulled, Pull};

verus! {

/// What an inbound stream produced.
#[derive(Clone, Debug, PartialEq, Eq)]
pub enum Inbound {
    /// The next message of the stream.
    Received(Message),
    /// The stream ended.
    Ended,
    /// Reading the stream failed.
    Failed,
}

/// Whether an adapter goes on.
#[derive(Clone, Copy, Debug, PartialEq, Eq, Structural)]
pub enum Flow {
    Continue,
    Stop,
}

/// Reads an inbound stream and publishes each message to one topic.
#[derive(Clone, Copy, Debug, PartialEq, Eq, Structural)]
pub struct Ingress {
    pub subject: Subject,
}

/// `event` is a message that an ingress bound to `subject` relays.
pub open spec fn relays(subject: Subject, event: Inbound) -> bool {
    event matches Inbound::Received(m) && subject_of(m) == subject
}

impl Ingress {
    /// An ingress adapter bound to the topic of `subject`.
    pub fn new(subject: Subject) -> (r: Ingress)
        ensures
            r.subject == subject,
    {
        Ingress { subject }
    }

    /// Handles one event of the inbound stream: a message of the bound kind is
    /// published and the adapter goes on; the end of the stream, a read
    /// failure or a message of another kind ends the adapter and leaves the
    /// hub as it is.
    pub fn step(&self, hub: &mut Hub, event: Inbound) -> (r: Flow)
        requires
            old(hub).wf(),
        ensures
            final(hub).wf(),
            relays(self.subject, event) ==> {
                &&& r == Flow::Continue
                &&& event matches Inbound::Received(m) && publish_effect(*old(hub), *final(hub), m)
            },
            !relays(self.subject, event) ==> r == Flow::Stop && same_topics(*old(hub), *final(hub)),
    {
        match event {
            Inbound::Received(m) => {
                if m.subject() == self.subject {
                    hub.publish(m);
                    Flow::Continue
                } else {
                    Flow::Stop
                }
            },
            Inbound::Ended => Flow::Stop,
            Inbound::Failed => Flow::Stop,
        }
    }
}

/// What an egress adapter does next with its outbound stream.
#[derive(Clone, Debug, PartialEq, Eq)]
pub enum EgressAction {
    /// Write this message to the outbound stream.
    Forward(Message),
    /// This many messages were skipped; write nothing and go on.
    NoteLag(u64),
    /// Nothing is available: wait for the next publish.
    Wait,
    /// The subscription is gone: end the adapter.
    Stop,
}

/// The read that leads to `a`.
pub open spec fn pull_for(a: EgressAction) -> Pull {
    match a {
        EgressAction::Forward(m) => Pull::Message(m),
        EgressAction::NoteLag(n) => Pull::Lagged(n),
        EgressAction::Wait => Pull::Empty,
        EgressAction::Stop => Pull::Closed,
    }
}

/// Reads one topic and writes each message to an outbound stream.
#[derive(Clone, Copy, Debug, PartialEq, Eq, Structural)]
pub struct Egress {
    pub subscription: Subscription,
}

impl Egress {
    /// An egress adapter reading `subscription`.
    pub fn new(subscription: Subscription) -> (r: Egress)
        ensures
            r.subscription == subscription,
    {
        Egress { subscription }
    }

    /// Reads the subscription once and says what to do: forward the next
    /// message, note a lag and go on, wait, or stop once the subscription is
    /// gone.
    pub fn step(&self, hub: &mut Hub) -> (r: EgressAction)
        requires
            old(hub).wf(),
        ensures
            final(hub).wf(),
            ({
                let sub = self.subscription;
                let before = old(hub).topic(sub.subject);
                &&& update_effect(
                    *old(hub),
                    *final(hub),
                    sub.subject,
                    pulled(before, sub.id as nat),
                )
                &&& before.backlogs.contains_key(sub.id as nat) ==> pull_of(
                    before.backlogs[sub.id as nat],
                    pull_for(r),
                )
                &&& !before.backlogs.contains_key(sub.id as nat) ==> r == EgressAction::Stop
            }),
    {
        match hub.poll(self.subscription) {
            Pull::Message(m) => EgressAction::Forward(m),
            Pull::Lagged(n) => EgressAction::NoteLag(n),
            Pull::Empty => EgressAction::Wait,
            Pull::Closed => EgressAction::Stop,
        }
    }

    /// After a write to the outbound stream: go on if it was accepted, else
    /// end the adapter.
    pub fn written(&self, accepted: bool) -> (r: Flow)
        ensures
            accepted <==> r == Flow::Continue,
    {
        if accepted {
            Flow::Continue
        } else {
            Flow::Stop
        }
    }

    /// Ends the adapter: its subscription leaves the topic, and every other
    /// subscriber is unaffected.
    pub fn close(self, hub: &mut Hub)
        requires
            old(hub).wf(),
        ensures
            final(hub).wf(),
            update_effect(
                *old(hub),
                *final(hub),
                self.subscription.subject,
                crate::topic::unsubscribed(
                    old(hub).topic(self.subscription.subject),
                    self.subscription.id as nat,
                ),
            ),
    {
        hub.unsubscribe(self.subscription);
    }
}

} // verus!
