//! One streaming call: the adapters it owns and how it winds down.
//!
//! A call moves from `Open` (adapters starting) to `Streaming` (every adapter
//! running), then to `Closing` (one has ended) and `Closed` (all have ended).
//! Each adapter ends on its own: the end of one never ends its sibling.
use vstd::prelude::*;

use crate::adapter::{Egress, Ingress};
use crate::hub::{same_topics, update_effect, Hub};
use crate::message::Subject;
use crate::topic::{subscribed, MAX_SUBSCRIPTIONS};

verus! {

/// The phases of a call.
#[derive(Clone, Copy, Debug, PartialEq, Eq, Structural)]
pub enum Phase {
    Open,
    Streaming,
    Closing,
    Closed,
}

/// The two directions of a call.
#[derive(Clone, Copy, Debug, PartialEq, Eq, Structural)]
pub enum Side {
    Ingress,
    Egress,
}

/// Which adapters a call has, whether they were started, and which still run.
#[derive(Clone, Copy, Debug, PartialEq, Eq, Structural)]
pub struct CallState {
    pub has_ingress: bool,
    pub has_egress: bool,
    pub started: bool,
    pub ingress_live: bool,
    pub egress_live: bool,
}

/// Only adapters that the call has run, and only once it was started.
pub open spec fn call_wf(c: CallState) -> bool {
    &&& c.ingress_live ==> c.has_ingress && c.started
    &&& c.egress_live ==> c.has_egress && c.started
}

/// The phase of a call.
pub open spec fn phase_of(c: CallState) -> Phase {
    if !c.started {
        Phase::Open
    } else if !c.ingress_live && !c.egress_live {
        Phase::Closed
    } else if c.ingress_live == c.has_ingress && c.egress_live == c.has_egress {
        Phase::Streaming
    } else {
        Phase::Closing
    }
}

/// The call after the adapter of `side` ended.
pub open spec fn ended_spec(c: CallState, side: Side) -> CallState {
    match side {
        Side::Ingress => CallState { ingress_live: false, ..c },
        Side::Egress => CallState { egress_live: false, ..c },
    }
}

/// The call after its adapters were started.
pub open spec fn started_spec(c: CallState) -> CallState {
    if c.started {
        c
    } else {
        CallState { started: true, ingress_live: c.has_ingress, egress_live: c.has_egress, ..c }
    }
}

impl CallState {
    /// A call with the given adapters, not started yet.
    pub fn new(has_ingress: bool, has_egress: bool) -> (r: CallState)
        ensures
            call_wf(r),
            r == (CallState {
                has_ingress,
                has_egress,
                started: false,
                ingress_live: false,
                egress_live: false,
            }),
            phase_of(r) == Phase::Open,
    {
        CallState { has_ingress, has_egress, started: false, ingress_live: false, egress_live: false }
    }

    /// Starts the call's adapters; a call already started is left as it is.
    pub fn start(&mut self)
        requires
            call_wf(*old(self)),
        ensures
            call_wf(*final(self)),
            *final(self) == started_spec(*old(self)),
    {
        if !self.started {
            self.started = true;
            self.ingress_live = self.has_ingress;
            self.egress_live = self.has_egress;
        }
    }

    /// Records that the adapter of `side` ended; the other side is unaffected.
    pub fn ended(&mut self, side: Side)
        requires
            call_wf(*old(self)),
        ensures
            call_wf(*final(self)),
            *final(self) == ended_spec(*old(self), side),
    {
        match side {
            Side::Ingress => self.ingress_live = false,
            Side::Egress => self.egress_live = false,
        }
    }

    /// Whether the adapter of `side` still runs.
    pub fn is_live(&self, side: Side) -> (r: bool)
        ensures
            r == match side {
                Side::Ingress => self.ingress_live,
                Side::Egress => self.egress_live,
            },
    {
        match side {
            Side::Ingress => self.ingress_live,
            Side::Egress => self.egress_live,
        }
    }

    /// The phase of the call.
    pub fn phase(&self) -> (r: Phase)
        ensures
            r == phase_of(*self),
    {
        if !self.started {
            Phase::Open
        } else if !self.ingress_live && !self.egress_live {
            Phase::Closed
        } else if self.ingress_live == self.has_ingress && self.egress_live == self.has_egress {
            Phase::Streaming
        } else {
            Phase::Closing
        }
    }
}

/// The end of one adapter of a call leaves its sibling running: once the
/// ingress side ended, the egress side runs exactly when it ran before.
pub proof fn lemma_sides_end_independently(c: CallState, side: Side)
    requires
        call_wf(c),
    ensures
        call_wf(ended_spec(c, side)),
        side == Side::Ingress ==> ended_spec(c, side).egress_live == c.egress_live,
        side == Side::Egress ==> ended_spec(c, side).ingress_live == c.ingress_live,
        c.started && c.has_ingress && c.has_egress && c.ingress_live && c.egress_live ==> phase_of(
            ended_spec(c, side),
        ) == Phase::Closing,
{
}

/// The adapters of one call and its state.
pub struct Call {
    pub ingress: Option<Ingress>,
    pub egress: Option<Egress>,
    pub state: CallState,
}

/// `c` is a call not yet started whose ingress is bound to `ingress` and
/// whose egress reads subscription `id` of `egress`.
pub open spec fn call_opened(c: Call, ingress: Option<Subject>, egress: Option<Subject>, id: nat) -> bool {
    &&& match ingress {
        Some(s) => c.ingress == Some(Ingress { subject: s }),
        None => c.ingress is None,
    }
    &&& match egress {
        Some(s) => c.egress matches Some(e) && e.subscription.subject == s
            && e.subscription.id as nat == id,
        None => c.egress is None,
    }
    &&& c.state == CallState {
        has_ingress: ingress is Some,
        has_egress: egress is Some,
        started: false,
        ingress_live: false,
        egress_live: false,
    }
}

/// Whether a call whose egress reads `egress` can still be opened on `hub`.
pub open spec fn can_open(hub: Hub, egress: Option<Subject>) -> bool {
    match egress {
        Some(s) => hub.topic(s).next_id < MAX_SUBSCRIPTIONS,
        None => true,
    }
}

/// The hub after a call with egress `egress` was opened on `before`.
pub open spec fn opened_effect(before: Hub, after: Hub, egress: Option<Subject>) -> bool {
    match egress {
        Some(s) => update_effect(before, after, s, subscribed(before.topic(s))),
        None => same_topics(before, after),
    }
}

/// Opens a call: the egress, if any, subscribes at the tail of its topic,
/// and the ingress, if any, is bound to its topic. `None`, with the hub
/// unchanged, only when the egress topic has no subscription left to give.
pub fn open_call(hub: &mut Hub, ingress: Option<Subject>, egress: Option<Subject>) -> (r: Option<Call>)
    requires
        old(hub).wf(),
    ensures
        final(hub).wf(),
        can_open(*old(hub), egress) ==> {
            &&& r matches Some(c)
            &&& call_opened(
                c,
                ingress,
                egress,
                match egress {
                    Some(s) => old(hub).topic(s).next_id,
                    None => 0,
                },
            )
            &&& opened_effect(*old(hub), *final(hub), egress)
        },
        !can_open(*old(hub), egress) ==> r is None && same_topics(*old(hub), *final(hub)),
{
    let ingress_adapter = match ingress {
        Some(s) => Some(Ingress::new(s)),
        None => None,
    };
    let egress_adapter = match egress {
        Some(s) => match hub.subscribe(s) {
            Some(sub) => Some(Egress::new(sub)),
            None => {
                return None;
            },
        },
        None => None,
    };
    let state = CallState::new(ingress.is_some(), egress.is_some());
    Some(Call { ingress: ingress_adapter, egress: egress_adapter, state })
}

} // verus!
