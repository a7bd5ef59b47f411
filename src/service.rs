//! The RPC-facing handlers: each call opens the adapters that its RPC binds.
//!
//! The client-facing group relays commands and operations in and console
//! lines, notifications and the roster out; the group facing the supervised
//! process binds the inverse directions; the roster producer only publishes.
use vstd::prelude::*;

use crate::call::{call_opened, can_open, open_call, opened_effect, Call};
use crate::hub::{same_topics, Hub};
use crate::message::Subject;

verus! {

/// The handler for the supervised process: it sends console lines and
/// notifications, and receives commands and operations.
pub struct WeaverService {}

impl WeaverService {
    /// The handler; the topics it binds live in the hub that each call is handed.
    pub fn new() -> (r: WeaverService) {
        WeaverService {}
    }

    /// Console: lines in to the Line topic, commands out from the Command topic.
    pub fn console(&self, hub: &mut Hub) -> (r: Option<Call>)
        requires
            old(hub).wf(),
        ensures
            final(hub).wf(),
            can_open(*old(hub), Some(Subject::Command)) ==> {
                &&& r matches Some(c)
                &&& call_opened(c, Some(Subject::Line), Some(Subject::Command), old(hub).topic(Subject::Command).next_id)
                &&& opened_effect(*old(hub), *final(hub), Some(Subject::Command))
            },
            !can_open(*old(hub), Some(Subject::Command)) ==> r is None && same_topics(*old(hub), *final(hub)),
    {
        open_call(hub, Some(Subject::Line), Some(Subject::Command))
    }

    /// Management: notifications in to the Notification topic, operations out from the Operation topic.
    pub fn management(&self, hub: &mut Hub) -> (r: Option<Call>)
        requires
            old(hub).wf(),
        ensures
            final(hub).wf(),
            can_open(*old(hub), Some(Subject::Operation)) ==> {
                &&& r matches Some(c)
                &&& call_opened(c, Some(Subject::Notification), Some(Subject::Operation), old(hub).topic(Subject::Operation).next_id)
                &&& opened_effect(*old(hub), *final(hub), Some(Subject::Operation))
            },
            !can_open(*old(hub), Some(Subject::Operation)) ==> r is None && same_topics(*old(hub), *final(hub)),
    {
        open_call(hub, Some(Subject::Notification), Some(Subject::Operation))
    }
}

/// The handler for management clients: they send commands and operations,
/// and receive console lines, notifications and the roster.
pub struct EnderVisionService {}

impl EnderVisionService {
    /// The handler; the topics it binds live in the hub that each call is handed.
    pub fn new() -> (r: EnderVisionService) {
        EnderVisionService {}
    }

    /// Console: commands in to the Command topic, lines out from the Line topic.
    pub fn console(&self, hub: &mut Hub) -> (r: Option<Call>)
        requires
            old(hub).wf(),
        ensures
            final(hub).wf(),
            can_open(*old(hub), Some(Subject::Line)) ==> {
                &&& r matches Some(c)
                &&& call_opened(c, Some(Subject::Command), Some(Subject::Line), old(hub).topic(Subject::Line).next_id)
                &&& opened_effect(*old(hub), *final(hub), Some(Subject::Line))
            },
            !can_open(*old(hub), Some(Subject::Line)) ==> r is None && same_topics(*old(hub), *final(hub)),
    {
        open_call(hub, Some(Subject::Command), Some(Subject::Line))
    }

    /// Management: operations in to the Operation topic, notifications out from the Notification topic.
    pub fn management(&self, hub: &mut Hub) -> (r: Option<Call>)
        requires
            old(hub).wf(),
        ensures
            final(hub).wf(),
            can_open(*old(hub), Some(Subject::Notification)) ==> {
                &&& r matches Some(c)
                &&& call_opened(c, Some(Subject::Operation), Some(Subject::Notification), old(hub).topic(Subject::Notification).next_id)
                &&& opened_effect(*old(hub), *final(hub), Some(Subject::Notification))
            },
            !can_open(*old(hub), Some(Subject::Notification)) ==> r is None && same_topics(*old(hub), *final(hub)),
    {
        open_call(hub, Some(Subject::Operation), Some(Subject::Notification))
    }

    /// Roster: each published roster out from the OnlinePlayers topic.
    pub fn online_players(&self, hub: &mut Hub) -> (r: Option<Call>)
        requires
            old(hub).wf(),
        ensures
            final(hub).wf(),
            can_open(*old(hub), Some(Subject::OnlinePlayers)) ==> {
                &&& r matches Some(c)
                &&& call_opened(c, None, Some(Subject::OnlinePlayers), old(hub).topic(Subject::OnlinePlayers).next_id)
                &&& opened_effect(*old(hub), *final(hub), Some(Subject::OnlinePlayers))
            },
            !can_open(*old(hub), Some(Subject::OnlinePlayers)) ==> r is None && same_topics(*old(hub), *final(hub)),
    {
        open_call(hub, None, Some(Subject::OnlinePlayers))
    }
}

/// The handler for the roster producer: it publishes full rosters.
pub struct AcrobatService {}

impl AcrobatService {
    /// The handler; the topics it binds live in the hub that each call is handed.
    pub fn new() -> (r: AcrobatService) {
        AcrobatService {}
    }

    /// Roster ingestion: each roster in to the OnlinePlayers topic, wholesale.
    pub fn online_players(&self, hub: &mut Hub) -> (r: Option<Call>)
        requires
            old(hub).wf(),
        ensures
            final(hub).wf(),
            can_open(*old(hub), None) ==> {
                &&& r matches Some(c)
                &&& call_opened(c, Some(Subject::OnlinePlayers), None, 0)
                &&& opened_effect(*old(hub), *final(hub), None)
            },
            !can_open(*old(hub), None) ==> r is None && same_topics(*old(hub), *final(hub)),
    {
        open_call(hub, Some(Subject::OnlinePlayers), None)
    }
}

} // verus!
