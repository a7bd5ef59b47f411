//! The payloads carried by the hub, one kind per topic.
use vstd::prelude::*;

verus! {

/// The logical subjects of the hub: each owns exactly one topic.
#[derive(Clone, Copy, Debug, PartialEq, Eq, Structural)]
pub enum Subject {
    Command,
    Line,
    Operation,
    Notification,
    OnlinePlayers,
}

/// A management operation. New kinds of operation are added as new variants.
#[derive(Clone, Copy, Debug, PartialEq, Eq, Structural)]
#[non_exhaustive]
pub enum Operation {
    Start,
}

/// One entry of the roster of online players: an identifier and a name.
#[derive(Clone, Debug, PartialEq, Eq)]
pub struct OnlinePlayer {
    pub id: String,
    pub name: String,
}

/// The full roster, replaced wholesale on each publish.
pub type OnlinePlayers = Vec<OnlinePlayer>;

/// An immutable payload of one of the five kinds.
#[derive(Clone, Debug, PartialEq, Eq)]
pub enum Message {
    Command(String),
    Line(String),
    Operation(Operation),
    Notification(String),
    OnlinePlayers(OnlinePlayers),
}

/// The subject whose topic carries messages of the kind of `m`.
pub open spec fn subject_of(m: Message) -> Subject {
    match m {
        Message::Command(_) => Subject::Command,
        Message::Line(_) => Subject::Line,
        Message::Operation(_) => Subject::Operation,
        Message::Notification(_) => Subject::Notification,
        Message::OnlinePlayers(_) => Subject::OnlinePlayers,
    }
}

impl Message {
    /// The subject whose topic carries this message.
    pub fn subject(&self) -> (r: Subject)
        ensures
            r == subject_of(*self),
    {
        match self {
            Message::Command(_) => Subject::Command,
            Message::Line(_) => Subject::Line,
            Message::Operation(_) => Subject::Operation,
            Message::Notification(_) => Subject::Notification,
            Message::OnlinePlayers(_) => Subject::OnlinePlayers,
        }
    }
}

} // verus!
