//! What the connection to the server tells the dashboard, and what the
//! dashboard asks of it.

use vstd::prelude::*;
use crate::ui::ConnectionStatus;

verus! {

/// A message between the connection and the dashboard.
#[derive(Debug, Clone)]
pub enum NtUpdate {
    /// A topic, with its value as text.
    Subscribed(String, String),
    /// A topic, with the value to publish on it.
    Publish(String, rmpv::Value),
    /// The state of the connection.
    ConnectionStatus(ConnectionStatus),
}

impl NtUpdate {
    /// The text that stands for the value of a topic of which no value was
    /// received yet.
    pub open spec fn no_value() -> Seq<char> {
        "None"@
    }

    /// What the dashboard is told when the server announces the topic
    /// `name`: the topic, with no value yet.
    pub fn announced(name: String) -> (update: NtUpdate)
        ensures
            update matches NtUpdate::Subscribed(topic, value) && topic == name && value@
                == Self::no_value(),
    {
        NtUpdate::Subscribed(name, "None".to_owned())
    }

    /// The topic and the value that the connection is asked to publish, if
    /// this message asks for that.
    pub fn publication(self) -> (asked: Option<(String, rmpv::Value)>)
        ensures
            asked == match self {
                NtUpdate::Publish(topic, value) => Some((topic, value)),
                _ => None,
            },
    {
        match self {
            NtUpdate::Publish(topic, value) => Some((topic, value)),
            _ => None,
        }
    }
}

} // verus!
