//! The decisions of the message consumers: what to do with each answer of
//! the message queue.
use vstd::prelude::*;

verus! {

/// What the queue answered to a receive.
#[derive(Debug)]
pub enum Received {
    /// Receiving failed, with the text of the error.
    Failed(String),
    /// A message, with its payload when it has one that is valid UTF-8.
    Message { text: Option<String> },
}

/// What to do next.
#[derive(Debug, PartialEq, Eq)]
pub enum ConsumerAction {
    /// Report the error and stop consuming.
    Stop { error: String },
    /// Handle the payload text, if any, then commit the message's offset.
    HandleAndCommit { text: Option<String> },
}

/// A failed receive stops the consumer; a message is handled (where it has
/// a text payload) and its offset committed.
pub fn on_receive(received: Received) -> (r: ConsumerAction)
    ensures
        match received {
            Received::Failed(e) => r == ConsumerAction::Stop { error: e },
            Received::Message { text } => r == ConsumerAction::HandleAndCommit { text },
        },
{
    match received {
        Received::Failed(e) => ConsumerAction::Stop { error: e },
        Received::Message { text } => ConsumerAction::HandleAndCommit { text },
    }
}

/// The topic that the master server's consumer reads.
pub const QUICKSTART_TOPIC: &'static str = "quickstart";

/// The topic whose messages are put into another language.
pub const TRANSLATE_TOPIC: &'static str = "translate-fr-ja";

/// The language that those messages are put into.
pub const TARGET_LANGUAGE: &'static str = "fr";

/// The consumer group of both services.
pub const CONSUMER_GROUP: &'static str = "my-consumer-group1";

} // verus!
