use vstd::prelude::*;

use crate::model::Model;

verus! {

/// What the state machine sends to the renderer and to the supervisor.
#[derive(Debug, Clone)]
pub enum Message {
    /// A snapshot of the model after a change.
    StateUpdate(Model),
    /// The session is over.
    Terminate,
}

/// Whether the supervisor stops waiting on what it received: a termination
/// message, or `None` once the channel has closed.
pub open spec fn ends_wait(received: Option<Message>) -> bool {
    match received {
        None => true,
        Some(Message::Terminate) => true,
        Some(Message::StateUpdate(_)) => false,
    }
}

/// Tells whether the supervisor stops waiting on what it received.
pub fn should_stop(received: &Option<Message>) -> (r: bool)
    ensures
        r == ends_wait(*received),
{
    match received {
        None => true,
        Some(Message::Terminate) => true,
        Some(Message::StateUpdate(_)) => false,
    }
}

} // verus!
