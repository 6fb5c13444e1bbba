//! The vocabulary between a newly launched instance of the application and
//! the instance that is already running.

use crate::action::action_views;
use crate::action::Action;
use crate::action::ActionView;
use vstd::prelude::*;

verus! {

/// What a newly launched instance hands to the running one, before it
/// exits.
#[derive(Debug, PartialEq, Eq)]
pub enum ClientMsg {
    /// A deep link that was opened, with its URL.
    Deeplink(String),
    /// Nothing but the launch itself.
    NewInstance,
}

/// What the running instance answers.
#[derive(Clone, Copy, Debug, PartialEq, Eq, Structural)]
pub enum ServerMsg {
    /// The message was taken. It says nothing on how handling it went.
    Ack,
}

/// Why the message of a newly launched instance could not be handled.
#[derive(Debug, PartialEq, Eq)]
pub enum HandoffError {
    /// The instance hung up without a message.
    NoMessage,
    /// The message could not be read.
    ReadFailed(String),
}

/// What the running instance does for a newly launched one, and what it
/// answers.
#[verifier::ext_equal]
pub struct HandoffView {
    pub handled: Result<Seq<ActionView>, HandoffError>,
    pub reply: ServerMsg,
}

/// What the running instance does with the message of a newly launched one.
/// A deep link goes to the sign-in store; a bare launch brings the welcome
/// window up. Whatever came, and however handling it goes, the answer is
/// `Ack`.
pub open spec fn handoff(read: Option<Result<ClientMsg, String>>) -> HandoffView {
    HandoffView {
        handled: match read {
            None => Err(HandoffError::NoMessage),
            Some(Err(error)) => Err(HandoffError::ReadFailed(error)),
            Some(Ok(ClientMsg::Deeplink(url))) => Ok(
                seq![ActionView::HandleAuthCallback(url@)],
            ),
            Some(Ok(ClientMsg::NewInstance)) => Ok(
                seq![ActionView::SetWelcomeWindowVisible(true)],
            ),
        },
        reply: ServerMsg::Ack,
    }
}

/// What the running instance does for a newly launched one, and what it
/// answers. A failure of `handled`, and a failure of one of its actions, is
/// reported and goes no further: the actions are performed
/// [`During::Handoff`](crate::action::During), and the reply is sent all
/// the same.
#[derive(Debug)]
pub struct Handoff {
    pub handled: Result<Vec<Action>, HandoffError>,
    pub reply: ServerMsg,
}

impl View for Handoff {
    type V = HandoffView;

    open spec fn view(&self) -> HandoffView {
        HandoffView {
            handled: match self.handled {
                Ok(actions) => Ok(action_views(actions@)),
                Err(error) => Err(error),
            },
            reply: self.reply,
        }
    }
}

} // verus!
