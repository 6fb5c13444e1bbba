//! The handshake with the tunnel service.
//!
//! Right after the channel is open the service says `Hello`. Anything else
//! in its place, or nothing within the timeout, fails the start.

use crate::service::ServerMsg;
use vstd::prelude::*;

verus! {

/// How many seconds the controller waits for the first message.
pub const HELLO_TIMEOUT_SECS: u64 = 5;

/// What reading the first message from the service gave.
#[derive(Debug, PartialEq, Eq)]
pub enum FirstRead {
    /// Nothing within [`HELLO_TIMEOUT_SECS`].
    TimedOut,
    /// The service closed the channel.
    Closed,
    /// Reading failed, for this reason.
    Failed(String),
    /// This message.
    Message(ServerMsg),
}

/// What went wrong with the handshake.
#[derive(Debug, PartialEq, Eq)]
pub enum HelloError {
    /// No message within the timeout.
    Timeout,
    /// The channel was closed before a message came.
    NoMessage,
    /// Reading failed, for this reason.
    ReadFailed(String),
    /// The first message was this one, not `Hello`.
    Unexpected(ServerMsg),
}

/// The handshake failed: the service is there and does not respond as it
/// should.
#[derive(Debug, PartialEq, Eq)]
pub struct FailedToReceiveHello(pub HelloError);

/// How a handshake ends: well on `Hello` and on nothing else.
pub open spec fn hello_outcome(first: FirstRead) -> Result<(), FailedToReceiveHello> {
    match first {
        FirstRead::TimedOut => Err(FailedToReceiveHello(HelloError::Timeout)),
        FirstRead::Closed => Err(FailedToReceiveHello(HelloError::NoMessage)),
        FirstRead::Failed(error) => Err(FailedToReceiveHello(HelloError::ReadFailed(error))),
        FirstRead::Message(ServerMsg::Hello) => Ok(()),
        FirstRead::Message(other) => Err(FailedToReceiveHello(HelloError::Unexpected(other))),
    }
}

/// Judges the first message of the service.
pub fn receive_hello(first: FirstRead) -> (result: Result<(), FailedToReceiveHello>)
    ensures
        result == hello_outcome(first),
        result is Ok <==> first == FirstRead::Message(ServerMsg::Hello),
{
    match first {
        FirstRead::TimedOut => Err(FailedToReceiveHello(HelloError::Timeout)),
        FirstRead::Closed => Err(FailedToReceiveHello(HelloError::NoMessage)),
        FirstRead::Failed(error) => Err(FailedToReceiveHello(HelloError::ReadFailed(error))),
        FirstRead::Message(ServerMsg::Hello) => Ok(()),
        FirstRead::Message(other) => Err(FailedToReceiveHello(HelloError::Unexpected(other))),
    }
}

impl HelloError {
    /// What went wrong, in words.
    pub open spec fn spec_message(&self) -> Seq<char> {
        match *self {
            HelloError::Timeout => "Timeout while waiting for message from tunnel service for 5s"@,
            HelloError::NoMessage => "No message received from tunnel service"@,
            HelloError::ReadFailed(error) => "Failed to receive message from tunnel service: "@
                + error@,
            HelloError::Unexpected(msg) => "Expected `Hello` from tunnel service but got `"@
                + msg.spec_name() + "`"@,
        }
    }

    /// What went wrong, in words.
    pub fn message(&self) -> (text: String)
        ensures
            text@ == self.spec_message(),
    {
        match self {
            HelloError::Timeout => {
                "Timeout while waiting for message from tunnel service for 5s".to_owned()
            },
            HelloError::NoMessage => "No message received from tunnel service".to_owned(),
            HelloError::ReadFailed(error) => {
                "Failed to receive message from tunnel service: ".to_owned().concat(error.as_str())
            },
            HelloError::Unexpected(msg) => {
                "Expected `Hello` from tunnel service but got `".to_owned().concat(
                    msg.name(),
                ).concat("`")
            },
        }
    }
}

impl FailedToReceiveHello {
    /// The error in words: that the handshake failed, and why.
    pub open spec fn spec_message(&self) -> Seq<char> {
        "Failed to receive hello: "@ + self.0.spec_message()
    }

    /// The error in words: that the handshake failed, and why.
    pub fn message(&self) -> (text: String)
        ensures
            text@ == self.spec_message(),
    {
        let detail = self.0.message();
        "Failed to receive hello: ".to_owned().concat(detail.as_str())
    }
}

} // verus!
