//! The connection status: the state of the controller's state machine.

use crate::resource::find_internet_resource;
use crate::resource::internet_resource_of;
use crate::resource::Resource;
use crate::secret::Token;
use std::time::Instant;
use vstd::prelude::*;

verus! {

/// `std::time::Instant`. The controller keeps the instant of a connection
/// request and hands it on; it never looks into it.
#[verifier::external_type_specification]
#[verifier::external_body]
pub struct ExInstant(Instant);

/// The state of the connection. A value is exactly one of the variants.
///
/// The token of a status never shows in `Debug` output: a [`Token`] prints
/// a placeholder.
#[derive(Debug)]
pub enum Status {
    /// No session, and none wanted.
    Disconnected,
    /// A connection request failed because the portal could not be reached.
    /// The next change of the network tries again with this token.
    RetryingConnection { token: Token },
    /// The user asked to quit; the service has not confirmed the disconnect
    /// yet.
    Quitting,
    /// The tunnel is up, with these resources.
    TunnelReady { resources: Vec<Resource> },
    /// A connection request is with the service.
    WaitingForPortal {
        /// When the request was made.
        start_instant: Instant,
        /// The token of the request, kept for a retry.
        token: Token,
    },
    /// The portal accepted the session; the tunnel is being raised.
    WaitingForTunnel {
        /// When the request was made.
        start_instant: Instant,
    },
}

/// What a status says: tokens by their text, resources as a sequence.
#[verifier::ext_equal]
pub enum StatusView {
    Disconnected,
    RetryingConnection { token: Seq<char> },
    Quitting,
    TunnelReady { resources: Seq<Resource> },
    WaitingForPortal { start_instant: Instant, token: Seq<char> },
    WaitingForTunnel { start_instant: Instant },
}

impl View for Status {
    type V = StatusView;

    open spec fn view(&self) -> StatusView {
        match *self {
            Status::Disconnected => StatusView::Disconnected,
            Status::RetryingConnection { token } => StatusView::RetryingConnection { token: token@ },
            Status::Quitting => StatusView::Quitting,
            Status::TunnelReady { resources } => StatusView::TunnelReady { resources: resources@ },
            Status::WaitingForPortal { start_instant, token } => StatusView::WaitingForPortal {
                start_instant,
                token: token@,
            },
            Status::WaitingForTunnel { start_instant } => StatusView::WaitingForTunnel {
                start_instant,
            },
        }
    }
}

impl StatusView {
    /// Whether changes of the network or of DNS are passed on to the
    /// service: while a session is up or coming up.
    pub open spec fn needs_network_changes(self) -> bool {
        self is TunnelReady || self is WaitingForPortal || self is WaitingForTunnel
    }

    /// Whether a list of resources is taken: while the tunnel is up or
    /// being raised.
    pub open spec fn needs_resource_updates(self) -> bool {
        self is TunnelReady || self is WaitingForTunnel
    }

    /// Whether a session may start: only where none is up, coming up, or
    /// shutting down.
    pub open spec fn may_start_session(self) -> bool {
        self is Disconnected || self is RetryingConnection
    }

    /// The internet resource among the resources of a tunnel that is up.
    pub open spec fn internet_resource(self) -> Option<Resource> {
        match self {
            StatusView::TunnelReady { resources } => internet_resource_of(resources),
            _ => None,
        }
    }
}

impl Default for Status {
    fn default() -> (status: Status)
        ensures
            status@ == StatusView::Disconnected,
    {
        Status::Disconnected
    }
}

impl Status {
    /// Whether changes of the network or of DNS are passed on to the
    /// service.
    pub fn needs_network_changes(&self) -> (needed: bool)
        ensures
            needed == self@.needs_network_changes(),
    {
        match self {
            Status::Disconnected | Status::RetryingConnection { .. } => false,
            Status::Quitting => false,
            Status::TunnelReady { .. }
            | Status::WaitingForPortal { .. }
            | Status::WaitingForTunnel { .. } => true,
        }
    }

    /// Whether a list of resources from the service is taken.
    pub fn needs_resource_updates(&self) -> (needed: bool)
        ensures
            needed == self@.needs_resource_updates(),
    {
        match self {
            Status::Disconnected
            | Status::RetryingConnection { .. }
            | Status::Quitting
            | Status::WaitingForPortal { .. } => false,
            Status::TunnelReady { .. } | Status::WaitingForTunnel { .. } => true,
        }
    }

    /// The internet resource, where the tunnel is up and has one.
    pub fn internet_resource(&self) -> (found: Option<Resource>)
        ensures
            found == self@.internet_resource(),
    {
        match self {
            Status::TunnelReady { resources } => find_internet_resource(resources),
            _ => None,
        }
    }
}

} // verus!
