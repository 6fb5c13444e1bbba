//! The vocabulary that the controller exchanges with the tunnel service.
//!
//! Framing and transport belong to the channel; what a message means is
//! decided by the controller.

use crate::resource::Resource;
use crate::secret::Token;
use std::collections::BTreeSet;
use vstd::prelude::*;

verus! {

/// The address of a DNS resolver, as the bits of the address.
#[derive(Clone, Copy, Debug, PartialEq, Eq, Structural, Hash)]
pub enum IpAddress {
    V4(u32),
    V6(u128),
}

/// A command for the tunnel service.
#[derive(Debug)]
pub enum ClientMsg {
    /// Connect to the portal at `api_url` and sign in with `token`.
    Connect { api_url: String, token: Token },
    /// Take the tunnel down. The service accepts this in every state.
    Disconnect,
    /// The network changed: reset the connections.
    Reset,
    /// The system's resolvers changed to these.
    SetDns(Vec<IpAddress>),
    /// Route nothing through these resources, named by the bits of their
    /// identities.
    SetDisabledResources(BTreeSet<u128>),
    /// Use these log directives from now on.
    ApplyLogFilter { directives: String },
    /// Delete the service's log files.
    ClearLogs,
    /// Start telemetry for this environment, release and account.
    StartTelemetry { environment: String, release: String, account_slug: Option<String> },
}

/// What a command says.
#[verifier::ext_equal]
pub enum ClientMsgView {
    Connect { api_url: Seq<char>, token: Seq<char> },
    Disconnect,
    Reset,
    SetDns(Seq<IpAddress>),
    SetDisabledResources(Set<u128>),
    ApplyLogFilter { directives: Seq<char> },
    ClearLogs,
    StartTelemetry { environment: Seq<char>, release: Seq<char>, account_slug: Option<Seq<char>> },
}

/// The text of an optional string.
pub open spec fn optional_text(text: Option<String>) -> Option<Seq<char>> {
    match text {
        Some(text) => Some(text@),
        None => None,
    }
}

impl View for ClientMsg {
    type V = ClientMsgView;

    open spec fn view(&self) -> ClientMsgView {
        match *self {
            ClientMsg::Connect { api_url, token } => ClientMsgView::Connect {
                api_url: api_url@,
                token: token@,
            },
            ClientMsg::Disconnect => ClientMsgView::Disconnect,
            ClientMsg::Reset => ClientMsgView::Reset,
            ClientMsg::SetDns(resolvers) => ClientMsgView::SetDns(resolvers@),
            ClientMsg::SetDisabledResources(ids) => ClientMsgView::SetDisabledResources(ids@),
            ClientMsg::ApplyLogFilter { directives } => ClientMsgView::ApplyLogFilter {
                directives: directives@,
            },
            ClientMsg::ClearLogs => ClientMsgView::ClearLogs,
            ClientMsg::StartTelemetry {
                environment,
                release,
                account_slug,
            } => ClientMsgView::StartTelemetry {
                environment: environment@,
                release: release@,
                account_slug: optional_text(account_slug),
            },
        }
    }
}

/// Why the service could not connect to the portal.
#[derive(Debug, PartialEq, Eq)]
pub enum ConnectError {
    /// The portal could not be reached: worth another try once the network
    /// changes.
    Io(String),
    /// Anything else: another try would fail the same way.
    Other(String),
}

/// An event from the tunnel service.
#[derive(Debug, PartialEq, Eq)]
pub enum ServerMsg {
    /// The first message on a new channel, and only there.
    Hello,
    /// How the last `Connect` ended.
    ConnectResult(Result<(), ConnectError>),
    /// The full list of resources, replacing the one before.
    OnUpdateResources(Vec<Resource>),
    /// The service gave the session up.
    OnDisconnect { error_msg: String, is_authentication_error: bool },
    /// How the last `ClearLogs` ended.
    ClearedLogs(Result<(), String>),
    /// The tunnel is up.
    TunnelReady,
    /// The service is shutting down.
    TerminatingGracefully,
    /// The service took the tunnel down on request.
    DisconnectedGracefully,
}

impl ServerMsg {
    /// The name of the message's variant.
    pub open spec fn spec_name(&self) -> Seq<char> {
        match *self {
            ServerMsg::Hello => "Hello"@,
            ServerMsg::ConnectResult(_) => "ConnectResult"@,
            ServerMsg::OnUpdateResources(_) => "OnUpdateResources"@,
            ServerMsg::OnDisconnect { .. } => "OnDisconnect"@,
            ServerMsg::ClearedLogs(_) => "ClearedLogs"@,
            ServerMsg::TunnelReady => "TunnelReady"@,
            ServerMsg::TerminatingGracefully => "TerminatingGracefully"@,
            ServerMsg::DisconnectedGracefully => "DisconnectedGracefully"@,
        }
    }

    /// The name of the message's variant, for diagnostics.
    pub fn name(&self) -> (name: &'static str)
        ensures
            name@ == self.spec_name(),
    {
        match self {
            ServerMsg::Hello => "Hello",
            ServerMsg::ConnectResult(_) => "ConnectResult",
            ServerMsg::OnUpdateResources(_) => "OnUpdateResources",
            ServerMsg::OnDisconnect { .. } => "OnDisconnect",
            ServerMsg::ClearedLogs(_) => "ClearedLogs",
            ServerMsg::TunnelReady => "TunnelReady",
            ServerMsg::TerminatingGracefully => "TerminatingGracefully",
            ServerMsg::DisconnectedGracefully => "DisconnectedGracefully",
        }
    }
}

} // verus!
