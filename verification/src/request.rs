//! What reaches the controller: requests from the presentation layer, and
//! the ticks of the event loop.

use crate::service::IpAddress;
use crate::service::ServerMsg;
use crate::settings::AdvancedSettings;
use crate::system_tray::Event;
use crate::updates::Notification;
use std::path::PathBuf;
use tokio::sync::oneshot::Sender;
use vstd::prelude::*;

verus! {

/// `tokio::sync::oneshot::Sender`: the sending half of a channel that carries
/// one value, once.
#[verifier::external_type_specification]
#[verifier::external_body]
#[verifier::reject_recursive_types(T)]
pub struct ExSender<T>(Sender<T>);

/// A failure that is asked for on purpose, to test how failures are
/// reported. At most one is asked for.
#[derive(Clone, Copy, Debug, PartialEq, Eq, Structural)]
pub enum Failure {
    Crash,
    Error,
    Panic,
}

/// A request from the presentation layer or from the process entry.
#[derive(Debug)]
pub enum ControllerRequest {
    /// Use these settings from now on; they are saved already.
    ApplySettings(Box<AdvancedSettings>),
    /// Clear this process's logs and the service's; the sender is answered
    /// once the service has answered.
    ClearLogs(Sender<Result<(), String>>),
    /// Export the logs to an archive.
    ExportLogs { path: PathBuf, stem: PathBuf },
    /// Fail on purpose.
    Fail(Failure),
    /// Answer with the settings in use.
    GetAdvancedSettings(Sender<AdvancedSettings>),
    /// Start signing in.
    SignIn,
    /// Sign out.
    SignOut,
    /// A click in the tray menu.
    SystemTrayMenu(Event),
    /// The notification of a release was clicked; this is its URL.
    UpdateNotificationClicked(String),
}

/// One turn of the event loop: what the source that won the turn gave.
/// `None` stands for a source that has closed.
#[derive(Debug)]
pub enum EventloopTick {
    /// The network changed, or watching it failed.
    NetworkChanged(Result<(), String>),
    /// DNS changed, or watching it failed. The resolvers are those of the
    /// system now; they are read only while the status needs them.
    DnsChanged(Result<Vec<IpAddress>, String>),
    /// A message of the tunnel service, or why none could be read.
    IpcMsg(Option<Result<ServerMsg, String>>),
    /// A request.
    ControllerRequest(Option<ControllerRequest>),
    /// A report of the update check, `Some(None)` for "no release".
    UpdateNotification(Option<Option<Notification>>),
    /// A newly launched instance has connected, or accepting it failed.
    NewInstanceLaunched(Option<Result<(), String>>),
}

} // verus!
