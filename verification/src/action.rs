//! What the controller asks the surrounding process to do.
//!
//! A handler of the controller changes the controller's state and returns an
//! [`Outcome`]: the actions to perform, in order, and how the event loop goes
//! on after them. The controller performs nothing itself. Where an action
//! cannot be performed, [`Action::on_failure`] says what follows.

use crate::service::ClientMsg;
use crate::service::ClientMsgView;
use crate::settings::AdvancedSettings;
use crate::settings::AdvancedSettingsView;
use crate::system_tray::Icon;
use crate::system_tray::Window;
use std::path::PathBuf;
use tokio::sync::oneshot::Sender;
use vstd::prelude::*;

verus! {

/// `std::path::PathBuf`. The controller hands paths on as it got them.
#[verifier::external_type_specification]
#[verifier::external_body]
pub struct ExPathBuf(PathBuf);

/// One thing to do for the controller.
#[derive(Debug)]
pub enum Action {
    /// Send this command to the tunnel service.
    Send(ClientMsg),
    /// Ask the sign-in store to forget the token and the session.
    SignOut,
    /// Ask the sign-in store to open a sign-in request.
    StartSignIn,
    /// Open, in the browser, the page of the sign-in request that was just
    /// opened.
    OpenSignInPage,
    /// Tell the presentation layer that a user is signed in.
    NotifySignedIn,
    /// Tell the presentation layer that nobody is signed in.
    NotifySignedOut,
    /// Show or hide the welcome window.
    SetWelcomeWindowVisible(bool),
    /// Open this URL, or whatever else the text names.
    OpenUrl(String),
    /// Show this tray icon.
    SetTrayIcon(Icon),
    /// Build the tray menu anew from the controller's state.
    RefreshTrayMenu,
    /// Show a notification.
    ShowNotification { title: String, body: String },
    /// Show the notification of a release; a click on it opens
    /// `download_url`.
    ShowUpdateNotification { title: String, download_url: String },
    /// Open a window.
    ShowWindow(Window),
    /// Show an error in a dialog that the user has to close.
    ShowErrorDialog { title: String, text: String },
    /// Tag the telemetry of this process with the account.
    SetTelemetryAccount(String),
    /// Record that this installation has connected once.
    MarkConnectedOnce,
    /// Save the controller's settings.
    SaveSettings,
    /// Switch this process's logging to these directives.
    ReloadLogFilter(String),
    /// Delete this process's log files.
    ClearGuiLogs,
    /// Export the logs to an archive.
    ExportLogs { path: PathBuf, stem: PathBuf },
    /// Put this text on the clipboard.
    CopyToClipboard(String),
    /// Hand `answer`, the service's report on clearing its logs, to the
    /// caller that asked for the clearing.
    AnswerClearedLogs { caller: Sender<Result<(), String>>, answer: Result<(), String> },
    /// Hand the settings in use to the caller that asked for them.
    AnswerSettings { caller: Sender<AdvancedSettings>, settings: AdvancedSettings },
    /// Hand this URL to the sign-in store as the answer to the sign-in that
    /// is under way. With the token that it gives, the controller handles a
    /// deep link; a URL that answers no sign-in is reported and ignored.
    HandleAuthCallback(String),
    /// Read what the newly launched instance has to say, hand it to the
    /// controller, perform what the controller answers, and send the reply.
    ServeNewInstance,
    /// Crash the process, to test the crash handling.
    Crash,
    /// Panic, to test the panic handling.
    Panic,
}

/// What an action says.
#[verifier::ext_equal]
pub enum ActionView {
    Send(ClientMsgView),
    SignOut,
    StartSignIn,
    OpenSignInPage,
    NotifySignedIn,
    NotifySignedOut,
    SetWelcomeWindowVisible(bool),
    OpenUrl(Seq<char>),
    SetTrayIcon(Icon),
    RefreshTrayMenu,
    ShowNotification { title: Seq<char>, body: Seq<char> },
    ShowUpdateNotification { title: Seq<char>, download_url: Seq<char> },
    ShowWindow(Window),
    ShowErrorDialog { title: Seq<char>, text: Seq<char> },
    SetTelemetryAccount(Seq<char>),
    MarkConnectedOnce,
    SaveSettings,
    ReloadLogFilter(Seq<char>),
    ClearGuiLogs,
    ExportLogs { path: PathBuf, stem: PathBuf },
    CopyToClipboard(Seq<char>),
    AnswerClearedLogs { caller: Sender<Result<(), String>>, answer: Result<(), String> },
    AnswerSettings { caller: Sender<AdvancedSettings>, settings: AdvancedSettingsView },
    HandleAuthCallback(Seq<char>),
    ServeNewInstance,
    Crash,
    Panic,
}

impl View for Action {
    type V = ActionView;

    open spec fn view(&self) -> ActionView {
        match *self {
            Action::Send(msg) => ActionView::Send(msg@),
            Action::SignOut => ActionView::SignOut,
            Action::StartSignIn => ActionView::StartSignIn,
            Action::OpenSignInPage => ActionView::OpenSignInPage,
            Action::NotifySignedIn => ActionView::NotifySignedIn,
            Action::NotifySignedOut => ActionView::NotifySignedOut,
            Action::SetWelcomeWindowVisible(visible) => ActionView::SetWelcomeWindowVisible(
                visible,
            ),
            Action::OpenUrl(url) => ActionView::OpenUrl(url@),
            Action::SetTrayIcon(icon) => ActionView::SetTrayIcon(icon),
            Action::RefreshTrayMenu => ActionView::RefreshTrayMenu,
            Action::ShowNotification { title, body } => ActionView::ShowNotification {
                title: title@,
                body: body@,
            },
            Action::ShowUpdateNotification {
                title,
                download_url,
            } => ActionView::ShowUpdateNotification { title: title@, download_url: download_url@ },
            Action::ShowWindow(window) => ActionView::ShowWindow(window),
            Action::ShowErrorDialog { title, text } => ActionView::ShowErrorDialog {
                title: title@,
                text: text@,
            },
            Action::SetTelemetryAccount(slug) => ActionView::SetTelemetryAccount(slug@),
            Action::MarkConnectedOnce => ActionView::MarkConnectedOnce,
            Action::SaveSettings => ActionView::SaveSettings,
            Action::ReloadLogFilter(directives) => ActionView::ReloadLogFilter(directives@),
            Action::ClearGuiLogs => ActionView::ClearGuiLogs,
            Action::ExportLogs { path, stem } => ActionView::ExportLogs { path, stem },
            Action::CopyToClipboard(text) => ActionView::CopyToClipboard(text@),
            Action::AnswerClearedLogs { caller, answer } => ActionView::AnswerClearedLogs {
                caller,
                answer,
            },
            Action::AnswerSettings { caller, settings } => ActionView::AnswerSettings {
                caller,
                settings: settings@,
            },
            Action::HandleAuthCallback(url) => ActionView::HandleAuthCallback(url@),
            Action::ServeNewInstance => ActionView::ServeNewInstance,
            Action::Crash => ActionView::Crash,
            Action::Panic => ActionView::Panic,
        }
    }
}

/// Where an action is performed.
#[derive(Clone, Copy, Debug, PartialEq, Eq, Structural)]
pub enum During {
    /// In a turn of the event loop, as one of the actions of an
    /// [`Outcome`].
    Turn,
    /// While a newly launched instance is served: as one of the actions of
    /// a handoff, or of an outcome that the handoff led to.
    Handoff,
}

/// What follows where an action cannot be performed.
#[derive(Clone, Copy, Debug, PartialEq, Eq, Structural)]
pub enum OnFailure {
    /// The failure is reported, and the next action is performed.
    GoOn,
    /// The failure is reported and the actions behind it are left undone.
    /// The newly launched instance gets its reply all the same, and the
    /// event loop goes on.
    GiveUp,
    /// The actions behind it are left undone, and the event loop stops with
    /// the failure.
    Stop,
}

impl ActionView {
    /// Whether the action sends a `Connect` command.
    pub open spec fn is_connect(self) -> bool {
        self matches ActionView::Send(ClientMsgView::Connect { .. })
    }

    /// Whether the turn can go on without the action: it saves settings,
    /// writes or deletes logs, shows a notification or a dialog, answers a
    /// caller that asked for the settings, or serves a newly launched
    /// instance.
    pub open spec fn can_be_missed(self) -> bool {
        match self {
            ActionView::SaveSettings
            | ActionView::ExportLogs { .. }
            | ActionView::ClearGuiLogs
            | ActionView::ShowNotification { .. }
            | ActionView::ShowUpdateNotification { .. }
            | ActionView::ShowErrorDialog { .. }
            | ActionView::AnswerSettings { .. }
            | ActionView::ServeNewInstance => true,
            _ => false,
        }
    }

    /// What follows where the action cannot be performed.
    ///
    /// No failure while a newly launched instance is served stops the loop.
    /// In a turn of the loop, the failure of an action that can be missed is
    /// passed over. Every other action leaves no way on: a command that
    /// could not be sent is lost, and after a failure of the sign-in store
    /// or of the user interface the status no longer says what the user
    /// sees.
    pub open spec fn on_failure(self, during: During) -> OnFailure {
        match during {
            During::Handoff => OnFailure::GiveUp,
            During::Turn => if self.can_be_missed() {
                OnFailure::GoOn
            } else {
                OnFailure::Stop
            },
        }
    }
}

impl Action {
    /// What follows where the action cannot be performed.
    pub fn on_failure(&self, during: During) -> (policy: OnFailure)
        ensures
            policy == self@.on_failure(during),
    {
        match during {
            During::Handoff => OnFailure::GiveUp,
            During::Turn => match self {
                Action::SaveSettings
                | Action::ExportLogs { .. }
                | Action::ClearGuiLogs
                | Action::ShowNotification { .. }
                | Action::ShowUpdateNotification { .. }
                | Action::ShowErrorDialog { .. }
                | Action::AnswerSettings { .. }
                | Action::ServeNewInstance => OnFailure::GoOn,
                _ => OnFailure::Stop,
            },
        }
    }
}

/// Why the event loop stops with an error.
#[derive(Debug, PartialEq, Eq)]
pub enum Fault {
    /// A session was asked for while the application is quitting.
    Quitting,
    /// A session was asked for while the tunnel is up.
    AlreadyConnected,
    /// A session was asked for while one is coming up.
    AlreadyConnecting,
    /// A failure that a test asked for.
    TestError,
    /// The service reported cleared logs, and nobody had asked.
    NoClearLogsCallback,
    /// The notifier of network or DNS changes failed.
    Notifier(String),
    /// The channel from the tunnel service is closed.
    IpcClosed,
    /// Reading from the tunnel service failed.
    IpcRead(String),
    /// The update check stopped.
    UpdateCheckerStopped,
    /// The listener for newly launched instances is closed.
    GuiIpcClosed,
    /// The tunnel service shut down.
    ServiceTerminated,
    /// Nobody can send a request any more.
    RequestsClosed,
}

impl Fault {
    /// The fault in words.
    pub open spec fn spec_message(&self) -> Seq<char> {
        match *self {
            Fault::Quitting => "Can't connect to Firezone, we're quitting"@,
            Fault::AlreadyConnected => "Can't connect to Firezone, we're already connected."@,
            Fault::AlreadyConnecting => "Can't connect to Firezone, we're already connecting."@,
            Fault::TestError => "Test error"@,
            Fault::NoClearLogsCallback => "Can't handle `IpcClearedLogs` when there's no callback waiting for a `ClearLogs` result"@,
            Fault::Notifier(error) => error@,
            Fault::IpcClosed => "IPC closed"@,
            Fault::IpcRead(error) => "Failed to read from IPC: "@ + error@,
            Fault::UpdateCheckerStopped => "Update checker task stopped"@,
            Fault::GuiIpcClosed => "GUI IPC socket closed"@,
            Fault::ServiceTerminated => "The Firezone Tunnel service was shut down"@,
            Fault::RequestsClosed => "Controller channel closed"@,
        }
    }

    /// The fault in words.
    pub fn message(&self) -> (text: String)
        ensures
            text@ == self.spec_message(),
    {
        match self {
            Fault::Quitting => "Can't connect to Firezone, we're quitting".to_owned(),
            Fault::AlreadyConnected => {
                "Can't connect to Firezone, we're already connected.".to_owned()
            },
            Fault::AlreadyConnecting => {
                "Can't connect to Firezone, we're already connecting.".to_owned()
            },
            Fault::TestError => "Test error".to_owned(),
            Fault::NoClearLogsCallback => {
                "Can't handle `IpcClearedLogs` when there's no callback waiting for a `ClearLogs` result".to_owned()
            },
            Fault::Notifier(error) => error.clone(),
            Fault::IpcClosed => "IPC closed".to_owned(),
            Fault::IpcRead(error) => "Failed to read from IPC: ".to_owned().concat(error.as_str()),
            Fault::UpdateCheckerStopped => "Update checker task stopped".to_owned(),
            Fault::GuiIpcClosed => "GUI IPC socket closed".to_owned(),
            Fault::ServiceTerminated => "The Firezone Tunnel service was shut down".to_owned(),
            Fault::RequestsClosed => "Controller channel closed".to_owned(),
        }
    }
}

/// How the event loop goes on after the actions of an outcome.
///
/// Whoever leaves the loop, with or without an error, closes the channel to
/// the tunnel service, and nothing else: telemetry and the presentation
/// layer belong to whoever started the loop.
#[derive(Debug, PartialEq, Eq)]
pub enum End {
    /// Wait for the next event.
    Continue,
    /// Leave the loop; the controller is done. This is how the loop ends
    /// well, and it does so on one event alone: the service confirms the
    /// disconnect while the controller is quitting.
    Break,
    /// Leave the loop with an error.
    Fail(Fault),
}

/// What a handler decided: the actions to perform, in order, and how the
/// event loop goes on after them.
#[derive(Debug)]
pub struct Outcome {
    pub actions: Vec<Action>,
    pub end: End,
}

/// What a sequence of actions says.
pub open spec fn action_views(actions: Seq<Action>) -> Seq<ActionView> {
    actions.map_values(|action: Action| action@)
}

/// What an outcome says.
#[verifier::ext_equal]
pub struct OutcomeView {
    pub actions: Seq<ActionView>,
    pub end: End,
}

impl View for Outcome {
    type V = OutcomeView;

    open spec fn view(&self) -> OutcomeView {
        OutcomeView { actions: action_views(self.actions@), end: self.end }
    }
}

impl OutcomeView {
    /// The outcome that asks for nothing and lets the loop go on.
    pub open spec fn nothing() -> OutcomeView {
        OutcomeView { actions: Seq::empty(), end: End::Continue }
    }

    /// The outcome that asks for `actions` and lets the loop go on.
    pub open spec fn proceed(actions: Seq<ActionView>) -> OutcomeView {
        OutcomeView { actions, end: End::Continue }
    }

    /// The outcome that asks for nothing and stops the loop with `fault`.
    pub open spec fn fail(fault: Fault) -> OutcomeView {
        OutcomeView { actions: Seq::empty(), end: End::Fail(fault) }
    }

    /// This outcome with `actions` in front of its own.
    pub open spec fn after(self, actions: Seq<ActionView>) -> OutcomeView {
        OutcomeView { actions: actions + self.actions, end: self.end }
    }

    /// This outcome with `actions` behind its own.
    pub open spec fn followed_by(self, actions: Seq<ActionView>) -> OutcomeView {
        OutcomeView { actions: self.actions + actions, end: self.end }
    }

    /// Whether the outcome sends no `Connect` command.
    pub open spec fn sends_no_connect(self) -> bool {
        forall|i: int| 0 <= i < self.actions.len() ==> !(#[trigger] self.actions[i]).is_connect()
    }
}

/// An empty list of actions.
pub fn no_actions() -> (actions: Vec<Action>)
    ensures
        actions@ == Seq::<Action>::empty(),
        action_views(actions@) == Seq::<ActionView>::empty(),
{
    let actions: Vec<Action> = Vec::new();
    assert(action_views(actions@) =~= Seq::<ActionView>::empty());
    actions
}

/// Puts `action` at the end of `actions`.
pub fn emit(actions: &mut Vec<Action>, action: Action)
    ensures
        action_views(final(actions)@) == action_views(old(actions)@).push(action@),
{
    actions.push(action);
    assert(action_views(actions@) =~= action_views(old(actions)@).push(action@));
}

impl Outcome {
    /// The outcome that asks for `actions` and lets the loop go on.
    pub fn proceed(actions: Vec<Action>) -> (outcome: Outcome)
        ensures
            outcome@ == OutcomeView::proceed(action_views(actions@)),
    {
        Outcome { actions, end: End::Continue }
    }

    /// The outcome that asks for nothing and lets the loop go on.
    pub fn nothing() -> (outcome: Outcome)
        ensures
            outcome@ == OutcomeView::nothing(),
    {
        Outcome { actions: no_actions(), end: End::Continue }
    }

    /// The outcome that asks for nothing and stops the loop with `fault`.
    pub fn fail(fault: Fault) -> (outcome: Outcome)
        ensures
            outcome@ == OutcomeView::fail(fault),
    {
        Outcome { actions: no_actions(), end: End::Fail(fault) }
    }

    /// Puts `actions` in front of the outcome's own.
    pub fn after(self, actions: Vec<Action>) -> (outcome: Outcome)
        ensures
            outcome@ == self@.after(action_views(actions@)),
    {
        let Outcome { actions: mut rest, end } = self;
        let mut all = actions;
        all.append(&mut rest);
        assert(action_views(all@) =~= action_views(actions@) + action_views(self.actions@));
        Outcome { actions: all, end }
    }

    /// Puts `action` behind the outcome's own.
    pub fn followed_by(self, action: Action) -> (outcome: Outcome)
        ensures
            outcome@ == self@.followed_by(seq![action@]),
    {
        let Outcome { mut actions, end } = self;
        emit(&mut actions, action);
        assert(action_views(self.actions@).push(action@) =~= action_views(self.actions@)
            + seq![action@]);
        Outcome { actions, end }
    }
}

} // verus!
