//! The controller: the one owner of the connection status.
//!
//! Each handler takes an event, changes the controller's state, and returns
//! the actions to perform. What a handler does is stated by the function of
//! the same name in [`crate::transitions`].

use crate::action::action_views;
use crate::action::emit;
use crate::action::no_actions;
use crate::action::Action;
use crate::action::ActionView;
use crate::action::End;
use crate::action::Fault;
use crate::action::Outcome;
use crate::action::OutcomeView;
use crate::auth::Session;
use crate::gui;
use crate::gui::handoff;
use crate::gui::Handoff;
use crate::gui::HandoffError;
use crate::request::ControllerRequest;
use crate::request::EventloopTick;
use crate::request::Failure;
use crate::resource::duplicate_resources;
use crate::secret::Token;
use crate::service::optional_text;
use crate::service::ClientMsg;
use crate::service::ConnectError;
use crate::service::ServerMsg;
use crate::settings::AdvancedSettings;
use crate::status::Status;
use crate::system_tray::icon_terminating;
use crate::system_tray::AppState;
use crate::system_tray::ConnlibState;
use crate::system_tray::Event;
use crate::system_tray::SignedIn;
use crate::transitions::update_title;
use crate::transitions::ControllerView;
use crate::updates::Notification;
use crate::updates::Release;
use std::collections::BTreeSet;
use std::time::Instant;
use tokio::sync::oneshot::Sender;
use vstd::prelude::*;

verus! {

/// The state of the control plane: the settings in use, the release that is
/// ready, the caller that waits for cleared logs, and the connection status.
#[derive(Debug)]
pub struct Controller {
    advanced_settings: AdvancedSettings,
    clear_logs_callback: Option<Sender<Result<(), String>>>,
    release: Option<Release>,
    status: Status,
}

impl View for Controller {
    type V = ControllerView;

    closed spec fn view(&self) -> ControllerView {
        ControllerView {
            advanced_settings: self.advanced_settings@,
            clear_logs_caller: self.clear_logs_callback,
            release: self.release,
            status: self.status@,
        }
    }
}

impl Controller {
    /// A controller with these settings: disconnected, no release, nobody
    /// waiting.
    pub fn new(advanced_settings: AdvancedSettings) -> (controller: Controller)
        ensures
            controller@ == ControllerView::initial(advanced_settings@),
    {
        Controller {
            advanced_settings,
            clear_logs_callback: None,
            release: None,
            status: Status::Disconnected,
        }
    }

    /// The connection status.
    pub fn status(&self) -> (status: &Status)
        ensures
            status@ == self@.status,
    {
        &self.status
    }

    /// The settings in use.
    pub fn advanced_settings(&self) -> (settings: &AdvancedSettings)
        ensures
            settings@ == self@.advanced_settings,
    {
        &self.advanced_settings
    }

    /// The release that is ready to download, if any.
    pub fn release(&self) -> (release: &Option<Release>)
        ensures
            *release == self@.release,
    {
        &self.release
    }

    /// Whether somebody waits for the service to report cleared logs.
    pub fn awaiting_cleared_logs(&self) -> (waiting: bool)
        ensures
            waiting == self@.clear_logs_caller is Some,
    {
        self.clear_logs_callback.is_some()
    }

    /// What the tray menu is built from, for the session and the sign-in
    /// request that the sign-in store holds right now.
    pub fn refresh_system_tray_menu(
        &self,
        session: Option<&Session>,
        sign_in_pending: bool,
    ) -> (state: AppState)
        ensures
            state@ == self@.tray_state(
                match session {
                    Some(session) => Some(*session),
                    None => None,
                },
                sign_in_pending,
            ),
    {
        let connlib = match session {
            Some(session) => match &self.status {
                Status::Disconnected => ConnlibState::SignedOut,
                Status::Quitting => ConnlibState::Quitting,
                Status::RetryingConnection { .. } => ConnlibState::RetryingConnection,
                Status::TunnelReady { resources } => {
                    let settings = self.advanced_settings.duplicate();
                    ConnlibState::SignedIn(
                        SignedIn {
                            actor_name: session.actor_name.clone(),
                            favorite_resources: settings.favorite_resources,
                            internet_resource_enabled: settings.internet_resource_enabled,
                            resources: duplicate_resources(resources),
                        },
                    )
                },
                Status::WaitingForPortal { .. } => ConnlibState::WaitingForPortal,
                Status::WaitingForTunnel { .. } => ConnlibState::WaitingForTunnel,
            },
            None => if sign_in_pending {
                ConnlibState::WaitingForBrowser
            } else {
                ConnlibState::SignedOut
            },
        };
        let release = match &self.release {
            Some(release) => Some(release.duplicate()),
            None => None,
        };
        AppState { connlib, release }
    }

    /// Signs out: the session is deleted, the tunnel stopped, and the tray
    /// menu refreshed. While quitting, nothing happens.
    pub fn sign_out(&mut self) -> (outcome: Outcome)
        ensures
            final(self)@ == old(self)@.sign_out().next,
            outcome@ == old(self)@.sign_out().outcome,
    {
        match &self.status {
            Status::Quitting => {
                return Outcome::nothing();
            },
            _ => {},
        }
        self.status = Status::Disconnected;
        let mut actions = no_actions();
        emit(&mut actions, Action::SignOut);
        emit(&mut actions, Action::NotifySignedOut);
        emit(&mut actions, Action::Send(ClientMsg::Disconnect));
        emit(&mut actions, Action::RefreshTrayMenu);
        Outcome::proceed(actions)
    }

    /// Whether a session may start, and why not where it may not.
    fn session_refusal(&self) -> (refusal: Option<Fault>)
        ensures
            refusal == self@.session_refusal(),
    {
        match &self.status {
            Status::Disconnected | Status::RetryingConnection { .. } => None,
            Status::Quitting => Some(Fault::Quitting),
            Status::TunnelReady { .. } => Some(Fault::AlreadyConnected),
            Status::WaitingForPortal { .. } | Status::WaitingForTunnel { .. } => Some(
                Fault::AlreadyConnecting,
            ),
        }
    }

    /// The command that asks the service for a session with `token`.
    fn connect_command(&self, token: &Token) -> (action: Action)
        ensures
            action@ == self@.connect_command(token@),
    {
        Action::Send(
            ClientMsg::Connect {
                api_url: self.advanced_settings.api_url.clone(),
                token: token.duplicate(),
            },
        )
    }

    /// `Connect` is with the service, for a request with `token` that was
    /// made at the instant `now`: the status follows.
    ///
    /// This is the second half of [`Controller::start_session`], for a
    /// caller that goes on where `Connect` could not be sent, and must then
    /// find the status as it was.
    pub fn connect_sent(&mut self, token: Token, now: Instant) -> (outcome: Outcome)
        ensures
            final(self)@ == old(self)@.connect_sent(token@, now).next,
            outcome@ == old(self)@.connect_sent(token@, now).outcome,
    {
        match self.session_refusal() {
            Some(fault) => {
                return Outcome::fail(fault);
            },
            None => {},
        }
        self.status = Status::WaitingForPortal { start_instant: now, token };
        let mut actions = no_actions();
        emit(&mut actions, Action::NotifySignedIn);
        emit(&mut actions, Action::RefreshTrayMenu);
        Outcome::proceed(actions)
    }

    /// Starts a session with `token`, counted from the instant `now`.
    ///
    /// Only from `Disconnected` and `RetryingConnection`: from every other
    /// status the controller stays as it is, asks for nothing, and reports
    /// why.
    pub fn start_session(&mut self, token: Token, now: Instant) -> (outcome: Outcome)
        ensures
            final(self)@ == old(self)@.start_session(token@, now).next,
            outcome@ == old(self)@.start_session(token@, now).outcome,
    {
        match self.session_refusal() {
            Some(fault) => {
                return Outcome::fail(fault);
            },
            None => {},
        }
        let mut connect = no_actions();
        emit(&mut connect, self.connect_command(&token));
        self.connect_sent(token, now).after(connect)
    }

    /// What tells the telemetry of this process, and of the service, who is
    /// signed in and which release runs.
    pub fn update_telemetry_context(
        &self,
        account_slug: Option<String>,
        release: String,
    ) -> (actions: Vec<Action>)
        ensures
            action_views(actions@) == self@.telemetry_context(
                optional_text(account_slug),
                release@,
            ),
    {
        let mut actions = no_actions();
        match &account_slug {
            Some(slug) => {
                emit(&mut actions, Action::SetTelemetryAccount(slug.clone()));
            },
            None => {},
        }
        emit(
            &mut actions,
            Action::Send(
                ClientMsg::StartTelemetry {
                    environment: self.advanced_settings.api_url.clone(),
                    release,
                    account_slug,
                },
            ),
        );
        actions
    }

    /// What comes before the first turn of the event loop, with the token
    /// that the sign-in store holds, if it holds one.
    pub fn enter_main_loop(
        &mut self,
        token: Option<Token>,
        account_slug: Option<String>,
        release: String,
        now: Instant,
    ) -> (outcome: Outcome)
        ensures
            final(self)@ == old(self)@.enter_main_loop(
                match token {
                    Some(token) => Some(token@),
                    None => None,
                },
                optional_text(account_slug),
                release@,
                now,
            ).next,
            outcome@ == old(self)@.enter_main_loop(
                match token {
                    Some(token) => Some(token@),
                    None => None,
                },
                optional_text(account_slug),
                release@,
                now,
            ).outcome,
    {
        let mut telemetry = self.update_telemetry_context(account_slug, release);
        match token {
            Some(token) => self.start_session(token, now).after(telemetry),
            None => {
                emit(&mut telemetry, Action::RefreshTrayMenu);
                Outcome::proceed(telemetry)
            },
        }
    }

    /// What is shown where the application runs for the first time: the
    /// welcome window.
    pub fn welcome(ran_before: bool) -> (outcome: Outcome)
        ensures
            outcome@ == if ran_before {
                OutcomeView::nothing()
            } else {
                OutcomeView::proceed(
                    seq![ActionView::SetWelcomeWindowVisible(true)],
                )
            },
    {
        if ran_before {
            Outcome::nothing()
        } else {
            let mut actions = no_actions();
            emit(&mut actions, Action::SetWelcomeWindowVisible(true));
            Outcome::proceed(actions)
        }
    }

    /// A deep link was consumed by the sign-in store and gave `token`: the
    /// telemetry context is set anew, and `Connect` is sent where a session
    /// may start.
    ///
    /// Nothing changes yet. A failure in handling a deep link does not stop
    /// the event loop, so the status follows only once `Connect` is with the
    /// service, through [`Controller::connect_sent`].
    pub fn handle_deep_link(
        &self,
        token: &Token,
        account_slug: Option<String>,
        release: String,
    ) -> (outcome: Outcome)
        ensures
            outcome@ == self@.deep_link(token@, optional_text(account_slug), release@),
    {
        let mut actions = self.update_telemetry_context(account_slug, release);
        match self.session_refusal() {
            Some(fault) => Outcome { actions, end: End::Fail(fault) },
            None => {
                emit(&mut actions, self.connect_command(token));
                Outcome::proceed(actions)
            },
        }
    }

    /// In `RetryingConnection`, tries the portal again with the token that
    /// was kept.
    pub fn try_retry_connection(&mut self, now: Instant) -> (outcome: Outcome)
        ensures
            final(self)@ == old(self)@.try_retry_connection(now).next,
            outcome@ == old(self)@.try_retry_connection(now).outcome,
    {
        let token = match &self.status {
            Status::RetryingConnection { token } => token.duplicate(),
            _ => {
                return Outcome::nothing();
            },
        };
        self.start_session(token, now)
    }

    /// The service reported how `Connect` ended.
    pub fn handle_connect_result(&mut self, result: Result<(), ConnectError>) -> (outcome: Outcome)
        ensures
            final(self)@ == old(self)@.connect_result(result).next,
            outcome@ == old(self)@.connect_result(result).outcome,
    {
        let (start_instant, token) = match &self.status {
            Status::WaitingForPortal { start_instant, token } => (
                *start_instant,
                token.duplicate(),
            ),
            _ => {
                return Outcome::nothing();
            },
        };
        match result {
            Ok(()) => {
                self.status = Status::WaitingForTunnel { start_instant };
                let mut actions = no_actions();
                emit(&mut actions, Action::MarkConnectedOnce);
                emit(&mut actions, Action::RefreshTrayMenu);
                Outcome::proceed(actions)
            },
            Err(ConnectError::Io(_)) => {
                self.status = Status::RetryingConnection { token };
                let mut actions = no_actions();
                emit(&mut actions, Action::RefreshTrayMenu);
                Outcome::proceed(actions)
            },
            Err(ConnectError::Other(_)) => self.sign_out(),
        }
    }

    /// Saves the settings and, where the tunnel has an internet resource,
    /// tells the service whether to leave it out.
    pub fn update_disabled_resources(&self) -> (actions: Vec<Action>)
        ensures
            action_views(actions@) == self@.update_disabled_resources(),
    {
        let mut actions = no_actions();
        emit(&mut actions, Action::SaveSettings);
        match self.status.internet_resource() {
            Some(internet_resource) => {
                let mut disabled: BTreeSet<u128> = BTreeSet::new();
                if !self.advanced_settings.internet_resource_enabled() {
                    disabled.insert(internet_resource.id().0);
                }
                assert(disabled@ == self@.disabled_resources(internet_resource));
                emit(&mut actions, Action::Send(ClientMsg::SetDisabledResources(disabled)));
                emit(&mut actions, Action::RefreshTrayMenu);
            },
            None => {},
        }
        actions
    }

    /// Saves the settings, favourites included, and refreshes the tray
    /// menu.
    fn refresh_favorite_resources() -> (outcome: Outcome)
        ensures
            outcome@ == OutcomeView::proceed(
                seq![
                    ActionView::SaveSettings,
                    ActionView::RefreshTrayMenu,
                ],
            ),
    {
        let mut actions = no_actions();
        emit(&mut actions, Action::SaveSettings);
        emit(&mut actions, Action::RefreshTrayMenu);
        Outcome::proceed(actions)
    }

    /// Sets, or clears, the release that is ready to download.
    pub fn handle_update_notification(&mut self, notification: Option<Notification>) -> (outcome:
        Outcome)
        ensures
            final(self)@ == old(self)@.update_notification(notification).next,
            outcome@ == old(self)@.update_notification(notification).outcome,
    {
        let mut actions = no_actions();
        match notification {
            None => {
                self.release = None;
                emit(&mut actions, Action::RefreshTrayMenu);
            },
            Some(notification) => {
                let Notification { release, tell_user } = notification;
                emit(&mut actions, Action::RefreshTrayMenu);
                if tell_user {
                    let title = "Firezone ".to_owned().concat(release.version.as_str()).concat(
                        " available for download",
                    );
                    assert(title@ == update_title(release.version@));
                    emit(
                        &mut actions,
                        Action::ShowUpdateNotification {
                            title,
                            download_url: release.download_url.clone(),
                        },
                    );
                }
                self.release = Some(release);
            },
        }
        Outcome::proceed(actions)
    }

    /// A message of the tunnel service.
    pub fn handle_service_ipc_msg(&mut self, msg: ServerMsg) -> (outcome: Outcome)
        ensures
            final(self)@ == old(self)@.service_msg(msg).next,
            outcome@ == old(self)@.service_msg(msg).outcome,
    {
        match msg {
            ServerMsg::ClearedLogs(answer) => {
                let callback = self.clear_logs_callback.take();
                match callback {
                    None => Outcome::fail(Fault::NoClearLogsCallback),
                    Some(caller) => {
                        let mut actions = no_actions();
                        emit(&mut actions, Action::AnswerClearedLogs { caller, answer });
                        Outcome::proceed(actions)
                    },
                }
            },
            ServerMsg::ConnectResult(result) => self.handle_connect_result(result),
            ServerMsg::DisconnectedGracefully => {
                match &self.status {
                    Status::Quitting => Outcome { actions: no_actions(), end: End::Break },
                    _ => Outcome::nothing(),
                }
            },
            ServerMsg::OnDisconnect { error_msg, is_authentication_error } => {
                let outcome = self.sign_out();
                if is_authentication_error {
                    outcome.followed_by(
                        Action::ShowNotification {
                            title: "Firezone disconnected".to_owned(),
                            body: "To access resources, sign in again.".to_owned(),
                        },
                    )
                } else {
                    outcome.followed_by(
                        Action::ShowErrorDialog {
                            title: "Firezone Error".to_owned(),
                            text: error_msg,
                        },
                    )
                }
            },
            ServerMsg::OnUpdateResources(resources) => {
                if !self.status.needs_resource_updates() {
                    return Outcome::nothing();
                }
                self.status = Status::TunnelReady { resources };
                let mut actions = no_actions();
                emit(&mut actions, Action::RefreshTrayMenu);
                Outcome::proceed(self.update_disabled_resources()).after(actions)
            },
            ServerMsg::TerminatingGracefully => {
                let mut actions = no_actions();
                emit(&mut actions, Action::SetTrayIcon(icon_terminating()));
                emit(
                    &mut actions,
                    Action::ShowNotification {
                        title: "Firezone disconnected".to_owned(),
                        body: "The Firezone Tunnel service was shutdown, quitting GUI process.".to_owned(),
                    },
                );
                Outcome { actions, end: End::Fail(Fault::ServiceTerminated) }
            },
            ServerMsg::TunnelReady => {
                match &self.status {
                    Status::WaitingForPortal { .. } | Status::WaitingForTunnel { .. } => {},
                    _ => {
                        return Outcome::nothing();
                    },
                }
                self.status = Status::TunnelReady { resources: Vec::new() };
                let mut actions = no_actions();
                emit(
                    &mut actions,
                    Action::ShowNotification {
                        title: "Firezone connected".to_owned(),
                        body: "You are now signed in and able to access resources.".to_owned(),
                    },
                );
                emit(&mut actions, Action::RefreshTrayMenu);
                Outcome::proceed(actions)
            },
            ServerMsg::Hello => Outcome::nothing(),
        }
    }

    /// A click in the tray menu.
    pub fn handle_system_tray_event(&mut self, event: Event, now: Instant) -> (outcome: Outcome)
        ensures
            final(self)@ == old(self)@.tray_event(event, now).next,
            outcome@ == old(self)@.tray_event(event, now).outcome,
    {
        match event {
            Event::AddFavorite(id) => {
                self.advanced_settings.add_favorite(id);
                Self::refresh_favorite_resources()
            },
            Event::AdminPortal => {
                let mut actions = no_actions();
                emit(&mut actions, Action::OpenUrl(self.advanced_settings.auth_base_url.clone()));
                Outcome::proceed(actions)
            },
            Event::CancelSignIn => {
                match &self.status {
                    Status::Disconnected
                    | Status::RetryingConnection { .. }
                    | Status::WaitingForPortal { .. }
                    | Status::WaitingForTunnel { .. } => self.sign_out(),
                    Status::Quitting | Status::TunnelReady { .. } => Outcome::nothing(),
                }
            },
            Event::Copy(text) => {
                let mut actions = no_actions();
                emit(&mut actions, Action::CopyToClipboard(text));
                Outcome::proceed(actions)
            },
            Event::DisableInternetResource => {
                self.advanced_settings.internet_resource_enabled = Some(false);
                Outcome::proceed(self.update_disabled_resources())
            },
            Event::EnableInternetResource => {
                self.advanced_settings.internet_resource_enabled = Some(true);
                Outcome::proceed(self.update_disabled_resources())
            },
            Event::Quit => {
                self.status = Status::Quitting;
                let mut actions = no_actions();
                emit(&mut actions, Action::Send(ClientMsg::Disconnect));
                emit(&mut actions, Action::RefreshTrayMenu);
                Outcome::proceed(actions)
            },
            Event::RemoveFavorite(id) => {
                self.advanced_settings.remove_favorite(id);
                Self::refresh_favorite_resources()
            },
            Event::RetryPortalConnection => self.try_retry_connection(now),
            Event::ShowWindow(window) => {
                let mut actions = no_actions();
                emit(&mut actions, Action::ShowWindow(window));
                Outcome::proceed(actions)
            },
            Event::SignIn => Self::sign_in(),
            Event::SignOut => self.sign_out(),
            Event::Url(url) => {
                let mut actions = no_actions();
                emit(&mut actions, Action::OpenUrl(url));
                Outcome::proceed(actions)
            },
        }
    }

    /// What starts a sign-in.
    fn sign_in() -> (outcome: Outcome)
        ensures
            outcome@ == OutcomeView::proceed(
                seq![
                    ActionView::StartSignIn,
                    ActionView::RefreshTrayMenu,
                    ActionView::OpenSignInPage,
                    ActionView::SetWelcomeWindowVisible(false),
                ],
            ),
    {
        let mut actions = no_actions();
        emit(&mut actions, Action::StartSignIn);
        emit(&mut actions, Action::RefreshTrayMenu);
        emit(&mut actions, Action::OpenSignInPage);
        emit(&mut actions, Action::SetWelcomeWindowVisible(false));
        Outcome::proceed(actions)
    }

    /// A request from the presentation layer.
    pub fn handle_request(&mut self, request: ControllerRequest, now: Instant) -> (outcome: Outcome)
        ensures
            final(self)@ == old(self)@.request(request, now).next,
            outcome@ == old(self)@.request(request, now).outcome,
    {
        match request {
            ControllerRequest::ApplySettings(settings) => {
                let settings: AdvancedSettings = *settings;
                let mut actions = no_actions();
                emit(&mut actions, Action::ReloadLogFilter(settings.log_filter.clone()));
                emit(
                    &mut actions,
                    Action::Send(
                        ClientMsg::ApplyLogFilter { directives: settings.log_filter.clone() },
                    ),
                );
                emit(&mut actions, Action::RefreshTrayMenu);
                self.advanced_settings = settings;
                Outcome::proceed(actions)
            },
            ControllerRequest::ClearLogs(completion) => {
                self.clear_logs_callback = Some(completion);
                let mut actions = no_actions();
                emit(&mut actions, Action::ClearGuiLogs);
                emit(&mut actions, Action::Send(ClientMsg::ClearLogs));
                Outcome::proceed(actions)
            },
            ControllerRequest::ExportLogs { path, stem } => {
                let mut actions = no_actions();
                emit(&mut actions, Action::ExportLogs { path, stem });
                Outcome::proceed(actions)
            },
            ControllerRequest::Fail(Failure::Crash) => {
                let mut actions = no_actions();
                emit(&mut actions, Action::Crash);
                Outcome::proceed(actions)
            },
            ControllerRequest::Fail(Failure::Error) => Outcome::fail(Fault::TestError),
            ControllerRequest::Fail(Failure::Panic) => {
                let mut actions = no_actions();
                emit(&mut actions, Action::Panic);
                Outcome::proceed(actions)
            },
            ControllerRequest::GetAdvancedSettings(caller) => {
                let mut actions = no_actions();
                emit(
                    &mut actions,
                    Action::AnswerSettings { caller, settings: self.advanced_settings.duplicate() },
                );
                Outcome::proceed(actions)
            },
            ControllerRequest::SignIn => Self::sign_in(),
            ControllerRequest::SignOut => self.sign_out(),
            ControllerRequest::SystemTrayMenu(event) => self.handle_system_tray_event(event, now),
            ControllerRequest::UpdateNotificationClicked(download_url) => {
                let mut actions = no_actions();
                emit(&mut actions, Action::OpenUrl(download_url));
                Outcome::proceed(actions)
            },
        }
    }

    /// One turn of the event loop: the body of the loop that the process
    /// runs around the controller.
    ///
    /// The loop ends well on one tick alone: the service confirms the
    /// disconnect while the controller is quitting. A source that has closed,
    /// and a service that shuts down, end it with a fault.
    pub fn handle_tick(&mut self, tick: EventloopTick, now: Instant) -> (outcome: Outcome)
        ensures
            final(self)@ == old(self)@.tick(tick, now).next,
            outcome@ == old(self)@.tick(tick, now).outcome,
    {
        match tick {
            EventloopTick::NetworkChanged(Ok(())) => {
                if self.status.needs_network_changes() {
                    let mut actions = no_actions();
                    emit(&mut actions, Action::Send(ClientMsg::Reset));
                    self.try_retry_connection(now).after(actions)
                } else {
                    self.try_retry_connection(now)
                }
            },
            EventloopTick::DnsChanged(Ok(resolvers)) => {
                if self.status.needs_network_changes() {
                    let mut actions = no_actions();
                    emit(&mut actions, Action::Send(ClientMsg::SetDns(resolvers)));
                    self.try_retry_connection(now).after(actions)
                } else {
                    self.try_retry_connection(now)
                }
            },
            EventloopTick::NetworkChanged(Err(error)) => Outcome::fail(Fault::Notifier(error)),
            EventloopTick::DnsChanged(Err(error)) => Outcome::fail(Fault::Notifier(error)),
            EventloopTick::IpcMsg(None) => Outcome::fail(Fault::IpcClosed),
            EventloopTick::IpcMsg(Some(Err(error))) => Outcome::fail(Fault::IpcRead(error)),
            EventloopTick::IpcMsg(Some(Ok(msg))) => self.handle_service_ipc_msg(msg),
            EventloopTick::ControllerRequest(Some(request)) => self.handle_request(request, now),
            EventloopTick::ControllerRequest(None) => Outcome::fail(Fault::RequestsClosed),
            EventloopTick::UpdateNotification(Some(notification)) => {
                self.handle_update_notification(notification)
            },
            EventloopTick::UpdateNotification(None) => Outcome::fail(Fault::UpdateCheckerStopped),
            EventloopTick::NewInstanceLaunched(None) => Outcome::fail(Fault::GuiIpcClosed),
            EventloopTick::NewInstanceLaunched(Some(Err(_))) => Outcome::nothing(),
            EventloopTick::NewInstanceLaunched(Some(Ok(()))) => {
                let mut actions = no_actions();
                emit(&mut actions, Action::ServeNewInstance);
                Outcome::proceed(actions)
            },
        }
    }

    /// What to do with the message of a newly launched instance, and what
    /// to answer. The answer is `Ack` in every case.
    pub fn handle_gui_ipc_msg(
        &self,
        maybe_msg: Option<Result<gui::ClientMsg, String>>,
    ) -> (result: Handoff)
        ensures
            result@ == handoff(maybe_msg),
    {
        let handled = match maybe_msg {
            None => Err(HandoffError::NoMessage),
            Some(Err(error)) => Err(HandoffError::ReadFailed(error)),
            Some(Ok(gui::ClientMsg::Deeplink(url))) => {
                let mut actions = no_actions();
                emit(&mut actions, Action::HandleAuthCallback(url));
                Ok(actions)
            },
            Some(Ok(gui::ClientMsg::NewInstance)) => {
                let mut actions = no_actions();
                emit(&mut actions, Action::SetWelcomeWindowVisible(true));
                Ok(actions)
            },
        };
        Handoff { handled, reply: gui::ServerMsg::Ack }
    }
}

} // verus!
