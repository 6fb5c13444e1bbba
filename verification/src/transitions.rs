//! The controller's state machine, as mathematics.
//!
//! Every handler of [`crate::controller::Controller`] is specified by one
//! function here: from the controller's state and the event to a [`Step`],
//! the state afterwards and the outcome.

use crate::action::ActionView;
use crate::action::End;
use crate::action::Fault;
use crate::action::OutcomeView;
use crate::auth::Session;
use crate::request::ControllerRequest;
use crate::request::EventloopTick;
use crate::request::Failure;
use crate::resource::Resource;
use crate::service::ClientMsgView;
use crate::service::ConnectError;
use crate::service::IpAddress;
use crate::service::ServerMsg;
use crate::settings::AdvancedSettingsView;
use crate::status::StatusView;
use crate::system_tray::spec_icon_terminating;
use crate::system_tray::AppStateView;
use crate::system_tray::ConnlibStateView;
use crate::system_tray::Event;
use crate::updates::Notification;
use crate::updates::Release;
use std::time::Instant;
use tokio::sync::oneshot::Sender;
use vstd::prelude::*;

verus! {

/// The state of a controller.
#[verifier::ext_equal]
pub struct ControllerView {
    /// The settings in use.
    pub advanced_settings: AdvancedSettingsView,
    /// The caller that waits for the service to report cleared logs, if one
    /// does.
    pub clear_logs_caller: Option<Sender<Result<(), String>>>,
    /// The release that is ready to download, if any.
    pub release: Option<Release>,
    /// The status of the connection.
    pub status: StatusView,
}

/// What a handler does: the state afterwards, and the outcome.
#[verifier::ext_equal]
pub struct Step {
    pub next: ControllerView,
    pub outcome: OutcomeView,
}

impl Step {
    /// This step with `actions` in front of its own.
    pub open spec fn after(self, actions: Seq<ActionView>) -> Step {
        Step { next: self.next, outcome: self.outcome.after(actions) }
    }

    /// This step with `actions` behind its own.
    pub open spec fn followed_by(self, actions: Seq<ActionView>) -> Step {
        Step { next: self.next, outcome: self.outcome.followed_by(actions) }
    }
}

/// The title of the notifications that report the end of a session.
pub open spec fn disconnected_title() -> Seq<char> {
    "Firezone disconnected"@
}

/// The title of a release's notification: the version between two fixed
/// parts.
pub open spec fn update_title(version: Seq<char>) -> Seq<char> {
    "Firezone "@ + version + " available for download"@
}

impl ControllerView {
    /// A controller that has just been made: disconnected, nothing pending.
    pub open spec fn initial(advanced_settings: AdvancedSettingsView) -> ControllerView {
        ControllerView {
            advanced_settings,
            clear_logs_caller: None,
            release: None,
            status: StatusView::Disconnected,
        }
    }

    /// This state with another status.
    pub open spec fn with_status(self, status: StatusView) -> ControllerView {
        ControllerView { status, ..self }
    }

    /// The step that changes nothing and asks for nothing.
    pub open spec fn stay(self) -> Step {
        Step { next: self, outcome: OutcomeView::nothing() }
    }

    /// The step that changes nothing and asks for `actions`.
    pub open spec fn stay_and(self, actions: Seq<ActionView>) -> Step {
        Step { next: self, outcome: OutcomeView::proceed(actions) }
    }

    /// What the tray menu is built from: the status where somebody is signed
    /// in, else whether a sign-in waits for the browser.
    pub open spec fn tray_state(
        self,
        session: Option<Session>,
        sign_in_pending: bool,
    ) -> AppStateView {
        let connlib = match session {
            Some(session) => match self.status {
                StatusView::Disconnected => ConnlibStateView::SignedOut,
                StatusView::Quitting => ConnlibStateView::Quitting,
                StatusView::RetryingConnection { .. } => ConnlibStateView::RetryingConnection,
                StatusView::TunnelReady { resources } => ConnlibStateView::SignedIn {
                    actor_name: session.actor_name@,
                    favorite_resources: self.advanced_settings.favorite_resources,
                    internet_resource_enabled: self.advanced_settings.internet_resource_enabled,
                    resources,
                },
                StatusView::WaitingForPortal { .. } => ConnlibStateView::WaitingForPortal,
                StatusView::WaitingForTunnel { .. } => ConnlibStateView::WaitingForTunnel,
            },
            None => if sign_in_pending {
                ConnlibStateView::WaitingForBrowser
            } else {
                ConnlibStateView::SignedOut
            },
        };
        AppStateView { connlib, release: self.release }
    }

    /// Signing out. While quitting, nothing happens. Else the sign-in store
    /// forgets the session, the presentation layer is told, the status
    /// becomes `Disconnected`, and `Disconnect` is sent whether or not a
    /// session was up.
    pub open spec fn sign_out(self) -> Step {
        if self.status is Quitting {
            self.stay()
        } else {
            Step {
                next: self.with_status(StatusView::Disconnected),
                outcome: OutcomeView::proceed(
                    seq![
                        ActionView::SignOut,
                        ActionView::NotifySignedOut,
                        ActionView::Send(ClientMsgView::Disconnect),
                        ActionView::RefreshTrayMenu,
                    ],
                ),
            }
        }
    }

    /// Why a session cannot start in this status, if it cannot.
    pub open spec fn session_refusal(self) -> Option<Fault> {
        match self.status {
            StatusView::Disconnected | StatusView::RetryingConnection { .. } => None,
            StatusView::Quitting => Some(Fault::Quitting),
            StatusView::TunnelReady { .. } => Some(Fault::AlreadyConnected),
            StatusView::WaitingForPortal { .. } | StatusView::WaitingForTunnel { .. } => Some(
                Fault::AlreadyConnecting,
            ),
        }
    }

    /// The command that asks the service for a session.
    pub open spec fn connect_command(self, token: Seq<char>) -> ActionView {
        ActionView::Send(
            ClientMsgView::Connect { api_url: self.advanced_settings.api_url, token },
        )
    }

    /// `Connect` is with the service, for a request that was made at the
    /// instant `now`: the status becomes `WaitingForPortal`, and the
    /// presentation layer is told. Where no session may start, nothing
    /// changes and the refusal is reported.
    pub open spec fn connect_sent(self, token: Seq<char>, now: Instant) -> Step {
        match self.session_refusal() {
            Some(fault) => self.abort(fault),
            None => Step {
                next: self.with_status(StatusView::WaitingForPortal { start_instant: now, token }),
                outcome: OutcomeView::proceed(
                    seq![ActionView::NotifySignedIn, ActionView::RefreshTrayMenu],
                ),
            },
        }
    }

    /// Starting a session with `token` at the instant `now`. From
    /// `Disconnected` and `RetryingConnection`, `Connect` is sent and the
    /// status becomes `WaitingForPortal`. From every other status nothing
    /// changes, nothing is sent, and the refusal is reported.
    pub open spec fn start_session(self, token: Seq<char>, now: Instant) -> Step {
        match self.session_refusal() {
            Some(fault) => self.abort(fault),
            None => self.connect_sent(token, now).after(seq![self.connect_command(token)]),
        }
    }

    /// What tells the telemetry of this process, and of the service, who is
    /// signed in.
    pub open spec fn telemetry_context(
        self,
        account_slug: Option<Seq<char>>,
        release: Seq<char>,
    ) -> Seq<ActionView> {
        let start = ActionView::Send(
            ClientMsgView::StartTelemetry {
                environment: self.advanced_settings.api_url,
                release,
                account_slug,
            },
        );
        match account_slug {
            Some(slug) => seq![ActionView::SetTelemetryAccount(slug), start],
            None => seq![start],
        }
    }

    /// What comes before the first turn of the event loop: the telemetry
    /// context is set; with a stored token a session starts, without one
    /// only the tray menu is built.
    pub open spec fn enter_main_loop(
        self,
        token: Option<Seq<char>>,
        account_slug: Option<Seq<char>>,
        release: Seq<char>,
        now: Instant,
    ) -> Step {
        let telemetry = self.telemetry_context(account_slug, release);
        match token {
            Some(token) => self.start_session(token, now).after(telemetry),
            None => self.stay_and(telemetry.push(ActionView::RefreshTrayMenu)),
        }
    }

    /// A deep link gave `token`: the telemetry context is set anew, and
    /// `Connect` is sent where a session may start. Nothing changes yet: the
    /// status follows once `Connect` is with the service.
    pub open spec fn deep_link(
        self,
        token: Seq<char>,
        account_slug: Option<Seq<char>>,
        release: Seq<char>,
    ) -> OutcomeView {
        let telemetry = self.telemetry_context(account_slug, release);
        match self.session_refusal() {
            Some(fault) => OutcomeView { actions: telemetry, end: End::Fail(fault) },
            None => OutcomeView::proceed(telemetry.push(self.connect_command(token))),
        }
    }

    /// The retry policy: in `RetryingConnection` a session starts with the
    /// token that was kept; in every other status nothing happens.
    pub open spec fn try_retry_connection(self, now: Instant) -> Step {
        match self.status {
            StatusView::RetryingConnection { token } => self.start_session(token, now),
            _ => self.stay(),
        }
    }

    /// The service reported how `Connect` ended. Only `WaitingForPortal`
    /// listens: success leads to `WaitingForTunnel` with the same start
    /// instant, a failure to reach the portal to `RetryingConnection` with
    /// the same token, every other failure to signing out.
    pub open spec fn connect_result(self, result: Result<(), ConnectError>) -> Step {
        match self.status {
            StatusView::WaitingForPortal { start_instant, token } => match result {
                Ok(_) => Step {
                    next: self.with_status(StatusView::WaitingForTunnel { start_instant }),
                    outcome: OutcomeView::proceed(
                        seq![ActionView::MarkConnectedOnce, ActionView::RefreshTrayMenu],
                    ),
                },
                Err(ConnectError::Io(_)) => Step {
                    next: self.with_status(StatusView::RetryingConnection { token }),
                    outcome: OutcomeView::proceed(seq![ActionView::RefreshTrayMenu]),
                },
                Err(ConnectError::Other(_)) => self.sign_out(),
            },
            _ => self.stay(),
        }
    }

    /// The resources that the service is told to leave out: the internet
    /// resource, unless the user switched it on.
    pub open spec fn disabled_resources(self, internet_resource: Resource) -> Set<u128> {
        if self.advanced_settings.internet_resource_enabled() {
            Set::empty()
        } else {
            Set::empty().insert(internet_resource.id.0)
        }
    }

    /// What follows a change of the internet-resource switch or of the
    /// resources: the settings are saved, and where the tunnel has an
    /// internet resource the service is told what to leave out.
    pub open spec fn update_disabled_resources(self) -> Seq<ActionView> {
        match self.status.internet_resource() {
            Some(internet_resource) => seq![
                ActionView::SaveSettings,
                ActionView::Send(
                    ClientMsgView::SetDisabledResources(self.disabled_resources(internet_resource)),
                ),
                ActionView::RefreshTrayMenu,
            ],
            None => seq![ActionView::SaveSettings],
        }
    }

    /// The service reported cleared logs, with `answer`. The caller that
    /// waits is handed the answer as it came, and nobody waits any more.
    /// Where nobody waited, the loop stops with a fault.
    pub open spec fn cleared_logs(self, answer: Result<(), String>) -> Step {
        match self.clear_logs_caller {
            None => self.abort(Fault::NoClearLogsCallback),
            Some(caller) => (ControllerView { clear_logs_caller: None, ..self }).stay_and(
                seq![ActionView::AnswerClearedLogs { caller, answer }],
            ),
        }
    }

    /// A new list of resources. It is taken while the tunnel is up or being
    /// raised, and then replaces the list before; in every other status it
    /// is dropped.
    pub open spec fn update_resources(self, resources: Seq<Resource>) -> Step {
        if !self.status.needs_resource_updates() {
            self.stay()
        } else {
            let next = self.with_status(StatusView::TunnelReady { resources });
            Step {
                next,
                outcome: OutcomeView::proceed(
                    seq![ActionView::RefreshTrayMenu] + next.update_disabled_resources(),
                ),
            }
        }
    }

    /// The service raised the tunnel. While a session is coming up the
    /// status becomes `TunnelReady`, with no resources yet; in every other
    /// status nothing happens.
    pub open spec fn tunnel_ready(self) -> Step {
        if self.status is WaitingForPortal || self.status is WaitingForTunnel {
            Step {
                next: self.with_status(StatusView::TunnelReady { resources: Seq::empty() }),
                outcome: OutcomeView::proceed(
                    seq![
                        ActionView::ShowNotification {
                            title: "Firezone connected"@,
                            body: "You are now signed in and able to access resources."@,
                        },
                        ActionView::RefreshTrayMenu,
                    ],
                ),
            }
        } else {
            self.stay()
        }
    }

    /// The service gave the session up: the user is signed out and told
    /// why, by a notification where the token was refused, else by a dialog
    /// with the service's words.
    pub open spec fn disconnected(
        self,
        error_msg: Seq<char>,
        is_authentication_error: bool,
    ) -> Step {
        self.sign_out().followed_by(
            if is_authentication_error {
                seq![
                    ActionView::ShowNotification {
                        title: disconnected_title(),
                        body: "To access resources, sign in again."@,
                    },
                ]
            } else {
                seq![ActionView::ShowErrorDialog { title: "Firezone Error"@, text: error_msg }]
            },
        )
    }

    /// A message of the tunnel service.
    pub open spec fn service_msg(self, msg: ServerMsg) -> Step {
        match msg {
            ServerMsg::ClearedLogs(answer) => self.cleared_logs(answer),
            ServerMsg::ConnectResult(result) => self.connect_result(result),
            ServerMsg::DisconnectedGracefully => if self.status is Quitting {
                Step { next: self, outcome: OutcomeView { actions: Seq::empty(), end: End::Break } }
            } else {
                self.stay()
            },
            ServerMsg::OnDisconnect { error_msg, is_authentication_error } => self.disconnected(
                error_msg@,
                is_authentication_error,
            ),
            ServerMsg::OnUpdateResources(resources) => self.update_resources(resources@),
            ServerMsg::TerminatingGracefully => Step {
                next: self,
                outcome: OutcomeView {
                    actions: seq![
                        ActionView::SetTrayIcon(spec_icon_terminating()),
                        ActionView::ShowNotification {
                            title: disconnected_title(),
                            body: "The Firezone Tunnel service was shutdown, quitting GUI process."@,
                        },
                    ],
                    end: End::Fail(Fault::ServiceTerminated),
                },
            },
            ServerMsg::TunnelReady => self.tunnel_ready(),
            ServerMsg::Hello => self.stay(),
        }
    }

    /// This state with other settings.
    pub open spec fn with_settings(self, advanced_settings: AdvancedSettingsView) -> ControllerView {
        ControllerView { advanced_settings, ..self }
    }

    /// The user asked to quit: the status becomes `Quitting` and
    /// `Disconnect` is sent.
    pub open spec fn quit(self) -> Step {
        Step {
            next: self.with_status(StatusView::Quitting),
            outcome: OutcomeView::proceed(
                seq![ActionView::Send(ClientMsgView::Disconnect), ActionView::RefreshTrayMenu],
            ),
        }
    }

    /// The user switched the internet resource on or off.
    pub open spec fn set_internet_resource_enabled(self, enabled: bool) -> Step {
        let next = self.with_settings(
            AdvancedSettingsView {
                internet_resource_enabled: Some(enabled),
                ..self.advanced_settings
            },
        );
        next.stay_and(next.update_disabled_resources())
    }

    /// The favourites changed to `favorite_resources`.
    pub open spec fn set_favorites(self, favorite_resources: Set<u128>) -> Step {
        self.with_settings(
            AdvancedSettingsView { favorite_resources, ..self.advanced_settings },
        ).stay_and(seq![ActionView::SaveSettings, ActionView::RefreshTrayMenu])
    }

    /// The user gave the sign-in up. Signed out it is, unless the tunnel is
    /// up already or the application is quitting.
    pub open spec fn cancel_sign_in(self) -> Step {
        if self.status is Quitting || self.status is TunnelReady {
            self.stay()
        } else {
            self.sign_out()
        }
    }

    /// What starts a sign-in: a request in the store, its page in the
    /// browser, and the welcome window out of the way.
    pub open spec fn sign_in(self) -> Step {
        self.stay_and(
            seq![
                ActionView::StartSignIn,
                ActionView::RefreshTrayMenu,
                ActionView::OpenSignInPage,
                ActionView::SetWelcomeWindowVisible(false),
            ],
        )
    }

    /// A click in the tray menu.
    pub open spec fn tray_event(self, event: Event, now: Instant) -> Step {
        match event {
            Event::AddFavorite(id) => self.set_favorites(
                self.advanced_settings.favorite_resources.insert(id.0),
            ),
            Event::AdminPortal => self.stay_and(
                seq![ActionView::OpenUrl(self.advanced_settings.auth_base_url)],
            ),
            Event::CancelSignIn => self.cancel_sign_in(),
            Event::Copy(text) => self.stay_and(seq![ActionView::CopyToClipboard(text@)]),
            Event::DisableInternetResource => self.set_internet_resource_enabled(false),
            Event::EnableInternetResource => self.set_internet_resource_enabled(true),
            Event::Quit => self.quit(),
            Event::RemoveFavorite(id) => self.set_favorites(
                self.advanced_settings.favorite_resources.remove(id.0),
            ),
            Event::RetryPortalConnection => self.try_retry_connection(now),
            Event::ShowWindow(window) => self.stay_and(seq![ActionView::ShowWindow(window)]),
            Event::SignIn => self.sign_in(),
            Event::SignOut => self.sign_out(),
            Event::Url(url) => self.stay_and(seq![ActionView::OpenUrl(url@)]),
        }
    }

    /// A failure was asked for: a crash and a panic are handed on as
    /// actions, an error stops the loop.
    pub open spec fn fail_on_purpose(self, failure: Failure) -> Step {
        match failure {
            Failure::Crash => self.stay_and(seq![ActionView::Crash]),
            Failure::Error => Step { next: self, outcome: OutcomeView::fail(Fault::TestError) },
            Failure::Panic => self.stay_and(seq![ActionView::Panic]),
        }
    }

    /// A request from the presentation layer.
    pub open spec fn request(self, request: ControllerRequest, now: Instant) -> Step {
        match request {
            ControllerRequest::ApplySettings(settings) => self.with_settings(settings@).stay_and(
                seq![
                    ActionView::ReloadLogFilter(settings@.log_filter),
                    ActionView::Send(
                        ClientMsgView::ApplyLogFilter { directives: settings@.log_filter },
                    ),
                    ActionView::RefreshTrayMenu,
                ],
            ),
            ControllerRequest::ClearLogs(caller) => (ControllerView {
                clear_logs_caller: Some(caller),
                ..self
            }).stay_and(
                seq![ActionView::ClearGuiLogs, ActionView::Send(ClientMsgView::ClearLogs)],
            ),
            ControllerRequest::ExportLogs { path, stem } => self.stay_and(
                seq![ActionView::ExportLogs { path, stem }],
            ),
            ControllerRequest::Fail(failure) => self.fail_on_purpose(failure),
            ControllerRequest::GetAdvancedSettings(caller) => self.stay_and(
                seq![ActionView::AnswerSettings { caller, settings: self.advanced_settings }],
            ),
            ControllerRequest::SignIn => self.sign_in(),
            ControllerRequest::SignOut => self.sign_out(),
            ControllerRequest::SystemTrayMenu(event) => self.tray_event(event, now),
            ControllerRequest::UpdateNotificationClicked(download_url) => self.stay_and(
                seq![ActionView::OpenUrl(download_url@)],
            ),
        }
    }

    /// A report of the update check: the release replaces the one before,
    /// "no release" clears it, and the user is told where the report says
    /// so.
    pub open spec fn update_notification(self, notification: Option<Notification>) -> Step {
        match notification {
            None => (ControllerView { release: None, ..self }).stay_and(
                seq![ActionView::RefreshTrayMenu],
            ),
            Some(notification) => (ControllerView {
                release: Some(notification.release),
                ..self
            }).stay_and(
                if notification.tell_user {
                    seq![
                        ActionView::RefreshTrayMenu,
                        ActionView::ShowUpdateNotification {
                            title: update_title(notification.release.version@),
                            download_url: notification.release.download_url@,
                        },
                    ]
                } else {
                    seq![ActionView::RefreshTrayMenu]
                },
            ),
        }
    }

    /// The network changed: the service is told while a session is up or
    /// coming up, and the retry policy is asked.
    pub open spec fn network_changed(self, now: Instant) -> Step {
        if self.status.needs_network_changes() {
            self.try_retry_connection(now).after(seq![ActionView::Send(ClientMsgView::Reset)])
        } else {
            self.try_retry_connection(now)
        }
    }

    /// DNS changed: the service is given the resolvers while a session is
    /// up or coming up, and the retry policy is asked.
    pub open spec fn dns_changed(self, resolvers: Seq<IpAddress>, now: Instant) -> Step {
        if self.status.needs_network_changes() {
            self.try_retry_connection(now).after(
                seq![ActionView::Send(ClientMsgView::SetDns(resolvers))],
            )
        } else {
            self.try_retry_connection(now)
        }
    }

    /// The step that changes nothing and stops the loop with `fault`.
    pub open spec fn abort(self, fault: Fault) -> Step {
        Step { next: self, outcome: OutcomeView::fail(fault) }
    }

    /// One turn of the event loop.
    pub open spec fn tick(self, tick: EventloopTick, now: Instant) -> Step {
        match tick {
            EventloopTick::NetworkChanged(Ok(_)) => self.network_changed(now),
            EventloopTick::DnsChanged(Ok(resolvers)) => self.dns_changed(resolvers@, now),
            EventloopTick::NetworkChanged(Err(error)) => self.abort(Fault::Notifier(error)),
            EventloopTick::DnsChanged(Err(error)) => self.abort(Fault::Notifier(error)),
            EventloopTick::IpcMsg(None) => self.abort(Fault::IpcClosed),
            EventloopTick::IpcMsg(Some(Err(error))) => self.abort(Fault::IpcRead(error)),
            EventloopTick::IpcMsg(Some(Ok(msg))) => self.service_msg(msg),
            EventloopTick::ControllerRequest(Some(request)) => self.request(request, now),
            EventloopTick::ControllerRequest(None) => self.abort(Fault::RequestsClosed),
            EventloopTick::UpdateNotification(Some(notification)) => self.update_notification(
                notification,
            ),
            EventloopTick::UpdateNotification(None) => self.abort(Fault::UpdateCheckerStopped),
            EventloopTick::NewInstanceLaunched(None) => self.abort(Fault::GuiIpcClosed),
            EventloopTick::NewInstanceLaunched(Some(Err(_))) => self.stay(),
            EventloopTick::NewInstanceLaunched(Some(Ok(_))) => self.stay_and(
                seq![ActionView::ServeNewInstance],
            ),
        }
    }
}

} // verus!
