//! The presentation layer, as the controller needs it.
//!
//! The controller is written against this interface alone: one adapter per
//! user-interface toolkit implements it, and a test implements it by taking
//! notes.

use crate::action::Action;
use crate::action::ActionView;
use crate::auth::Session;
use crate::controller::Controller;
use crate::system_tray::AppState;
use crate::system_tray::AppStateView;
use crate::system_tray::Icon;
use crate::system_tray::Window;
use crate::transitions::ControllerView;
use vstd::prelude::*;

verus! {

/// Why the presentation layer could not do what it was asked.
#[derive(Debug, PartialEq, Eq)]
pub struct IntegrationError(pub String);

/// What the controller needs from the presentation layer.
pub trait GuiIntegration {
    /// Shows or hides the welcome window.
    fn set_welcome_window_visible(
        &self,
        visible: bool,
        current_session: Option<&Session>,
    ) -> Result<(), IntegrationError>;

    /// Tells the user interface that `session` is signed in.
    fn notify_signed_in(&self, session: &Session) -> Result<(), IntegrationError>;

    /// Tells the user interface that nobody is signed in.
    fn notify_signed_out(&self) -> Result<(), IntegrationError>;

    /// Opens a URL, or whatever else the text names.
    fn open_url(&self, url: &str) -> Result<(), IntegrationError>;

    /// Shows this icon in the tray.
    fn set_tray_icon(&mut self, icon: Icon);

    /// Builds the tray menu from this state.
    fn set_tray_menu(&mut self, app_state: AppState);

    /// Shows a notification.
    fn show_notification(&self, title: &str, body: &str) -> Result<(), IntegrationError>;

    /// Shows the notification of a release. A click on it comes back to the
    /// controller as a request, with `url`.
    fn show_update_notification(&self, title: &str, url: &str) -> Result<(), IntegrationError>;

    /// Shows a window that the tray menu knows.
    fn show_window(&self, window: Window) -> Result<(), IntegrationError>;
}

/// One call into the presentation layer: the method, and what it is called
/// with.
#[derive(Debug, PartialEq, Eq)]
pub enum UiCall {
    SetWelcomeWindowVisible { visible: bool, current_session: Option<Session> },
    NotifySignedIn(Session),
    NotifySignedOut,
    OpenUrl(String),
    SetTrayIcon(Icon),
    SetTrayMenu(AppState),
    ShowNotification { title: String, body: String },
    ShowUpdateNotification { title: String, url: String },
    ShowWindow(Window),
}

/// What a call says.
#[verifier::ext_equal]
pub enum UiCallView {
    SetWelcomeWindowVisible { visible: bool, current_session: Option<Session> },
    NotifySignedIn(Session),
    NotifySignedOut,
    OpenUrl(Seq<char>),
    SetTrayIcon(Icon),
    SetTrayMenu(AppStateView),
    ShowNotification { title: Seq<char>, body: Seq<char> },
    ShowUpdateNotification { title: Seq<char>, url: Seq<char> },
    ShowWindow(Window),
}

impl View for UiCall {
    type V = UiCallView;

    open spec fn view(&self) -> UiCallView {
        match *self {
            UiCall::SetWelcomeWindowVisible {
                visible,
                current_session,
            } => UiCallView::SetWelcomeWindowVisible { visible, current_session },
            UiCall::NotifySignedIn(session) => UiCallView::NotifySignedIn(session),
            UiCall::NotifySignedOut => UiCallView::NotifySignedOut,
            UiCall::OpenUrl(url) => UiCallView::OpenUrl(url@),
            UiCall::SetTrayIcon(icon) => UiCallView::SetTrayIcon(icon),
            UiCall::SetTrayMenu(app_state) => UiCallView::SetTrayMenu(app_state@),
            UiCall::ShowNotification { title, body } => UiCallView::ShowNotification {
                title: title@,
                body: body@,
            },
            UiCall::ShowUpdateNotification { title, url } => UiCallView::ShowUpdateNotification {
                title: title@,
                url: url@,
            },
            UiCall::ShowWindow(window) => UiCallView::ShowWindow(window),
        }
    }
}

/// Why an action could not be presented.
#[derive(Debug, PartialEq, Eq)]
pub enum PresentError {
    /// The user interface was to be told who is signed in, and nobody is.
    MissingSession,
    /// The presentation layer failed.
    Integration(IntegrationError),
}

/// The call that performs `action`, where the action is one for the
/// presentation layer; `None` where it is not.
///
/// `session` and `sign_in_pending` are what the sign-in store holds when the
/// action is performed. Telling the user interface who is signed in needs a
/// session. The tray menu is built from the controller's state at that
/// moment.
pub open spec fn call_for(
    state: ControllerView,
    action: ActionView,
    session: Option<Session>,
    sign_in_pending: bool,
) -> Option<Result<UiCallView, PresentError>> {
    match action {
        ActionView::NotifySignedIn => Some(
            match session {
                Some(session) => Ok(UiCallView::NotifySignedIn(session)),
                None => Err(PresentError::MissingSession),
            },
        ),
        ActionView::NotifySignedOut => Some(Ok(UiCallView::NotifySignedOut)),
        ActionView::SetWelcomeWindowVisible(visible) => Some(
            Ok(UiCallView::SetWelcomeWindowVisible { visible, current_session: session }),
        ),
        ActionView::OpenUrl(url) => Some(Ok(UiCallView::OpenUrl(url))),
        ActionView::SetTrayIcon(icon) => Some(Ok(UiCallView::SetTrayIcon(icon))),
        ActionView::RefreshTrayMenu => Some(
            Ok(UiCallView::SetTrayMenu(state.tray_state(session, sign_in_pending))),
        ),
        ActionView::ShowNotification { title, body } => Some(
            Ok(UiCallView::ShowNotification { title, body }),
        ),
        ActionView::ShowUpdateNotification { title, download_url } => Some(
            Ok(UiCallView::ShowUpdateNotification { title, url: download_url }),
        ),
        ActionView::ShowWindow(window) => Some(Ok(UiCallView::ShowWindow(window))),
        _ => None,
    }
}

/// What `call_for` says of a call that was made ready.
pub open spec fn call_view(
    call: Option<Result<UiCall, PresentError>>,
) -> Option<Result<UiCallView, PresentError>> {
    match call {
        Some(Ok(call)) => Some(Ok(call@)),
        Some(Err(error)) => Some(Err(error)),
        None => None,
    }
}

/// A copy of an optional session.
fn duplicate_session(session: Option<&Session>) -> (copy: Option<Session>)
    ensures
        copy == match session {
            Some(session) => Some(*session),
            None => None,
        },
{
    match session {
        Some(session) => Some(
            Session {
                actor_name: session.actor_name.clone(),
                account_slug: session.account_slug.clone(),
            },
        ),
        None => None,
    }
}

/// Makes ready the call that performs `action` on the presentation layer;
/// `None` where the action is not one for the presentation layer.
pub fn ui_call(
    controller: &Controller,
    action: &Action,
    session: Option<&Session>,
    sign_in_pending: bool,
) -> (call: Option<Result<UiCall, PresentError>>)
    ensures
        call_view(call) == call_for(
            controller@,
            action@,
            match session {
                Some(session) => Some(*session),
                None => None,
            },
            sign_in_pending,
        ),
{
    match action {
        Action::NotifySignedIn => match duplicate_session(session) {
            Some(session) => Some(Ok(UiCall::NotifySignedIn(session))),
            None => Some(Err(PresentError::MissingSession)),
        },
        Action::NotifySignedOut => Some(Ok(UiCall::NotifySignedOut)),
        Action::SetWelcomeWindowVisible(visible) => Some(
            Ok(
                UiCall::SetWelcomeWindowVisible {
                    visible: *visible,
                    current_session: duplicate_session(session),
                },
            ),
        ),
        Action::OpenUrl(url) => Some(Ok(UiCall::OpenUrl(url.clone()))),
        Action::SetTrayIcon(icon) => Some(Ok(UiCall::SetTrayIcon(*icon))),
        Action::RefreshTrayMenu => Some(
            Ok(UiCall::SetTrayMenu(controller.refresh_system_tray_menu(session, sign_in_pending))),
        ),
        Action::ShowNotification { title, body } => Some(
            Ok(UiCall::ShowNotification { title: title.clone(), body: body.clone() }),
        ),
        Action::ShowUpdateNotification { title, download_url } => Some(
            Ok(UiCall::ShowUpdateNotification { title: title.clone(), url: download_url.clone() }),
        ),
        Action::ShowWindow(window) => Some(Ok(UiCall::ShowWindow(*window))),
        _ => None,
    }
}

impl UiCall {
    /// Whether the call gives no answer, and so cannot fail: the tray takes
    /// an icon and a menu as they come.
    pub open spec fn is_unanswered(&self) -> bool {
        *self is SetTrayIcon || *self is SetTrayMenu
    }

    /// Makes the call. What comes back is what the presentation layer
    /// answered; a call without an answer has gone well.
    pub fn perform<I: GuiIntegration>(self, integration: &mut I) -> (result: Result<
        (),
        IntegrationError,
    >)
        ensures
            self.is_unanswered() ==> result is Ok,
    {
        match self {
            UiCall::SetWelcomeWindowVisible { visible, current_session } => {
                integration.set_welcome_window_visible(visible, current_session.as_ref())
            },
            UiCall::NotifySignedIn(session) => integration.notify_signed_in(&session),
            UiCall::NotifySignedOut => integration.notify_signed_out(),
            UiCall::OpenUrl(url) => integration.open_url(url.as_str()),
            UiCall::SetTrayIcon(icon) => {
                integration.set_tray_icon(icon);
                Ok(())
            },
            UiCall::SetTrayMenu(app_state) => {
                integration.set_tray_menu(app_state);
                Ok(())
            },
            UiCall::ShowNotification { title, body } => {
                integration.show_notification(title.as_str(), body.as_str())
            },
            UiCall::ShowUpdateNotification { title, url } => {
                integration.show_update_notification(title.as_str(), url.as_str())
            },
            UiCall::ShowWindow(window) => integration.show_window(window),
        }
    }
}

/// Performs `action` on the presentation layer, where it is one for the
/// presentation layer; `None` where it is not, and nothing was done.
///
/// The call that is made is the one that [`ui_call`] makes ready. Without a
/// session, telling the user interface who is signed in calls nothing and
/// gives the error.
pub fn present<I: GuiIntegration>(
    integration: &mut I,
    controller: &Controller,
    action: &Action,
    session: Option<&Session>,
    sign_in_pending: bool,
) -> (result: Option<Result<(), PresentError>>)
    ensures
        result is Some <==> call_for(
            controller@,
            action@,
            match session {
                Some(session) => Some(*session),
                None => None,
            },
            sign_in_pending,
        ) is Some,
        result matches Some(Err(PresentError::MissingSession)) <==> action@ is NotifySignedIn
            && session is None,
        action@ is SetTrayIcon || action@ is RefreshTrayMenu ==> result == Some(
            Ok::<(), PresentError>(()),
        ),
{
    match ui_call(controller, action, session, sign_in_pending) {
        None => None,
        Some(Err(error)) => Some(Err(error)),
        Some(Ok(call)) => match call.perform(integration) {
            Ok(()) => Some(Ok(())),
            Err(error) => Some(Err(PresentError::Integration(error))),
        },
    }
}

} // verus!
