//! What the system tray reports to the controller, and what the controller
//! asks it to show.

use crate::resource::Resource;
use crate::resource::ResourceId;
use crate::updates::Release;
use std::collections::HashSet;
use vstd::prelude::*;

verus! {

/// A window that the tray menu can open.
#[derive(Clone, Copy, Debug, PartialEq, Eq, Structural)]
pub enum Window {
    About,
    Settings,
}

/// A click in the tray menu.
#[derive(Debug, PartialEq, Eq)]
pub enum Event {
    /// Pin a resource.
    AddFavorite(ResourceId),
    /// Open the admin portal in the browser.
    AdminPortal,
    /// Give up the sign-in that is under way.
    CancelSignIn,
    /// Copy this text to the clipboard.
    Copy(String),
    /// Switch the internet resource off.
    DisableInternetResource,
    /// Switch the internet resource on.
    EnableInternetResource,
    /// Quit the application.
    Quit,
    /// Unpin a resource.
    RemoveFavorite(ResourceId),
    /// Try the portal again now.
    RetryPortalConnection,
    /// Open a window.
    ShowWindow(Window),
    /// Start signing in.
    SignIn,
    /// Sign out.
    SignOut,
    /// Open this URL in the browser.
    Url(String),
}

/// The picture of a tray icon.
#[derive(Clone, Copy, Debug, PartialEq, Eq, Structural)]
pub enum IconBase {
    Busy,
    SignedIn,
    SignedOut,
}

/// A tray icon: a picture, and whether it carries the mark for an update.
#[derive(Clone, Copy, Debug, PartialEq, Eq, Structural)]
pub struct Icon {
    pub base: IconBase,
    pub update_ready: bool,
}

/// The icon that is shown while the tunnel service shuts down: signed out,
/// without the update mark.
pub open spec fn spec_icon_terminating() -> Icon {
    Icon { base: IconBase::SignedOut, update_ready: false }
}

/// The icon that is shown while the tunnel service shuts down.
#[verifier::when_used_as_spec(spec_icon_terminating)]
pub fn icon_terminating() -> (icon: Icon)
    ensures
        icon == spec_icon_terminating(),
{
    Icon { base: IconBase::SignedOut, update_ready: false }
}

/// What the menu of a signed-in user is built from.
#[derive(Debug, PartialEq, Eq)]
pub struct SignedIn {
    pub actor_name: String,
    pub favorite_resources: HashSet<u128>,
    pub internet_resource_enabled: Option<bool>,
    pub resources: Vec<Resource>,
}

/// The state of the connection, as the tray menu shows it.
#[derive(Debug, PartialEq, Eq)]
pub enum ConnlibState {
    Quitting,
    RetryingConnection,
    SignedIn(SignedIn),
    SignedOut,
    WaitingForBrowser,
    WaitingForPortal,
    WaitingForTunnel,
}

/// Everything that the tray menu is built from.
#[derive(Debug, PartialEq, Eq)]
pub struct AppState {
    pub connlib: ConnlibState,
    pub release: Option<Release>,
}

/// What a [`ConnlibState`] says.
#[verifier::ext_equal]
pub enum ConnlibStateView {
    Quitting,
    RetryingConnection,
    SignedIn {
        actor_name: Seq<char>,
        favorite_resources: Set<u128>,
        internet_resource_enabled: Option<bool>,
        resources: Seq<Resource>,
    },
    SignedOut,
    WaitingForBrowser,
    WaitingForPortal,
    WaitingForTunnel,
}

impl View for ConnlibState {
    type V = ConnlibStateView;

    open spec fn view(&self) -> ConnlibStateView {
        match *self {
            ConnlibState::Quitting => ConnlibStateView::Quitting,
            ConnlibState::RetryingConnection => ConnlibStateView::RetryingConnection,
            ConnlibState::SignedIn(signed_in) => ConnlibStateView::SignedIn {
                actor_name: signed_in.actor_name@,
                favorite_resources: signed_in.favorite_resources@,
                internet_resource_enabled: signed_in.internet_resource_enabled,
                resources: signed_in.resources@,
            },
            ConnlibState::SignedOut => ConnlibStateView::SignedOut,
            ConnlibState::WaitingForBrowser => ConnlibStateView::WaitingForBrowser,
            ConnlibState::WaitingForPortal => ConnlibStateView::WaitingForPortal,
            ConnlibState::WaitingForTunnel => ConnlibStateView::WaitingForTunnel,
        }
    }
}

/// What an [`AppState`] says.
#[verifier::ext_equal]
pub struct AppStateView {
    pub connlib: ConnlibStateView,
    pub release: Option<Release>,
}

impl View for AppState {
    type V = AppStateView;

    open spec fn view(&self) -> AppStateView {
        AppStateView { connlib: self.connlib@, release: self.release }
    }
}

} // verus!
