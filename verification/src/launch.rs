//! What the process decides before and after the event loop runs: what the
//! command line asks for, whether the application may start, and what the
//! user is told where it ended badly.

use crate::request::Failure;
use crate::settings::fix_log_filter;
use crate::log_filter::log_filter_usable;
use crate::settings::with_checked_log_filter;
use crate::settings::AdvancedSettings;
use vstd::prelude::*;

verus! {

/// The deep link that `open-deep-link` hands to the running instance.
#[derive(Debug, PartialEq, Eq)]
pub struct DeepLink {
    pub url: String,
}

/// The argument of `debug set-autostart`.
#[derive(Clone, Copy, Debug, PartialEq, Eq, Structural)]
pub struct SetAutostartArgs {
    pub enabled: bool,
}

/// The subcommands of `debug`.
#[derive(Clone, Copy, Debug, PartialEq, Eq, Structural)]
pub enum DebugCommand {
    /// `debug replicate-issue`
    Replicate6791,
    /// `debug set-autostart <bool>`
    SetAutostart(SetAutostartArgs),
}

/// The subcommands.
#[derive(Debug, PartialEq, Eq)]
pub enum Cmd {
    /// `debug`
    Debug { command: DebugCommand },
    /// `elevated`: run the application without asking how it was started.
    Elevated,
    /// `open-deep-link <url>`
    OpenDeepLink(DeepLink),
    /// `smoke-test`
    SmokeTest,
}

/// The command line.
#[derive(Debug, PartialEq, Eq)]
pub struct Cli {
    /// Check for updates often, and pretend that this version is old.
    pub debug_update_check: bool,
    pub command: Option<Cmd>,
    /// Crash the controller, to test the error handling.
    pub crash: bool,
    /// Fail the controller, to test the error handling.
    pub error: bool,
    /// Panic in the controller, to test the error handling.
    pub panic: bool,
    /// Quit gracefully after this many seconds.
    pub quit_after: Option<u64>,
    /// Slow down input and output.
    pub inject_faults: bool,
    /// Show a made-up notification of a release.
    pub test_update_notification: bool,
    /// Leave deep links alone, for tests without a desktop.
    pub no_deep_links: bool,
    /// Do not ask how the process was started, for tests without a desktop.
    pub no_elevation_check: bool,
}

/// How the application is to run.
#[derive(Clone, Copy, Debug, PartialEq, Eq, Structural)]
pub struct RunConfig {
    pub inject_faults: bool,
    pub debug_update_check: bool,
    pub smoke_test: bool,
    pub no_deep_links: bool,
    pub quit_after: Option<u64>,
    pub fail_with: Option<Failure>,
}

/// What the process does for a command line.
#[derive(Debug, PartialEq, Eq)]
pub enum Launch {
    /// Run the application, after asking how the process was started where
    /// `check_elevation` is set.
    Gui { check_elevation: bool },
    /// Run the application as a smoke test. However it ends, the user is
    /// shown nothing.
    SmokeTest,
    /// Replicate the known issue of the sign-in store, and exit.
    ReplicateIssue,
    /// Switch the start at login on or off, and exit.
    SetAutostart(bool),
    /// Hand this URL to the running instance, and exit.
    OpenDeepLink(String),
}

impl Cli {
    /// The failure that the command line asks for: of the three flags the
    /// first that is set, in the order crash, error, panic.
    pub open spec fn spec_fail_on_purpose(&self) -> Option<Failure> {
        if self.crash {
            Some(Failure::Crash)
        } else if self.error {
            Some(Failure::Error)
        } else if self.panic {
            Some(Failure::Panic)
        } else {
            None
        }
    }

    /// The failure that the command line asks for.
    #[verifier::when_used_as_spec(spec_fail_on_purpose)]
    pub fn fail_on_purpose(&self) -> (failure: Option<Failure>)
        ensures
            failure == self.spec_fail_on_purpose(),
    {
        if self.crash {
            Some(Failure::Crash)
        } else if self.error {
            Some(Failure::Error)
        } else if self.panic {
            Some(Failure::Panic)
        } else {
            None
        }
    }

    /// Whether to ask how the process was started.
    pub open spec fn spec_check_elevation(&self) -> bool {
        !self.no_elevation_check
    }

    /// Whether to ask how the process was started.
    #[verifier::when_used_as_spec(spec_check_elevation)]
    pub fn check_elevation(&self) -> (check: bool)
        ensures
            check == !self.no_elevation_check,
    {
        !self.no_elevation_check
    }

    /// How the application is to run.
    pub open spec fn spec_run_config(&self) -> RunConfig {
        RunConfig {
            inject_faults: self.inject_faults,
            debug_update_check: self.debug_update_check,
            smoke_test: self.command == Some(Cmd::SmokeTest),
            no_deep_links: self.no_deep_links,
            quit_after: self.quit_after,
            fail_with: self.spec_fail_on_purpose(),
        }
    }

    /// How the application is to run.
    #[verifier::when_used_as_spec(spec_run_config)]
    pub fn run_config(&self) -> (config: RunConfig)
        ensures
            config == self.spec_run_config(),
    {
        let smoke_test = match &self.command {
            Some(Cmd::SmokeTest) => true,
            _ => false,
        };
        RunConfig {
            inject_faults: self.inject_faults,
            debug_update_check: self.debug_update_check,
            smoke_test,
            no_deep_links: self.no_deep_links,
            quit_after: self.quit_after,
            fail_with: self.fail_on_purpose(),
        }
    }

    /// What the process does for this command line.
    pub open spec fn spec_launch(self) -> Launch {
        match self.command {
            None => Launch::Gui { check_elevation: !self.no_elevation_check },
            Some(Cmd::Elevated) => Launch::Gui { check_elevation: false },
            Some(Cmd::Debug { command: DebugCommand::Replicate6791 }) => Launch::ReplicateIssue,
            Some(
                Cmd::Debug { command: DebugCommand::SetAutostart(SetAutostartArgs { enabled }) },
            ) => Launch::SetAutostart(enabled),
            Some(Cmd::OpenDeepLink(deep_link)) => Launch::OpenDeepLink(deep_link.url),
            Some(Cmd::SmokeTest) => Launch::SmokeTest,
        }
    }

    /// What the process does for this command line.
    pub fn launch(self) -> (launch: Launch)
        ensures
            launch == self.spec_launch(),
    {
        let check_elevation = self.check_elevation();
        match self.command {
            None => Launch::Gui { check_elevation },
            Some(Cmd::Elevated) => Launch::Gui { check_elevation: false },
            Some(Cmd::Debug { command: DebugCommand::Replicate6791 }) => Launch::ReplicateIssue,
            Some(
                Cmd::Debug { command: DebugCommand::SetAutostart(SetAutostartArgs { enabled }) },
            ) => Launch::SetAutostart(enabled),
            Some(Cmd::OpenDeepLink(deep_link)) => Launch::OpenDeepLink(deep_link.url),
            Some(Cmd::SmokeTest) => Launch::SmokeTest,
        }
    }
}

/// What is settled before anything runs.
#[derive(Clone, Copy, Debug, PartialEq, Eq, Structural)]
pub struct Prepared {
    /// How the application is to run.
    pub config: RunConfig,
    /// Whether the log filter was replaced by the default. The user is told
    /// so in a dialog.
    pub log_filter_replaced: bool,
}

/// Settles how the application is to run, and mends the log filter of
/// `settings`. A smoke test keeps its filter as it is: it could show no
/// dialog.
pub fn prepare(cli: &Cli, settings: &mut AdvancedSettings) -> (prepared: Prepared)
    ensures
        prepared.config == cli.spec_run_config(),
        prepared.log_filter_replaced == (!cli.spec_run_config().smoke_test && !log_filter_usable(
            old(settings)@.log_filter,
        )),
        final(settings)@ == with_checked_log_filter(
            old(settings)@,
            !prepared.log_filter_replaced,
        ),
{
    let config = cli.run_config();
    let log_filter_replaced = if !config.smoke_test {
        fix_log_filter(settings)
    } else {
        false
    };
    Prepared { config, log_filter_replaced }
}

/// How the process was started, as far as could be found out.
#[derive(Debug, PartialEq, Eq)]
pub enum Elevation {
    /// By a normal user.
    Normal,
    /// With the rights of an administrator.
    Elevated,
    /// It could not be found out; the words are for the user.
    Unknown { user_friendly_msg: String },
}

/// Why the application does not start.
#[derive(Debug, PartialEq, Eq)]
pub enum Refusal {
    /// It runs with the rights of an administrator, and should not.
    Elevated,
    /// How it was started could not be found out. The user is shown the
    /// words in a dialog.
    ElevationUnknown { user_friendly_msg: String },
}

/// Whether the application may start: only for a normal user.
pub fn check_elevation(elevation: Elevation) -> (result: Result<(), Refusal>)
    ensures
        result == match elevation {
            Elevation::Normal => Ok::<(), Refusal>(()),
            Elevation::Elevated => Err(Refusal::Elevated),
            Elevation::Unknown { user_friendly_msg } => Err(
                Refusal::ElevationUnknown { user_friendly_msg },
            ),
        },
{
    match elevation {
        Elevation::Normal => Ok(()),
        Elevation::Elevated => Err(Refusal::Elevated),
        Elevation::Unknown { user_friendly_msg } => Err(
            Refusal::ElevationUnknown { user_friendly_msg },
        ),
    }
}

/// Where a failure of the application started.
#[derive(Clone, Copy, Debug, PartialEq, Eq, Structural)]
pub enum RootCause {
    /// Another instance runs already, and took what this one had to say.
    AlreadyRunning,
    /// Another instance runs already, and did not answer.
    NewInstanceHandshakeFailed,
    /// The tunnel service was not found.
    ServiceNotFound,
    /// The tunnel service was found, and the handshake with it failed.
    FailedToReceiveHello,
    /// Anything else.
    Other,
}

/// A failure of the application, as far as it decides what the user is
/// told.
#[derive(Clone, Copy, Debug, PartialEq, Eq, Structural)]
pub struct RunFailure {
    /// Whether anything in the chain of errors says that the web view could
    /// not be made.
    pub webview_missing: bool,
    /// Where the chain of errors started.
    pub root_cause: RootCause,
}

/// What the user is told to do about a failure.
#[derive(Clone, Copy, Debug, PartialEq, Eq, Structural)]
pub enum Remedy {
    InstallWebView,
    StopOtherInstance,
    StartService,
    WaitForService,
    Restart,
}

/// How the process exits.
#[derive(Clone, Copy, Debug, PartialEq, Eq, Structural)]
pub enum Exit {
    Success,
    Failure,
}

/// What follows a failure of the application.
#[derive(Clone, Copy, Debug, PartialEq, Eq, Structural)]
pub struct Report {
    /// What the user is told in a dialog, if anything.
    pub remedy: Option<Remedy>,
    /// How the process exits.
    pub exit: Exit,
}

impl RunFailure {
    /// What follows this failure. A missing web view comes before
    /// everything else. That another instance runs and answered is no
    /// failure at all; every other cause shows a dialog and fails the
    /// process.
    pub open spec fn spec_report(self) -> Report {
        if self.webview_missing {
            Report { remedy: Some(Remedy::InstallWebView), exit: Exit::Failure }
        } else {
            match self.root_cause {
                RootCause::AlreadyRunning => Report { remedy: None, exit: Exit::Success },
                RootCause::NewInstanceHandshakeFailed => Report {
                    remedy: Some(Remedy::StopOtherInstance),
                    exit: Exit::Failure,
                },
                RootCause::ServiceNotFound => Report {
                    remedy: Some(Remedy::StartService),
                    exit: Exit::Failure,
                },
                RootCause::FailedToReceiveHello => Report {
                    remedy: Some(Remedy::WaitForService),
                    exit: Exit::Failure,
                },
                RootCause::Other => Report { remedy: Some(Remedy::Restart), exit: Exit::Failure },
            }
        }
    }

    /// What follows this failure.
    #[verifier::when_used_as_spec(spec_report)]
    pub fn report(self) -> (report: Report)
        ensures
            report == self.spec_report(),
    {
        if self.webview_missing {
            return Report { remedy: Some(Remedy::InstallWebView), exit: Exit::Failure };
        }
        match self.root_cause {
            RootCause::AlreadyRunning => Report { remedy: None, exit: Exit::Success },
            RootCause::NewInstanceHandshakeFailed => Report {
                remedy: Some(Remedy::StopOtherInstance),
                exit: Exit::Failure,
            },
            RootCause::ServiceNotFound => Report {
                remedy: Some(Remedy::StartService),
                exit: Exit::Failure,
            },
            RootCause::FailedToReceiveHello => Report {
                remedy: Some(Remedy::WaitForService),
                exit: Exit::Failure,
            },
            RootCause::Other => Report { remedy: Some(Remedy::Restart), exit: Exit::Failure },
        }
    }
}

impl Remedy {
    /// The words of the dialog.
    pub open spec fn spec_text(self) -> Seq<char> {
        match self {
            Remedy::InstallWebView => "Firezone cannot start because WebView2 is not installed. Follow the instructions at <https://www.firezone.dev/kb/client-apps/windows-gui-client>."@,
            Remedy::StopOtherInstance => "Firezone is already running but not responding. Please force-stop it first."@,
            Remedy::StartService => "Couldn't find Firezone Tunnel service. Is the service running?"@,
            Remedy::WaitForService => "The Firezone Tunnel service is not responding. If the issue persists, contact your administrator."@,
            Remedy::Restart => "An unexpected error occurred. Please try restarting Firezone. If the issue persists, contact your administrator."@,
        }
    }

    /// The words of the dialog.
    pub fn text(self) -> (text: &'static str)
        ensures
            text@ == self.spec_text(),
    {
        match self {
            Remedy::InstallWebView => "Firezone cannot start because WebView2 is not installed. Follow the instructions at <https://www.firezone.dev/kb/client-apps/windows-gui-client>.",
            Remedy::StopOtherInstance => "Firezone is already running but not responding. Please force-stop it first.",
            Remedy::StartService => "Couldn't find Firezone Tunnel service. Is the service running?",
            Remedy::WaitForService => "The Firezone Tunnel service is not responding. If the issue persists, contact your administrator.",
            Remedy::Restart => "An unexpected error occurred. Please try restarting Firezone. If the issue persists, contact your administrator.",
        }
    }
}

} // verus!
