//! The desktop shell's decisions: what a window event does, what happens at
//! startup, and the texts shown around updates and failed saves.

use vstd::prelude::*;
use crate::config::{url_parses, Config};

verus! {

/// Seconds to wait before reconnecting to Home Assistant after the
/// connection ends.
pub const RECONNECT_DELAY_SECS: u64 = 10;

/// The window events the shell reacts to.
pub enum WindowEvent {
    /// The user asked to close the window.
    CloseRequested,
    /// The window gained (`true`) or lost (`false`) focus.
    Focused(bool),
    /// Any other event.
    Other,
}

/// What the shell does about a window event.
pub enum WindowAction {
    /// Nothing: the event takes its default course.
    Nothing,
    /// Keep the window from closing and hide it instead.
    HideInsteadOfClose,
    /// Quit the application with the given exit code.
    Exit(i32),
    /// Hide the window.
    Hide,
}

/// The action for an event on the window labelled `label` (`is_main` when
/// it is the main window), given whether a server URL is configured. The
/// main window only hides while a server is configured; closing it without
/// one quits.
pub open spec fn window_action_of(is_main: bool, event: WindowEvent, has_url: bool) -> WindowAction {
    match event {
        WindowEvent::CloseRequested => if !is_main {
            WindowAction::Nothing
        } else if has_url {
            WindowAction::HideInsteadOfClose
        } else {
            WindowAction::Exit(0)
        },
        WindowEvent::Focused(focused) => if !focused && has_url && is_main {
            WindowAction::Hide
        } else {
            WindowAction::Nothing
        },
        WindowEvent::Other => WindowAction::Nothing,
    }
}

/// The label of the main window.
pub open spec fn main_label() -> Seq<char> {
    "main"@
}

/// What to do about an event on the window labelled `label`.
pub fn window_action(label: &str, event: &WindowEvent, config: &Config) -> (a: WindowAction)
    ensures
        a == window_action_of(label@ == main_label(), *event, config@.url is Some),
{
    let is_main = String::from_str(label) == String::from_str("main");
    let has_url = config.has_url();
    match event {
        WindowEvent::CloseRequested => {
            if !is_main {
                WindowAction::Nothing
            } else if has_url {
                WindowAction::HideInsteadOfClose
            } else {
                WindowAction::Exit(0)
            }
        },
        WindowEvent::Focused(focused) => {
            if !*focused && has_url && is_main {
                WindowAction::Hide
            } else {
                WindowAction::Nothing
            }
        },
        WindowEvent::Other => WindowAction::Nothing,
    }
}

/// What the application does once the configuration is loaded at startup.
pub struct StartupPlan {
    /// Show the configuration window (no server URL yet).
    pub show_config_window: bool,
    /// The page the main window opens.
    pub navigate_to: Option<String>,
    /// The server URL and token to listen to Home Assistant with.
    pub listen: Option<(String, String)>,
    /// Look for an update in the background.
    pub check_for_updates: bool,
}

/// The startup plan for a loaded configuration.
pub fn startup_plan(config: &Config) -> (p: StartupPlan)
    ensures
        p.show_config_window == (config@.url is None),
        p.navigate_to is Some <==> (config@.url matches Some(u) && url_parses(u)),
        p.navigate_to matches Some(u) ==> config@.url == Some(u@),
        p.listen is Some <==> config@.is_configured(),
        p.listen matches Some(c) ==> config@.url == Some(c.0@) && config@.token == Some(c.1@),
        p.check_for_updates == config@.auto_update,
{
    StartupPlan {
        show_config_window: !config.has_url(),
        navigate_to: config.navigation_url(),
        listen: config.credentials(),
        check_for_updates: config.auto_update_on(),
    }
}

/// The outcome of an update check asked for by the user.
pub enum UpdateCheck {
    /// An update to the given version exists.
    Available(String),
    /// The running version is the latest.
    UpToDate,
    /// This platform does not update itself.
    Unsupported,
}

/// The text reporting an update check to the user.
pub fn update_status_message(check: &UpdateCheck) -> (s: String)
    ensures
        match check {
            UpdateCheck::Available(v) => s@ == "Update available: "@ + v@,
            UpdateCheck::UpToDate => s@ == "You are on the latest version."@,
            UpdateCheck::Unsupported => s@ == "Updates not supported on this platform."@,
        },
{
    match check {
        UpdateCheck::Available(v) => String::from_str("Update available: ").concat(v.as_str()),
        UpdateCheck::UpToDate => String::from_str("You are on the latest version."),
        UpdateCheck::Unsupported => String::from_str("Updates not supported on this platform."),
    }
}

/// The text reporting that saving the server URL failed, with the cause.
pub fn url_save_error_message(cause: &str) -> (s: String)
    ensures
        s@ == "Unable to update config: \n"@ + cause@,
{
    String::from_str("Unable to update config: \n").concat(cause)
}

} // verus!
