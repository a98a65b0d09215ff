//! The tray: whether closing the window hides it, what the icon shows for a
//! call state, and what the menu entries do.

use crate::text::str_eq;
use vstd::prelude::*;

verus! {

/// The tray settings of the running application.
pub struct TraySettings {
    minimize_to_tray: bool,
}

impl View for TraySettings {
    type V = bool;

    closed spec fn view(&self) -> bool {
        self.minimize_to_tray
    }
}

impl TraySettings {
    /// The settings at start-up: closing the window hides it in the tray.
    pub fn new() -> (settings: Self)
        ensures
            settings@ == true,
    {
        TraySettings { minimize_to_tray: true }
    }
}

/// Whether closing the window hides it in the tray.
pub fn should_minimize_to_tray(settings: &TraySettings) -> (minimize: bool)
    ensures
        minimize == settings@,
{
    settings.minimize_to_tray
}

/// Sets whether closing the window hides it in the tray.
pub fn set_minimize_to_tray(settings: &mut TraySettings, enabled: bool)
    ensures
        final(settings)@ == enabled,
{
    settings.minimize_to_tray = enabled;
}

/// What the tray icon shows.
#[derive(Clone, Copy, Debug, PartialEq, Eq, Structural)]
pub enum TrayIcon {
    /// The application's own window icon.
    Default,
    /// A filled circle of the given colour, with or without a glow around it.
    Circle { red: u8, green: u8, blue: u8, glow: bool },
}

/// The call states that the tray tells apart.
#[derive(Clone, Copy, Debug, PartialEq, Eq, Structural)]
pub enum CallState {
    Idle,
    InCall,
    Speaking,
}

/// Icon and tooltip of the tray.
#[derive(Clone, Copy, Debug, PartialEq, Eq)]
pub struct TrayAppearance {
    pub icon: TrayIcon,
    pub tooltip: &'static str,
}

/// The call state that a state name stands for; every unknown name is idle.
pub open spec fn call_state_of(state: Seq<char>) -> CallState {
    if state == "in_call"@ {
        CallState::InCall
    } else if state == "speaking"@ {
        CallState::Speaking
    } else {
        CallState::Idle
    }
}

/// The icon for a call state.
pub open spec fn icon_of(state: CallState) -> TrayIcon {
    match state {
        CallState::InCall => TrayIcon::Circle { red: 48, green: 209, blue: 88, glow: false },
        CallState::Speaking => TrayIcon::Circle { red: 100, green: 255, blue: 130, glow: true },
        CallState::Idle => TrayIcon::Default,
    }
}

/// The tooltip for a call state.
pub open spec fn tooltip_of(state: CallState) -> Seq<char> {
    match state {
        CallState::InCall => "ZeusIX — In Call"@,
        CallState::Speaking => "ZeusIX — Speaking"@,
        CallState::Idle => "ZeusIX"@,
    }
}

/// The call state that a state name stands for.
pub fn parse_call_state(state: &str) -> (call: CallState)
    ensures
        call == call_state_of(state@),
{
    if str_eq(state, "in_call") {
        CallState::InCall
    } else if str_eq(state, "speaking") {
        CallState::Speaking
    } else {
        CallState::Idle
    }
}

/// What the tray shows for the state named `state`.
pub fn update_tray_icon(state: String) -> (appearance: TrayAppearance)
    ensures
        appearance.icon == icon_of(call_state_of(state@)),
        appearance.tooltip@ == tooltip_of(call_state_of(state@)),
{
    match parse_call_state(state.as_str()) {
        CallState::InCall => TrayAppearance {
            icon: TrayIcon::Circle { red: 48, green: 209, blue: 88, glow: false },
            tooltip: "ZeusIX — In Call",
        },
        CallState::Speaking => TrayAppearance {
            icon: TrayIcon::Circle { red: 100, green: 255, blue: 130, glow: true },
            tooltip: "ZeusIX — Speaking",
        },
        CallState::Idle => TrayAppearance { icon: TrayIcon::Default, tooltip: "ZeusIX" },
    }
}

/// What a request to close the main window leads to.
#[derive(Clone, Copy, Debug, PartialEq, Eq, Structural)]
pub enum CloseAction {
    /// The close is prevented and the window hidden.
    HideToTray,
    /// The window closes.
    Close,
}

/// What a request to close the main window leads to under `settings`.
pub fn close_action(settings: &TraySettings) -> (action: CloseAction)
    ensures
        action == if settings@ {
            CloseAction::HideToTray
        } else {
            CloseAction::Close
        },
{
    if should_minimize_to_tray(settings) {
        CloseAction::HideToTray
    } else {
        CloseAction::Close
    }
}

/// What a tray menu entry does.
#[derive(Clone, Copy, Debug, PartialEq, Eq, Structural)]
pub enum MenuAction {
    /// Show the main window and ask it to look for updates.
    CheckForUpdates,
    /// Leave the application.
    Quit,
    /// Not an entry of the menu.
    Ignore,
}

/// The action of the menu entry with the given identifier.
pub open spec fn menu_action_of(id: Seq<char>) -> MenuAction {
    if id == "check_updates"@ {
        MenuAction::CheckForUpdates
    } else if id == "quit"@ {
        MenuAction::Quit
    } else {
        MenuAction::Ignore
    }
}

/// The action of the menu entry with the given identifier.
pub fn menu_action(id: &str) -> (action: MenuAction)
    ensures
        action == menu_action_of(id@),
{
    if str_eq(id, "check_updates") {
        MenuAction::CheckForUpdates
    } else if str_eq(id, "quit") {
        MenuAction::Quit
    } else {
        MenuAction::Ignore
    }
}

} // verus!
