//! What a key press does in normal (navigation) mode.
//!
//! `handle_normal_key` updates the view state and names the action the caller
//! must perform (talk to the daemon, open a link, restart the daemon); the
//! caller performs it and applies what comes back.
use vstd::prelude::*;

use super::state::{
    about_next, panel_next, selected_row, AboutFocus, InputMode, Panel, Screen,
};

verus! {

/// A key, as the terminal reports it.
#[derive(Clone, Copy, Debug, PartialEq, Eq, Structural)]
pub enum Key {
    Char(char),
    Tab,
    BackTab,
    Up,
    Down,
    Home,
    End,
    Enter,
    Esc,
    Backspace,
    Delete,
    /// Any other key.
    Other,
}

/// A key press: the key and whether Control was held.
#[derive(Clone, Copy, Debug, PartialEq, Eq, Structural)]
pub struct KeyPress {
    pub key: Key,
    pub ctrl: bool,
}

/// The navigation part of the TUI state.
#[derive(Clone, Debug, PartialEq, Eq)]
pub struct NavState {
    pub active_screen: Screen,
    pub about_focus: Option<AboutFocus>,
    pub active_panel: Panel,
    pub input_mode: InputMode,
    pub should_quit: bool,
    /// Length of the activity log.
    pub log_len: usize,
    /// Selected activity-log row.
    pub log_selected: Option<usize>,
    /// Number of configured backups.
    pub backup_len: usize,
    /// Selected backup row.
    pub backup_selected: Option<usize>,
}

/// What the caller must do after a key press in normal mode.
#[derive(Clone, Copy, Debug, PartialEq, Eq, Structural)]
pub enum NormalAction {
    /// Nothing more.
    Nothing,
    /// Reload the backups list from the daemon.
    RefreshBackups,
    /// Open the link behind this About element in a browser.
    OpenAboutLink(AboutFocus),
    /// Clear the input buffer (a backup path is about to be typed).
    ClearInput,
    /// Report "No backup selected".
    ReportNoBackupSelected,
    /// Lock, unlock or set up crypto, depending on its state.
    CryptoAction,
    /// Pause or resume syncing.
    PauseAction,
    /// Stop syncing.
    StopAction,
    /// Try to restart the daemon.
    RestartDaemon,
}

/// `k` is the character key `c`.
pub open spec fn is_char_key(k: KeyPress, c: char) -> bool {
    k.key == Key::Char(c)
}

/// Selection after moving up in the activity log.
pub open spec fn log_up(sel: Option<usize>) -> Option<usize> {
    match sel {
        Some(i) => Some(if i > 0 { (i - 1) as usize } else { 0 }),
        None => Some(0),
    }
}

/// Selection after moving down in the activity log.
pub open spec fn log_down(len: usize, sel: Option<usize>) -> Option<usize> {
    if len == 0 {
        sel
    } else {
        match sel {
            Some(i) => Some(if i + 1 < len { (i + 1) as usize } else { (len - 1) as usize }),
            None => Some(0),
        }
    }
}

/// Selection after moving up in the backups list.
pub open spec fn backup_up(len: usize, sel: Option<usize>) -> Option<usize> {
    if len == 0 {
        sel
    } else {
        match sel {
            Some(i) => Some(if i > 0 { (i - 1) as usize } else { 0 }),
            None => Some(0),
        }
    }
}

/// Selection after moving down in the backups list.
pub open spec fn backup_down(len: usize, sel: Option<usize>) -> Option<usize> {
    if len == 0 {
        sel
    } else {
        match sel {
            Some(i) => Some(if i + 1 < len { (i + 1) as usize } else { i }),
            None => Some(0),
        }
    }
}

/// Keys that work on every screen: quit, and the screen tabs `1`..`4`.
pub open spec fn global_key(s: NavState, k: KeyPress) -> Option<(NavState, NormalAction)> {
    if is_char_key(k, 'q') || is_char_key(k, 'Q') || (is_char_key(k, 'c') && k.ctrl) {
        Some((NavState { should_quit: true, ..s }, NormalAction::Nothing))
    } else if is_char_key(k, '1') {
        Some((NavState { active_screen: Screen::Dashboard, about_focus: None, ..s }, NormalAction::Nothing))
    } else if is_char_key(k, '2') {
        Some((NavState { active_screen: Screen::Backups, about_focus: None, ..s }, NormalAction::RefreshBackups))
    } else if is_char_key(k, '3') {
        Some((NavState { active_screen: Screen::Help, about_focus: None, ..s }, NormalAction::Nothing))
    } else if is_char_key(k, '4') {
        Some(
            (
                NavState { active_screen: Screen::About, about_focus: Some(AboutFocus::ClientBuild), ..s },
                NormalAction::Nothing,
            ),
        )
    } else {
        None
    }
}

/// Keys of the About screen: Tab cycles the focus, Enter opens its link.
pub open spec fn about_key(s: NavState, k: KeyPress) -> (NavState, NormalAction) {
    if k.key == Key::Tab {
        let f = match s.about_focus {
            Some(f) => about_next(f),
            None => AboutFocus::ClientBuild,
        };
        (NavState { about_focus: Some(f), ..s }, NormalAction::Nothing)
    } else if k.key == Key::Enter {
        match s.about_focus {
            Some(f) => (s, NormalAction::OpenAboutLink(f)),
            None => (s, NormalAction::Nothing),
        }
    } else {
        (s, NormalAction::Nothing)
    }
}

/// Keys of the Backups screen.
pub open spec fn backups_key(s: NavState, k: KeyPress) -> (NavState, NormalAction) {
    if k.key == Key::Up || is_char_key(k, 'k') {
        (NavState { backup_selected: backup_up(s.backup_len, s.backup_selected), ..s }, NormalAction::Nothing)
    } else if k.key == Key::Down || is_char_key(k, 'j') {
        (NavState { backup_selected: backup_down(s.backup_len, s.backup_selected), ..s }, NormalAction::Nothing)
    } else if is_char_key(k, 'a') || is_char_key(k, 'A') {
        (NavState { input_mode: InputMode::BackupAdd, ..s }, NormalAction::ClearInput)
    } else if is_char_key(k, 'd') || is_char_key(k, 'D') || k.key == Key::Delete {
        if selected_row(s.backup_len, s.backup_selected) is Some {
            (NavState { input_mode: InputMode::BackupRemoveConfirm, ..s }, NormalAction::Nothing)
        } else {
            (s, NormalAction::ReportNoBackupSelected)
        }
    } else if is_char_key(k, 'S') {
        (NavState { input_mode: InputMode::BackupStopDeviceConfirm, ..s }, NormalAction::Nothing)
    } else if is_char_key(k, 'r') || is_char_key(k, 'R') {
        (s, NormalAction::RefreshBackups)
    } else {
        (s, NormalAction::Nothing)
    }
}

/// Keys of the Dashboard.
pub open spec fn dashboard_key(s: NavState, k: KeyPress) -> (NavState, NormalAction) {
    if k.key == Key::Tab || k.key == Key::BackTab {
        (NavState { active_panel: panel_next(s.active_panel), ..s }, NormalAction::Nothing)
    } else if k.key == Key::Up || is_char_key(k, 'k') {
        (NavState { log_selected: log_up(s.log_selected), ..s }, NormalAction::Nothing)
    } else if k.key == Key::Down || is_char_key(k, 'j') {
        (NavState { log_selected: log_down(s.log_len, s.log_selected), ..s }, NormalAction::Nothing)
    } else if k.key == Key::Home || is_char_key(k, 'g') {
        if s.log_len > 0 {
            (NavState { log_selected: Some(0), ..s }, NormalAction::Nothing)
        } else {
            (s, NormalAction::Nothing)
        }
    } else if k.key == Key::End || is_char_key(k, 'G') {
        if s.log_len > 0 {
            (NavState { log_selected: Some((s.log_len - 1) as usize), ..s }, NormalAction::Nothing)
        } else {
            (s, NormalAction::Nothing)
        }
    } else if k.ctrl && is_char_key(k, 'l') {
        (s, NormalAction::CryptoAction)
    } else if k.ctrl && is_char_key(k, 'p') {
        (s, NormalAction::PauseAction)
    } else if k.ctrl && is_char_key(k, 't') {
        (s, NormalAction::StopAction)
    } else if k.ctrl && is_char_key(k, 'u') {
        (NavState { input_mode: InputMode::UnlinkConfirm, ..s }, NormalAction::Nothing)
    } else if k.ctrl && is_char_key(k, 'r') {
        (s, NormalAction::RestartDaemon)
    } else {
        (s, NormalAction::Nothing)
    }
}

/// The effect of a key press in normal mode: global keys first, then the
/// keys of the active screen (the Help screen has none).
pub open spec fn normal_key_step(s: NavState, k: KeyPress) -> (NavState, NormalAction) {
    match global_key(s, k) {
        Some(r) => r,
        None => match s.active_screen {
            Screen::About => about_key(s, k),
            Screen::Backups => backups_key(s, k),
            Screen::Dashboard => dashboard_key(s, k),
            Screen::Help => (s, NormalAction::Nothing),
        },
    }
}

/// Whether the key is the character `c`.
fn char_is(k: KeyPress, c: char) -> (r: bool)
    ensures
        r == is_char_key(k, c),
{
    match k.key {
        Key::Char(d) => d == c,
        _ => false,
    }
}

/// Handle a key press in normal mode: update the view state and return the
/// action the caller must perform.
pub fn handle_normal_key(state: &mut NavState, key: KeyPress) -> (a: NormalAction)
    ensures
        (*final(state), a) == normal_key_step(*old(state), key),
{
    // Global keys (work on any screen)
    if char_is(key, 'q') || char_is(key, 'Q') || (char_is(key, 'c') && key.ctrl) {
        state.should_quit = true;
        return NormalAction::Nothing;
    }
    if char_is(key, '1') {
        state.active_screen = Screen::Dashboard;
        state.about_focus = None;
        return NormalAction::Nothing;
    }
    if char_is(key, '2') {
        state.active_screen = Screen::Backups;
        state.about_focus = None;
        return NormalAction::RefreshBackups;
    }
    if char_is(key, '3') {
        state.active_screen = Screen::Help;
        state.about_focus = None;
        return NormalAction::Nothing;
    }
    if char_is(key, '4') {
        state.active_screen = Screen::About;
        state.about_focus = Some(AboutFocus::ClientBuild);
        return NormalAction::Nothing;
    }
    match state.active_screen {
        Screen::About => {
            if key.key == Key::Tab {
                let f = match state.about_focus {
                    Some(f) => f.next(),
                    None => AboutFocus::ClientBuild,
                };
                state.about_focus = Some(f);
                NormalAction::Nothing
            } else if key.key == Key::Enter {
                match state.about_focus {
                    Some(f) => NormalAction::OpenAboutLink(f),
                    None => NormalAction::Nothing,
                }
            } else {
                NormalAction::Nothing
            }
        },
        Screen::Backups => {
            let len = state.backup_len;
            if key.key == Key::Up || char_is(key, 'k') {
                if len > 0 {
                    state.backup_selected = Some(
                        match state.backup_selected {
                            Some(i) => if i > 0 {
                                i - 1
                            } else {
                                0
                            },
                            None => 0,
                        },
                    );
                }
                NormalAction::Nothing
            } else if key.key == Key::Down || char_is(key, 'j') {
                if len > 0 {
                    state.backup_selected = Some(
                        match state.backup_selected {
                            Some(i) => if i < len - 1 {
                                i + 1
                            } else {
                                i
                            },
                            None => 0,
                        },
                    );
                }
                NormalAction::Nothing
            } else if char_is(key, 'a') || char_is(key, 'A') {
                state.input_mode = InputMode::BackupAdd;
                NormalAction::ClearInput
            } else if char_is(key, 'd') || char_is(key, 'D') || key.key == Key::Delete {
                let has_selection = match state.backup_selected {
                    Some(i) => i < len,
                    None => false,
                };
                if has_selection {
                    state.input_mode = InputMode::BackupRemoveConfirm;
                    NormalAction::Nothing
                } else {
                    NormalAction::ReportNoBackupSelected
                }
            } else if char_is(key, 'S') {
                state.input_mode = InputMode::BackupStopDeviceConfirm;
                NormalAction::Nothing
            } else if char_is(key, 'r') || char_is(key, 'R') {
                NormalAction::RefreshBackups
            } else {
                NormalAction::Nothing
            }
        },
        Screen::Dashboard => {
            let len = state.log_len;
            if key.key == Key::Tab || key.key == Key::BackTab {
                state.active_panel = state.active_panel.next();
                NormalAction::Nothing
            } else if key.key == Key::Up || char_is(key, 'k') {
                state.log_selected = Some(
                    match state.log_selected {
                        Some(i) => if i > 0 {
                            i - 1
                        } else {
                            0
                        },
                        None => 0,
                    },
                );
                NormalAction::Nothing
            } else if key.key == Key::Down || char_is(key, 'j') {
                if len > 0 {
                    state.log_selected = Some(
                        match state.log_selected {
                            Some(i) => if i < len - 1 {
                                i + 1
                            } else {
                                len - 1
                            },
                            None => 0,
                        },
                    );
                }
                NormalAction::Nothing
            } else if key.key == Key::Home || char_is(key, 'g') {
                if len > 0 {
                    state.log_selected = Some(0);
                }
                NormalAction::Nothing
            } else if key.key == Key::End || char_is(key, 'G') {
                if len > 0 {
                    state.log_selected = Some(len - 1);
                }
                NormalAction::Nothing
            } else if key.ctrl && char_is(key, 'l') {
                NormalAction::CryptoAction
            } else if key.ctrl && char_is(key, 'p') {
                NormalAction::PauseAction
            } else if key.ctrl && char_is(key, 't') {
                NormalAction::StopAction
            } else if key.ctrl && char_is(key, 'u') {
                state.input_mode = InputMode::UnlinkConfirm;
                NormalAction::Nothing
            } else if key.ctrl && char_is(key, 'r') {
                NormalAction::RestartDaemon
            } else {
                NormalAction::Nothing
            }
        },
        Screen::Help => NormalAction::Nothing,
    }
}

/// A selection that is a row of the list, or no selection.
pub open spec fn selection_in_range(len: usize, sel: Option<usize>) -> bool {
    match sel {
        Some(i) => i < len,
        None => true,
    }
}

/// No key press moves the backups selection off the list.
pub proof fn law_backup_selection_stays_in_range(s: NavState, k: KeyPress)
    requires
        selection_in_range(s.backup_len, s.backup_selected),
    ensures
        selection_in_range(normal_key_step(s, k).0.backup_len, normal_key_step(s, k).0.backup_selected),
{
}

/// `q`, `Q` and Ctrl+C quit from every screen.
pub proof fn law_quit_keys_quit(s: NavState, k: KeyPress)
    requires
        is_char_key(k, 'q') || is_char_key(k, 'Q') || (is_char_key(k, 'c') && k.ctrl),
    ensures
        normal_key_step(s, k).0.should_quit,
        normal_key_step(s, k).1 == NormalAction::Nothing,
{
}

/// On every screen the keys `1` to `4` (with or without Ctrl) select the
/// Dashboard, Backups, Help and About tabs, each its own screen; selecting
/// Backups also reloads its list, selecting About focuses the client build,
/// and nothing else of the state changes.
pub proof fn law_tab_keys_select_screens(s: NavState, k: KeyPress)
    ensures
        is_char_key(k, '1') ==> normal_key_step(s, k) == (
            (NavState { active_screen: Screen::Dashboard, about_focus: None, ..s }),
            NormalAction::Nothing,
        ),
        is_char_key(k, '2') ==> normal_key_step(s, k) == (
            (NavState { active_screen: Screen::Backups, about_focus: None, ..s }),
            NormalAction::RefreshBackups,
        ),
        is_char_key(k, '3') ==> normal_key_step(s, k) == (
            (NavState { active_screen: Screen::Help, about_focus: None, ..s }),
            NormalAction::Nothing,
        ),
        is_char_key(k, '4') ==> normal_key_step(s, k) == (
            (NavState { active_screen: Screen::About, about_focus: Some(AboutFocus::ClientBuild), ..s }),
            NormalAction::Nothing,
        ),
{
}

} // verus!
