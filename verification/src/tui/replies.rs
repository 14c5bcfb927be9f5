//! How the TUI reacts to what the daemon tells it: the status message after
//! an action, and the switch to and from the login screens as the login
//! state changes.
use vstd::prelude::*;

use super::keys::NavState;
use super::state::{InputMode, StatusMessageKind};
use crate::daemon::ipc::DaemonResponse;
use crate::text::string_from;

verus! {

/// The status message shown after a fire-and-report action got `reply`
/// (`None`: the daemon could not be reached, which is shown elsewhere).
pub open spec fn action_message_spec(reply: Option<DaemonResponse>, success_default: Seq<char>) -> Option<(Seq<char>, StatusMessageKind)> {
    match reply {
        None => None,
        Some(DaemonResponse::Success) => Some((success_default, StatusMessageKind::Success)),
        Some(DaemonResponse::OkWithMessage(m)) => Some((m@, StatusMessageKind::Success)),
        Some(DaemonResponse::Error(e)) => Some((e@, StatusMessageKind::Error)),
        Some(_) => Some(("Unexpected daemon response"@, StatusMessageKind::Error)),
    }
}

/// The status message for the reply to an action whose plain success reads
/// `success_default`.
pub fn action_message(reply: Option<&DaemonResponse>, success_default: &str) -> (r: Option<(String, StatusMessageKind)>)
    ensures
        match action_message_spec(
            match reply {
                Some(x) => Some(*x),
                None => None,
            },
            success_default@,
        ) {
            Some((m, k)) => (r matches Some((s, kind)) && s@ == m && kind == k),
            None => r is None,
        },
{
    match reply {
        None => None,
        Some(DaemonResponse::Success) => Some((string_from(success_default), StatusMessageKind::Success)),
        Some(DaemonResponse::OkWithMessage(m)) => Some((m.clone(), StatusMessageKind::Success)),
        Some(DaemonResponse::Error(e)) => Some((e.clone(), StatusMessageKind::Error)),
        Some(_) => Some((string_from("Unexpected daemon response"), StatusMessageKind::Error)),
    }
}

/// What a new status snapshot does to the login screens.
#[derive(Debug, Clone, Copy, PartialEq, Eq, Structural)]
pub enum AuthTransition {
    /// Nothing changes.
    Unchanged,
    /// Login became necessary: the login menu is shown.
    LoginRequired,
    /// Login completed: back to the dashboard (the caller clears the screen
    /// and reports "Authentication successful!").
    LoggedIn,
}

/// The screens that belong to logging in.
pub open spec fn in_login_screens(m: InputMode) -> bool {
    m == InputMode::AuthMenu || m == InputMode::AuthToken || m is AuthWebWaiting
}

/// Apply the login state of a new snapshot (`needs_auth`: the engine reports
/// that a login is required) to the view.
pub fn apply_auth_state(nav: &mut NavState, needs_auth: bool) -> (t: AuthTransition)
    ensures
        needs_auth && old(nav).input_mode == InputMode::Normal ==> t == AuthTransition::LoginRequired
            && final(nav).input_mode == InputMode::AuthMenu,
        !needs_auth && in_login_screens(old(nav).input_mode) ==> t == AuthTransition::LoggedIn
            && final(nav).input_mode == InputMode::Normal,
        !(needs_auth && old(nav).input_mode == InputMode::Normal) && !(!needs_auth
            && in_login_screens(old(nav).input_mode)) ==> t == AuthTransition::Unchanged
            && *final(nav) == *old(nav),
        final(nav).active_screen == old(nav).active_screen,
        final(nav).should_quit == old(nav).should_quit,
{
    let is_normal = match nav.input_mode {
        InputMode::Normal => true,
        _ => false,
    };
    let in_login = match nav.input_mode {
        InputMode::AuthMenu | InputMode::AuthToken | InputMode::AuthWebWaiting(_) => true,
        _ => false,
    };
    if needs_auth && is_normal {
        nav.input_mode = InputMode::AuthMenu;
        AuthTransition::LoginRequired
    } else if !needs_auth && in_login {
        nav.input_mode = InputMode::Normal;
        AuthTransition::LoggedIn
    } else {
        AuthTransition::Unchanged
    }
}

} // verus!
