//! What the dashboard's crypto, pause and stop keys do, and how the replies
//! to those actions and to a submitted login token are shown.
//!
//! The crypto key locks a started crypto folder, asks for the password of one
//! that is set up, and starts the setup of one that is not. The pause key
//! pauses a running engine and resumes a paused one; the stop key stops a
//! running or paused engine and starts a stopped one.
use vstd::prelude::*;

use super::input::InputBuffers;
use super::keys::NavState;
use super::state::{CryptoAction, InputMode, StatusMessageKind};
use crate::daemon::ipc::DaemonResponse;
use crate::text::{push_str, string_from};

verus! {

/// The state of the crypto folder as the daemon reports it.
#[derive(Clone, Debug, PartialEq, Eq)]
pub enum CryptoState {
    /// Crypto has never been set up.
    NotSetup,
    /// Crypto is set up and locked.
    SetupComplete,
    /// The crypto folder is unlocked.
    Started,
    /// The crypto folder was locked again.
    Stopped,
    /// The last crypto operation failed (its message).
    Failed(String),
}

/// The sync engine's high-level state, derived from its status code.
#[derive(Clone, Copy, Debug, PartialEq, Eq, Structural)]
pub enum SyncEngineState {
    /// Syncing (or ready, or scanning).
    Running,
    /// Paused by the user.
    Paused,
    /// Stopped by the user.
    Stopped,
    /// Not logged in, or otherwise unavailable.
    Inactive,
}

/// What the caller must do after the crypto key.
#[derive(Debug, Clone, PartialEq, Eq)]
pub enum CryptoStep {
    /// Nothing more: the password prompt is now shown.
    Prompted,
    /// Send `StopCrypto`, report its reply (plain success reads
    /// "Crypto locked"), then poll the status.
    SendStopCrypto,
    /// Show this message.
    Report(String, StatusMessageKind),
}

/// A sync-engine command the dashboard sends.
#[derive(Clone, Copy, Debug, PartialEq, Eq, Structural)]
pub enum SyncCommand {
    Pause,
    Resume,
    Stop,
}

/// What the caller must do after the pause or stop key.
#[derive(Debug, Clone, PartialEq, Eq)]
pub enum SyncStep {
    /// Send this command, show the reply, then poll the status.
    Send(SyncCommand),
    /// Show this message.
    Report(String, StatusMessageKind),
}

/// The password prompt for `action` is shown with an empty buffer; nothing
/// else of the view changes.
pub open spec fn prompted(old_nav: NavState, new_nav: NavState, new_input: Seq<char>, action: CryptoAction) -> bool {
    &&& new_nav == (NavState { input_mode: InputMode::PasswordPrompt(action), ..old_nav })
    &&& new_input.len() == 0
}

/// Ask for the password that unlocks crypto, unless it is already unlocked
/// or was never set up.
pub fn start_crypto_unlock(nav: &mut NavState, buf: &mut InputBuffers, crypto: &CryptoState) -> (r: CryptoStep)
    ensures
        final(buf).password_stash == old(buf).password_stash,
        final(buf).scroll_offset == old(buf).scroll_offset,
        match *crypto {
            CryptoState::Started => (r matches CryptoStep::Report(m, k) && m@
                == "Crypto already unlocked"@ && k == StatusMessageKind::Success) && *final(nav)
                == *old(nav) && final(buf).input_buffer@ == old(buf).input_buffer@,
            CryptoState::NotSetup => (r matches CryptoStep::Report(m, k) && m@
                == "Crypto not set up. Press Ctrl+L to setup"@ && k == StatusMessageKind::Error)
                && *final(nav) == *old(nav) && final(buf).input_buffer@ == old(buf).input_buffer@,
            _ => r == CryptoStep::Prompted && prompted(
                *old(nav),
                *final(nav),
                final(buf).input_buffer@,
                CryptoAction::Unlock,
            ),
        },
{
    match crypto {
        CryptoState::Started => {
            return CryptoStep::Report(string_from("Crypto already unlocked"), StatusMessageKind::Success);
        },
        CryptoState::NotSetup => {
            return CryptoStep::Report(
                string_from("Crypto not set up. Press Ctrl+L to setup"),
                StatusMessageKind::Error,
            );
        },
        _ => {},
    }
    nav.input_mode = InputMode::PasswordPrompt(CryptoAction::Unlock);
    buf.input_buffer = String::new();
    CryptoStep::Prompted
}

/// Lock crypto, unless it is already locked.
pub fn lock_crypto(crypto: &CryptoState) -> (r: CryptoStep)
    ensures
        *crypto == CryptoState::Started ==> r == CryptoStep::SendStopCrypto,
        *crypto != CryptoState::Started ==> (r matches CryptoStep::Report(m, k) && m@
            == "Crypto already locked"@ && k == StatusMessageKind::Success),
{
    let started = match crypto {
        CryptoState::Started => true,
        _ => false,
    };
    if !started {
        return CryptoStep::Report(string_from("Crypto already locked"), StatusMessageKind::Success);
    }
    CryptoStep::SendStopCrypto
}

/// Ask for the password of a new crypto setup, unless crypto is already set
/// up.
pub fn start_crypto_setup(nav: &mut NavState, buf: &mut InputBuffers, crypto: &CryptoState) -> (r: CryptoStep)
    ensures
        final(buf).password_stash == old(buf).password_stash,
        final(buf).scroll_offset == old(buf).scroll_offset,
        (*crypto is NotSetup || *crypto is Failed) ==> r == CryptoStep::Prompted && prompted(
            *old(nav),
            *final(nav),
            final(buf).input_buffer@,
            CryptoAction::Setup,
        ),
        !(*crypto is NotSetup || *crypto is Failed) ==> (r matches CryptoStep::Report(m, k) && m@
            == "Crypto already set up"@ && k == StatusMessageKind::Success) && *final(nav)
            == *old(nav) && final(buf).input_buffer@ == old(buf).input_buffer@,
{
    let can_setup = match crypto {
        CryptoState::NotSetup | CryptoState::Failed(_) => true,
        _ => false,
    };
    if !can_setup {
        return CryptoStep::Report(string_from("Crypto already set up"), StatusMessageKind::Success);
    }
    nav.input_mode = InputMode::PasswordPrompt(CryptoAction::Setup);
    buf.input_buffer = String::new();
    CryptoStep::Prompted
}

/// The crypto key: lock a started folder, ask for the password of a set-up
/// one, set up one that is not (or whose last operation failed).
pub fn crypto_key_step(nav: &mut NavState, buf: &mut InputBuffers, crypto: &CryptoState) -> (r: CryptoStep)
    ensures
        final(buf).password_stash == old(buf).password_stash,
        final(buf).scroll_offset == old(buf).scroll_offset,
        match *crypto {
            CryptoState::Started => r == CryptoStep::SendStopCrypto && *final(nav) == *old(nav)
                && final(buf).input_buffer@ == old(buf).input_buffer@,
            CryptoState::SetupComplete | CryptoState::Stopped => r == CryptoStep::Prompted
                && prompted(*old(nav), *final(nav), final(buf).input_buffer@, CryptoAction::Unlock),
            CryptoState::NotSetup | CryptoState::Failed(_) => r == CryptoStep::Prompted
                && prompted(*old(nav), *final(nav), final(buf).input_buffer@, CryptoAction::Setup),
        },
{
    match crypto {
        CryptoState::Started => lock_crypto(crypto),
        CryptoState::SetupComplete | CryptoState::Stopped => start_crypto_unlock(nav, buf, crypto),
        CryptoState::NotSetup | CryptoState::Failed(_) => start_crypto_setup(nav, buf, crypto),
    }
}

/// The message for a stopped engine when the pause key is pressed.
pub open spec fn stopped_hint() -> Seq<char> {
    "Sync is stopped \u{2014} press Ctrl+T to start"@
}

/// The message when the engine is not available.
pub open spec fn engine_unavailable() -> Seq<char> {
    "Sync engine is not available"@
}

/// The pause key: pause a running engine, resume a paused one.
pub fn pause_key_step(engine: SyncEngineState) -> (r: SyncStep)
    ensures
        match engine {
            SyncEngineState::Running => r == SyncStep::Send(SyncCommand::Pause),
            SyncEngineState::Paused => r == SyncStep::Send(SyncCommand::Resume),
            SyncEngineState::Stopped => (r matches SyncStep::Report(m, k) && m@ == stopped_hint()
                && k == StatusMessageKind::Error),
            SyncEngineState::Inactive => (r matches SyncStep::Report(m, k) && m@
                == engine_unavailable() && k == StatusMessageKind::Error),
        },
{
    match engine {
        SyncEngineState::Running => SyncStep::Send(SyncCommand::Pause),
        SyncEngineState::Paused => SyncStep::Send(SyncCommand::Resume),
        SyncEngineState::Stopped => SyncStep::Report(
            string_from("Sync is stopped \u{2014} press Ctrl+T to start"),
            StatusMessageKind::Error,
        ),
        SyncEngineState::Inactive => SyncStep::Report(
            string_from("Sync engine is not available"),
            StatusMessageKind::Error,
        ),
    }
}

/// The stop key: stop a running or paused engine, start a stopped one.
pub fn stop_key_step(engine: SyncEngineState) -> (r: SyncStep)
    ensures
        match engine {
            SyncEngineState::Running | SyncEngineState::Paused => r == SyncStep::Send(
                SyncCommand::Stop,
            ),
            SyncEngineState::Stopped => r == SyncStep::Send(SyncCommand::Resume),
            SyncEngineState::Inactive => (r matches SyncStep::Report(m, k) && m@
                == engine_unavailable() && k == StatusMessageKind::Error),
        },
{
    match engine {
        SyncEngineState::Running | SyncEngineState::Paused => SyncStep::Send(SyncCommand::Stop),
        SyncEngineState::Stopped => SyncStep::Send(SyncCommand::Resume),
        SyncEngineState::Inactive => SyncStep::Report(
            string_from("Sync engine is not available"),
            StatusMessageKind::Error,
        ),
    }
}

/// The engine state a successful command leaves (shown until the next
/// status poll).
pub open spec fn engine_after(cmd: SyncCommand) -> SyncEngineState {
    match cmd {
        SyncCommand::Pause => SyncEngineState::Paused,
        SyncCommand::Resume => SyncEngineState::Running,
        SyncCommand::Stop => SyncEngineState::Stopped,
    }
}

/// The message for a successful command (`was_stopped`: the engine was
/// stopped before a resume).
pub open spec fn sync_success_message(cmd: SyncCommand, was_stopped: bool) -> Seq<char> {
    match cmd {
        SyncCommand::Pause => "Sync paused"@,
        SyncCommand::Resume => if was_stopped {
            "Sync started"@
        } else {
            "Sync resumed"@
        },
        SyncCommand::Stop => "Sync stopped"@,
    }
}

/// The verb in a failure message.
pub open spec fn sync_verb(cmd: SyncCommand) -> Seq<char> {
    match cmd {
        SyncCommand::Pause => "pause"@,
        SyncCommand::Resume => "resume"@,
        SyncCommand::Stop => "stop"@,
    }
}

/// What the dashboard shows after `cmd` got `reply`: on success the engine
/// state it leaves and a message; on an error the message alone; on anything
/// else (or no reply) nothing.
pub fn sync_reply(cmd: SyncCommand, was_stopped: bool, reply: Option<&DaemonResponse>) -> (r: Option<(Option<SyncEngineState>, String, StatusMessageKind)>)
    ensures
        match reply {
            Some(DaemonResponse::Success) | Some(DaemonResponse::OkWithMessage(_)) => (r matches Some(
                (s, m, k),
            ) && s == Some(engine_after(cmd)) && m@ == sync_success_message(cmd, was_stopped) && k
                == StatusMessageKind::Success),
            Some(DaemonResponse::Error(e)) => (r matches Some((s, m, k)) && s is None && m@
                == "Failed to "@ + sync_verb(cmd) + ": "@ + e@ && k == StatusMessageKind::Error),
            _ => r is None,
        },
{
    match reply {
        Some(DaemonResponse::Success) | Some(DaemonResponse::OkWithMessage(_)) => {
            let (state, msg) = match cmd {
                SyncCommand::Pause => (SyncEngineState::Paused, "Sync paused"),
                SyncCommand::Resume => (
                    SyncEngineState::Running,
                    if was_stopped {
                        "Sync started"
                    } else {
                        "Sync resumed"
                    },
                ),
                SyncCommand::Stop => (SyncEngineState::Stopped, "Sync stopped"),
            };
            Some((Some(state), string_from(msg), StatusMessageKind::Success))
        },
        Some(DaemonResponse::Error(e)) => {
            let mut m = string_from("Failed to ");
            match cmd {
                SyncCommand::Pause => push_str(&mut m, "pause"),
                SyncCommand::Resume => push_str(&mut m, "resume"),
                SyncCommand::Stop => push_str(&mut m, "stop"),
            }
            push_str(&mut m, ": ");
            push_str(&mut m, e.as_str());
            Some((None, m, StatusMessageKind::Error))
        },
        _ => None,
    }
}

/// What the login screen shows after a token was submitted and `reply` came
/// back.
pub fn token_reply(reply: Option<&DaemonResponse>) -> (r: Option<(String, StatusMessageKind)>)
    ensures
        match reply {
            Some(DaemonResponse::Success) | Some(DaemonResponse::OkWithMessage(_)) => (r matches Some(
                (m, k),
            ) && m@ == "Token set, authenticating..."@ && k == StatusMessageKind::Success),
            Some(DaemonResponse::Error(e)) => (r matches Some((m, k)) && m@ == "Token error: "@
                + e@ && k == StatusMessageKind::Error),
            _ => r is None,
        },
{
    match reply {
        Some(DaemonResponse::Success) | Some(DaemonResponse::OkWithMessage(_)) => Some(
            (string_from("Token set, authenticating..."), StatusMessageKind::Success),
        ),
        Some(DaemonResponse::Error(e)) => {
            let mut m = string_from("Token error: ");
            push_str(&mut m, e.as_str());
            Some((m, StatusMessageKind::Error))
        },
        _ => None,
    }
}

} // verus!
