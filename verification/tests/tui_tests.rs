use console_client::tui::keys::{handle_normal_key, Key, KeyPress, NavState, NormalAction};
use console_client::tui::state::{
    clamp_selection, selected_index, AboutFocus, InputMode, Panel, Screen,
};

fn nav() -> NavState {
    NavState {
        active_screen: Screen::Dashboard,
        about_focus: None,
        active_panel: Panel::Crypto,
        input_mode: InputMode::Normal,
        should_quit: false,
        log_len: 3,
        log_selected: None,
        backup_len: 2,
        backup_selected: Some(1),
    }
}

fn key(c: char) -> KeyPress {
    KeyPress { key: Key::Char(c), ctrl: false }
}

fn ctrl(c: char) -> KeyPress {
    KeyPress { key: Key::Char(c), ctrl: true }
}

#[test]
fn panels_and_about_focus_cycle() {
    assert_eq!(Panel::Crypto.next(), Panel::Transfers);
    assert_eq!(Panel::Transfers.next(), Panel::Crypto);
    assert_eq!(Panel::Crypto.prev(), Panel::Transfers);
    assert_eq!(AboutFocus::ClientBuild.next(), AboutFocus::PclsyncBuild);
    assert_eq!(AboutFocus::PclsyncBuild.next(), AboutFocus::LicenseLink);
    assert_eq!(AboutFocus::LicenseLink.next(), AboutFocus::ClientBuild);
}

#[test]
fn selection_clamping() {
    assert_eq!(clamp_selection(0, Some(4)), None);
    assert_eq!(clamp_selection(3, Some(7)), Some(2));
    assert_eq!(clamp_selection(3, None), Some(0));
    assert_eq!(clamp_selection(3, Some(1)), Some(1));
    assert_eq!(selected_index(2, Some(1)), Some(1));
    assert_eq!(selected_index(2, Some(2)), None);
}

#[test]
fn quit_keys_quit_everywhere() {
    for screen in [Screen::Dashboard, Screen::Backups, Screen::Help, Screen::About] {
        for k in [key('q'), key('Q'), ctrl('c')] {
            let mut s = NavState { active_screen: screen, ..nav() };
            assert_eq!(handle_normal_key(&mut s, k), NormalAction::Nothing);
            assert!(s.should_quit);
        }
    }
}

#[test]
fn tab_keys_switch_screens() {
    let mut s = nav();
    assert_eq!(handle_normal_key(&mut s, key('2')), NormalAction::RefreshBackups);
    assert_eq!(s.active_screen, Screen::Backups);
    handle_normal_key(&mut s, key('4'));
    assert_eq!(s.active_screen, Screen::About);
    assert_eq!(s.about_focus, Some(AboutFocus::ClientBuild));
    handle_normal_key(&mut s, KeyPress { key: Key::Tab, ctrl: false });
    assert_eq!(s.about_focus, Some(AboutFocus::PclsyncBuild));
    assert_eq!(
        handle_normal_key(&mut s, KeyPress { key: Key::Enter, ctrl: false }),
        NormalAction::OpenAboutLink(AboutFocus::PclsyncBuild)
    );
    handle_normal_key(&mut s, key('1'));
    assert_eq!(s.active_screen, Screen::Dashboard);
    assert_eq!(s.about_focus, None);
}

#[test]
fn dashboard_keys() {
    let mut s = nav();
    handle_normal_key(&mut s, KeyPress { key: Key::Down, ctrl: false });
    assert_eq!(s.log_selected, Some(0));
    handle_normal_key(&mut s, key('G'));
    assert_eq!(s.log_selected, Some(2));
    handle_normal_key(&mut s, key('j'));
    assert_eq!(s.log_selected, Some(2));
    handle_normal_key(&mut s, key('k'));
    assert_eq!(s.log_selected, Some(1));
    handle_normal_key(&mut s, KeyPress { key: Key::Tab, ctrl: false });
    assert_eq!(s.active_panel, Panel::Transfers);
    assert_eq!(handle_normal_key(&mut s, ctrl('l')), NormalAction::CryptoAction);
    assert_eq!(handle_normal_key(&mut s, key('l')), NormalAction::Nothing);
    assert_eq!(handle_normal_key(&mut s, ctrl('p')), NormalAction::PauseAction);
    assert_eq!(handle_normal_key(&mut s, ctrl('t')), NormalAction::StopAction);
    assert_eq!(handle_normal_key(&mut s, ctrl('r')), NormalAction::RestartDaemon);
    handle_normal_key(&mut s, ctrl('u'));
    assert_eq!(s.input_mode, InputMode::UnlinkConfirm);
}

#[test]
fn backups_keys() {
    let mut s = NavState { active_screen: Screen::Backups, ..nav() };
    handle_normal_key(&mut s, key('j'));
    assert_eq!(s.backup_selected, Some(1));
    handle_normal_key(&mut s, key('k'));
    assert_eq!(s.backup_selected, Some(0));
    handle_normal_key(&mut s, key('d'));
    assert_eq!(s.input_mode, InputMode::BackupRemoveConfirm);

    let mut s = NavState { active_screen: Screen::Backups, backup_selected: None, ..nav() };
    assert_eq!(handle_normal_key(&mut s, key('D')), NormalAction::ReportNoBackupSelected);
    assert_eq!(handle_normal_key(&mut s, key('a')), NormalAction::ClearInput);
    assert_eq!(s.input_mode, InputMode::BackupAdd);
    assert_eq!(handle_normal_key(&mut s, key('r')), NormalAction::RefreshBackups);
}

use console_client::daemon::ipc::DaemonResponse;
use console_client::tui::input::{
    handle_key, handle_password_key, pop_char, InputBuffers, KeyAction,
};
use console_client::tui::replies::{action_message, apply_auth_state, AuthTransition};
use console_client::tui::state::{byte_scale, CryptoAction, StatusMessageKind};

fn bufs(text: &str) -> InputBuffers {
    InputBuffers { input_buffer: text.to_string(), password_stash: None, scroll_offset: 0 }
}

fn press(k: Key) -> KeyPress {
    KeyPress { key: k, ctrl: false }
}

#[test]
fn backup_path_entry() {
    let mut s = NavState { input_mode: InputMode::BackupAdd, ..nav() };
    let mut b = bufs("");
    for c in " /data ".chars() {
        assert_eq!(handle_key(&mut s, &mut b, key(c)), KeyAction::Nothing);
    }
    handle_key(&mut s, &mut b, press(Key::Backspace));
    assert_eq!(b.input_buffer, " /data");
    assert_eq!(handle_key(&mut s, &mut b, press(Key::Enter)), KeyAction::AddBackup("/data".to_string()));
    assert_eq!(s.input_mode, InputMode::Normal);
    assert!(b.input_buffer.is_empty());

    let mut s = NavState { input_mode: InputMode::BackupAdd, ..nav() };
    let mut b = bufs("   ");
    assert_eq!(
        handle_key(&mut s, &mut b, press(Key::Enter)),
        KeyAction::Report("Path is empty".to_string(), StatusMessageKind::Error)
    );
}

#[test]
fn password_then_hint_sets_crypto_up() {
    let mut s = NavState { input_mode: InputMode::PasswordPrompt(CryptoAction::Setup), ..nav() };
    let mut b = bufs("s3cret");
    assert_eq!(handle_password_key(&mut s, &mut b, press(Key::Enter)), KeyAction::Nothing);
    assert_eq!(s.input_mode, InputMode::HintPrompt);
    assert!(b.input_buffer.is_empty());
    assert_eq!(b.password_stash.as_deref(), Some("s3cret"));
    for c in "pet".chars() {
        handle_key(&mut s, &mut b, key(c));
    }
    assert_eq!(
        handle_key(&mut s, &mut b, press(Key::Enter)),
        KeyAction::SetupCrypto { password: "s3cret".to_string(), hint: "pet".to_string() }
    );
    assert_eq!(b.password_stash, None);
    assert_eq!(s.input_mode, InputMode::Normal);
}

#[test]
fn password_unlock_and_cancel_wipe_the_buffer() {
    let mut s = NavState { input_mode: InputMode::PasswordPrompt(CryptoAction::Unlock), ..nav() };
    let mut b = bufs("pw");
    assert_eq!(handle_key(&mut s, &mut b, press(Key::Enter)), KeyAction::UnlockCrypto("pw".to_string()));
    assert!(b.input_buffer.is_empty());
    let mut b = bufs("typed");
    handle_key(&mut s, &mut b, press(Key::Esc));
    assert!(b.input_buffer.is_empty());
    assert_eq!(s.input_mode, InputMode::Normal);
}

#[test]
fn login_screens() {
    let mut s = NavState { input_mode: InputMode::AuthMenu, ..nav() };
    let mut b = bufs("old");
    assert_eq!(handle_key(&mut s, &mut b, key('1')), KeyAction::StartWebLogin);
    handle_key(&mut s, &mut b, key('2'));
    assert_eq!(s.input_mode, InputMode::AuthToken);
    assert!(b.input_buffer.is_empty());
    handle_key(&mut s, &mut b, key('t'));
    handle_key(&mut s, &mut b, key('k'));
    assert_eq!(handle_key(&mut s, &mut b, press(Key::Enter)), KeyAction::SubmitToken("tk".to_string()));
    assert_eq!(handle_key(&mut s, &mut b, press(Key::Enter)), KeyAction::Nothing);

    let mut s = NavState { input_mode: InputMode::AuthWebWaiting("https://x".to_string()), ..nav() };
    assert_eq!(handle_key(&mut s, &mut b, key('o')), KeyAction::OpenLoginUrl("https://x".to_string()));
    handle_key(&mut s, &mut b, key('j'));
    handle_key(&mut s, &mut b, key('j'));
    handle_key(&mut s, &mut b, key('k'));
    assert_eq!(b.scroll_offset, 1);
    handle_key(&mut s, &mut b, press(Key::Esc));
    assert_eq!(b.scroll_offset, 0);
    assert_eq!(s.input_mode, InputMode::AuthMenu);
}

#[test]
fn confirmations() {
    let mut s = NavState { input_mode: InputMode::UnlinkConfirm, ..nav() };
    let mut b = bufs("");
    assert_eq!(handle_key(&mut s, &mut b, key('x')), KeyAction::Nothing);
    assert_eq!(s.input_mode, InputMode::UnlinkConfirm);
    assert_eq!(handle_key(&mut s, &mut b, key('y')), KeyAction::Unlink);
    assert!(s.should_quit);

    let mut s = NavState { input_mode: InputMode::BackupRemoveConfirm, ..nav() };
    assert_eq!(handle_key(&mut s, &mut b, key('Y')), KeyAction::RemoveBackup(1));
    let mut s = NavState { input_mode: InputMode::BackupStopDeviceConfirm, ..nav() };
    assert_eq!(handle_key(&mut s, &mut b, key('n')), KeyAction::Nothing);
    assert_eq!(s.input_mode, InputMode::Normal);
}

#[test]
fn popping_characters() {
    let mut s = "ab".to_string();
    pop_char(&mut s);
    assert_eq!(s, "a");
    pop_char(&mut s);
    pop_char(&mut s);
    assert_eq!(s, "");
}

#[test]
fn action_replies_become_messages() {
    assert_eq!(action_message(None, "Done"), None);
    assert_eq!(
        action_message(Some(&DaemonResponse::Success), "Crypto locked"),
        Some(("Crypto locked".to_string(), StatusMessageKind::Success))
    );
    assert_eq!(
        action_message(Some(&DaemonResponse::Error("no".into())), "x"),
        Some(("no".to_string(), StatusMessageKind::Error))
    );
    assert_eq!(
        action_message(Some(&DaemonResponse::Pong), "x"),
        Some(("Unexpected daemon response".to_string(), StatusMessageKind::Error))
    );
}

#[test]
fn login_state_moves_between_screens() {
    let mut s = nav();
    assert_eq!(apply_auth_state(&mut s, true), AuthTransition::LoginRequired);
    assert_eq!(s.input_mode, InputMode::AuthMenu);
    assert_eq!(apply_auth_state(&mut s, true), AuthTransition::Unchanged);
    assert_eq!(apply_auth_state(&mut s, false), AuthTransition::LoggedIn);
    assert_eq!(s.input_mode, InputMode::Normal);
    assert_eq!(apply_auth_state(&mut s, false), AuthTransition::Unchanged);
}

#[test]
fn byte_units() {
    assert_eq!(byte_scale(1023), (1, "B"));
    assert_eq!(byte_scale(1024), (1024, "KB"));
    assert_eq!(byte_scale(5 * 1024 * 1024), (1048576, "MB"));
    assert_eq!(byte_scale(1 << 40), (1 << 40, "TB"));
}

use console_client::tui::actions::{
    crypto_key_step, lock_crypto, pause_key_step, start_crypto_setup, start_crypto_unlock,
    stop_key_step, sync_reply, token_reply, CryptoState, CryptoStep, SyncCommand,
    SyncEngineState, SyncStep,
};

#[test]
fn crypto_key_follows_the_crypto_state() {
    let mut s = nav();
    let mut b = bufs("left over");
    assert_eq!(crypto_key_step(&mut s, &mut b, &CryptoState::Started), CryptoStep::SendStopCrypto);
    assert_eq!(s, nav());
    assert_eq!(b.input_buffer, "left over");

    for (state, action) in [
        (CryptoState::SetupComplete, CryptoAction::Unlock),
        (CryptoState::Stopped, CryptoAction::Unlock),
        (CryptoState::NotSetup, CryptoAction::Setup),
        (CryptoState::Failed("bad".to_string()), CryptoAction::Setup),
    ] {
        let mut s = nav();
        let mut b = bufs("left over");
        assert_eq!(crypto_key_step(&mut s, &mut b, &state), CryptoStep::Prompted);
        assert_eq!(s.input_mode, InputMode::PasswordPrompt(action));
        assert_eq!(b.input_buffer, "");
    }
}

#[test]
fn crypto_steps_refuse_what_is_already_done() {
    let mut s = nav();
    let mut b = bufs("x");
    assert_eq!(
        start_crypto_unlock(&mut s, &mut b, &CryptoState::Started),
        CryptoStep::Report("Crypto already unlocked".to_string(), StatusMessageKind::Success)
    );
    assert_eq!(
        start_crypto_unlock(&mut s, &mut b, &CryptoState::NotSetup),
        CryptoStep::Report(
            "Crypto not set up. Press Ctrl+L to setup".to_string(),
            StatusMessageKind::Error
        )
    );
    assert_eq!(
        start_crypto_setup(&mut s, &mut b, &CryptoState::Started),
        CryptoStep::Report("Crypto already set up".to_string(), StatusMessageKind::Success)
    );
    assert_eq!(
        lock_crypto(&CryptoState::Stopped),
        CryptoStep::Report("Crypto already locked".to_string(), StatusMessageKind::Success)
    );
    assert_eq!(s, nav());
    assert_eq!(b.input_buffer, "x");
}

#[test]
fn pause_and_stop_keys_follow_the_engine_state() {
    assert_eq!(pause_key_step(SyncEngineState::Running), SyncStep::Send(SyncCommand::Pause));
    assert_eq!(pause_key_step(SyncEngineState::Paused), SyncStep::Send(SyncCommand::Resume));
    assert_eq!(
        pause_key_step(SyncEngineState::Stopped),
        SyncStep::Report(
            "Sync is stopped \u{2014} press Ctrl+T to start".to_string(),
            StatusMessageKind::Error
        )
    );
    assert_eq!(stop_key_step(SyncEngineState::Running), SyncStep::Send(SyncCommand::Stop));
    assert_eq!(stop_key_step(SyncEngineState::Paused), SyncStep::Send(SyncCommand::Stop));
    assert_eq!(stop_key_step(SyncEngineState::Stopped), SyncStep::Send(SyncCommand::Resume));
    for step in [pause_key_step(SyncEngineState::Inactive), stop_key_step(SyncEngineState::Inactive)] {
        assert_eq!(
            step,
            SyncStep::Report("Sync engine is not available".to_string(), StatusMessageKind::Error)
        );
    }
}

#[test]
fn sync_replies_are_reported() {
    assert_eq!(
        sync_reply(SyncCommand::Pause, false, Some(&DaemonResponse::Success)),
        Some((Some(SyncEngineState::Paused), "Sync paused".to_string(), StatusMessageKind::Success))
    );
    assert_eq!(
        sync_reply(SyncCommand::Resume, true, Some(&DaemonResponse::OkWithMessage("x".to_string()))),
        Some((Some(SyncEngineState::Running), "Sync started".to_string(), StatusMessageKind::Success))
    );
    assert_eq!(
        sync_reply(SyncCommand::Resume, false, Some(&DaemonResponse::Success)),
        Some((Some(SyncEngineState::Running), "Sync resumed".to_string(), StatusMessageKind::Success))
    );
    assert_eq!(
        sync_reply(SyncCommand::Stop, false, Some(&DaemonResponse::Error("busy".to_string()))),
        Some((None, "Failed to stop: busy".to_string(), StatusMessageKind::Error))
    );
    assert_eq!(sync_reply(SyncCommand::Stop, false, Some(&DaemonResponse::Pong)), None);
    assert_eq!(sync_reply(SyncCommand::Stop, false, None), None);
}

#[test]
fn token_replies_are_reported() {
    assert_eq!(
        token_reply(Some(&DaemonResponse::Success)),
        Some(("Token set, authenticating...".to_string(), StatusMessageKind::Success))
    );
    assert_eq!(
        token_reply(Some(&DaemonResponse::Error("expired".to_string()))),
        Some(("Token error: expired".to_string(), StatusMessageKind::Error))
    );
    assert_eq!(token_reply(Some(&DaemonResponse::Pong)), None);
}

use console_client::tui::header::header_lines;

#[test]
fn header_shows_dashes_for_missing_values() {
    let h = header_lines(None, None, false, None, 0, ("0 B", "0 B", 0), None);
    assert_eq!(h.account, "--");
    assert_eq!(h.region, "--");
    assert_eq!(h.storage, "--");
    assert!(!h.mounted);
    assert_eq!(h.mount, "Not mounted");
    assert_eq!(h.message, None);
}

#[test]
fn header_shows_account_storage_and_mount() {
    let h = header_lines(
        Some("ann@example.com"),
        Some("EU"),
        true,
        Some("/home/ann/pCloud"),
        10_737_418_240,
        ("1.0 GB", "10.0 GB", 10),
        Some(("Sync paused", StatusMessageKind::Success)),
    );
    assert_eq!(h.account, "ann@example.com");
    assert_eq!(h.region, "EU");
    assert_eq!(h.storage, "1.0 GB / 10.0 GB (10%)");
    assert!(h.mounted);
    assert_eq!(h.mount, "Mounted at /home/ann/pCloud");
    assert_eq!(h.message, Some(("  Sync paused".to_string(), StatusMessageKind::Success)));
    let unknown = header_lines(None, None, true, None, 0, ("", "", 0), None);
    assert_eq!(unknown.mount, "Mounted at unknown");
}
