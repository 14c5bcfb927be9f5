//! Key handling in the TUI's text-entry and confirmation modes.
//!
//! Each mode edits the input buffer, moves to another mode, and may name an
//! action for the caller to perform (send a command to the daemon, open the
//! login URL, report a message). Passwords leave the buffer by being handed
//! to the action or stashed, and the buffer that held them is wiped.
use vstd::prelude::*;

use super::keys::{
    handle_normal_key, is_char_key, normal_key_step, Key, KeyPress, NavState, NormalAction,
};
use super::state::{selected_row, CryptoAction, InputMode, StatusMessageKind};
use crate::security::zeroize_string;
use crate::text::{chars_of, push_char, slice_chars, string_from, string_of, trim, trim_chars};

verus! {

/// The text held while the user types.
pub struct InputBuffers {
    /// What has been typed so far.
    pub input_buffer: String,
    /// The password typed for a crypto setup, kept until the hint is typed.
    pub password_stash: Option<String>,
    /// Vertical scroll of the login screen (the QR code may overflow).
    pub scroll_offset: u16,
}

/// What the caller must do after a key press outside normal mode.
#[derive(Debug, Clone, PartialEq, Eq)]
pub enum KeyAction {
    /// Nothing more.
    Nothing,
    /// What normal mode asked for.
    Normal(NormalAction),
    /// Start a web login.
    StartWebLogin,
    /// Log in with this token.
    SubmitToken(String),
    /// Open the login URL in a browser.
    OpenLoginUrl(String),
    /// Unlock crypto with this password.
    UnlockCrypto(String),
    /// Set crypto up with this password and hint.
    SetupCrypto { password: String, hint: String },
    /// Unlink the account (the TUI then exits).
    Unlink,
    /// Add a backup of this local folder.
    AddBackup(String),
    /// Remove the backup in this row of the list.
    RemoveBackup(usize),
    /// Stop all backups on this device.
    StopDeviceBackups,
    /// Show this message.
    Report(String, StatusMessageKind),
}

/// `s` with its last character removed, if any (`String::pop`).
pub open spec fn pop_spec(s: Seq<char>) -> Seq<char> {
    if s.len() > 0 {
        s.drop_last()
    } else {
        s
    }
}

/// Remove the last character of `s`, if any.
pub fn pop_char(s: &mut String)
    ensures
        final(s)@ == pop_spec(old(s)@),
{
    let v = chars_of(s.as_str());
    if v.len() > 0 {
        let kept = slice_chars(v.as_slice(), 0, v.len() - 1);
        *s = string_of(kept.as_slice());
    }
}

/// `k` is a yes answer.
pub open spec fn is_yes(k: KeyPress) -> bool {
    is_char_key(k, 'y') || is_char_key(k, 'Y')
}

/// `k` is a no answer (or Escape).
pub open spec fn is_no(k: KeyPress) -> bool {
    k.key == Key::Esc || is_char_key(k, 'n') || is_char_key(k, 'N')
}

/// Whether the key is the character `c`.
fn char_key(k: KeyPress, c: char) -> (r: bool)
    ensures
        r == is_char_key(k, c),
{
    match k.key {
        Key::Char(d) => d == c,
        _ => false,
    }
}

/// `b` with its input replaced by `input`, the rest unchanged.
pub open spec fn input_only(ob: InputBuffers, nb: InputBuffers, input: Seq<char>) -> bool {
    &&& nb.input_buffer@ == input
    &&& nb.password_stash == ob.password_stash
    &&& nb.scroll_offset == ob.scroll_offset
}

/// The buffers are unchanged.
pub open spec fn bufs_kept(ob: InputBuffers, nb: InputBuffers) -> bool {
    input_only(ob, nb, ob.input_buffer@)
}

/// `k` is Ctrl+C.
pub open spec fn is_ctrl_c(k: KeyPress) -> bool {
    is_char_key(k, 'c') && k.ctrl
}

/// `k` quits from a menu: `q`, `Q` or Ctrl+C.
pub open spec fn is_quit(k: KeyPress) -> bool {
    is_char_key(k, 'q') || is_char_key(k, 'Q') || is_ctrl_c(k)
}

/// `s` back in normal mode.
pub open spec fn to_normal(s: NavState) -> NavState {
    NavState { input_mode: InputMode::Normal, ..s }
}

/// `s` with `mode` as its input mode.
pub open spec fn to_mode(s: NavState, mode: InputMode) -> NavState {
    NavState { input_mode: mode, ..s }
}

/// `s` about to quit.
pub open spec fn quitting(s: NavState) -> NavState {
    NavState { should_quit: true, ..s }
}

/// A yes/no confirmation: yes does `yes_action` and returns to normal mode
/// (quitting too when `quit`), no or Escape returns to normal mode, any
/// other key is ignored.
pub open spec fn confirm_step(o: NavState, key: KeyPress, n: NavState, a: KeyAction, yes_action: KeyAction, quit: bool) -> bool {
    if is_yes(key) {
        a == yes_action && n == (if quit {
            quitting(to_normal(o))
        } else {
            to_normal(o)
        })
    } else if is_no(key) {
        a == KeyAction::Nothing && n == to_normal(o)
    } else {
        a == KeyAction::Nothing && n == o
    }
}

/// The action that removes the selected backup, if a row is selected.
pub open spec fn remove_selected(o: NavState) -> KeyAction {
    match selected_row(o.backup_len, o.backup_selected) {
        Some(i) => KeyAction::RemoveBackup(i),
        None => KeyAction::Nothing,
    }
}

/// Confirming an unlink: yes unlinks and quits, no goes back.
pub fn handle_unlink_confirm_key(nav: &mut NavState, key: KeyPress) -> (a: KeyAction)
    ensures
        confirm_step(*old(nav), key, *final(nav), a, KeyAction::Unlink, true),
{
    if char_key(key, 'y') || char_key(key, 'Y') {
        nav.input_mode = InputMode::Normal;
        nav.should_quit = true;
        KeyAction::Unlink
    } else if key.key == Key::Esc || char_key(key, 'n') || char_key(key, 'N') {
        nav.input_mode = InputMode::Normal;
        KeyAction::Nothing
    } else {
        KeyAction::Nothing
    }
}

/// Confirming a backup removal: yes removes the selected backup (if one is
/// selected), no goes back.
pub fn handle_backup_remove_confirm_key(nav: &mut NavState, key: KeyPress) -> (a: KeyAction)
    ensures
        confirm_step(*old(nav), key, *final(nav), a, remove_selected(*old(nav)), false),
{
    if char_key(key, 'y') || char_key(key, 'Y') {
        let row = super::state::selected_index(nav.backup_len, nav.backup_selected);
        nav.input_mode = InputMode::Normal;
        match row {
            Some(i) => KeyAction::RemoveBackup(i),
            None => KeyAction::Nothing,
        }
    } else if key.key == Key::Esc || char_key(key, 'n') || char_key(key, 'N') {
        nav.input_mode = InputMode::Normal;
        KeyAction::Nothing
    } else {
        KeyAction::Nothing
    }
}

/// Confirming that all device backups stop: yes stops them, no goes back.
pub fn handle_backup_stop_confirm_key(nav: &mut NavState, key: KeyPress) -> (a: KeyAction)
    ensures
        confirm_step(*old(nav), key, *final(nav), a, KeyAction::StopDeviceBackups, false),
{
    if char_key(key, 'y') || char_key(key, 'Y') {
        nav.input_mode = InputMode::Normal;
        KeyAction::StopDeviceBackups
    } else if key.key == Key::Esc || char_key(key, 'n') || char_key(key, 'N') {
        nav.input_mode = InputMode::Normal;
        KeyAction::Nothing
    } else {
        KeyAction::Nothing
    }
}

/// Plain typing: a character (without Ctrl when `plain_only`) is appended,
/// Backspace removes the last one; the view is unchanged.
pub open spec fn typing_step(o: NavState, ob: InputBuffers, key: KeyPress, n: NavState, nb: InputBuffers, a: KeyAction, plain_only: bool) -> bool {
    match key.key {
        Key::Char(c) => if !plain_only || !key.ctrl {
            a == KeyAction::Nothing && n == o && input_only(ob, nb, ob.input_buffer@.push(c))
        } else if c == 'c' {
            a == KeyAction::Nothing && n == quitting(o) && bufs_kept(ob, nb)
        } else {
            a == KeyAction::Nothing && n == o && bufs_kept(ob, nb)
        },
        Key::Backspace => a == KeyAction::Nothing && n == o && input_only(
            ob,
            nb,
            pop_spec(ob.input_buffer@),
        ),
        _ => a == KeyAction::Nothing && n == o && bufs_kept(ob, nb),
    }
}

/// Typing the folder of a new backup.
pub open spec fn backup_add_step(o: NavState, ob: InputBuffers, key: KeyPress, n: NavState, nb: InputBuffers, a: KeyAction) -> bool {
    if key.key == Key::Enter {
        &&& n == to_normal(o)
        &&& input_only(ob, nb, Seq::empty())
        &&& if trim(ob.input_buffer@).len() == 0 {
            (a matches KeyAction::Report(m, k) && m@ == "Path is empty"@ && k
                == StatusMessageKind::Error)
        } else {
            (a matches KeyAction::AddBackup(p) && p@ == trim(ob.input_buffer@))
        }
    } else if key.key == Key::Esc {
        a == KeyAction::Nothing && n == to_normal(o) && input_only(ob, nb, Seq::empty())
    } else {
        typing_step(o, ob, key, n, nb, a, true)
    }
}

/// Typing the folder of a new backup: Enter submits the trimmed path (an
/// empty one is reported), Escape cancels, Ctrl+C quits.
pub fn handle_backup_add_key(nav: &mut NavState, buf: &mut InputBuffers, key: KeyPress) -> (a: KeyAction)
    ensures
        backup_add_step(*old(nav), *old(buf), key, *final(nav), *final(buf), a),
{
    match key.key {
        Key::Enter => {
            let cs = chars_of(buf.input_buffer.as_str());
            let t = trim_chars(cs.as_slice());
            buf.input_buffer = String::new();
            nav.input_mode = InputMode::Normal;
            if t.len() == 0 {
                KeyAction::Report(string_from("Path is empty"), StatusMessageKind::Error)
            } else {
                KeyAction::AddBackup(string_of(t.as_slice()))
            }
        },
        Key::Esc => {
            buf.input_buffer = String::new();
            nav.input_mode = InputMode::Normal;
            KeyAction::Nothing
        },
        Key::Char(c) => {
            if !key.ctrl {
                push_char(&mut buf.input_buffer, c);
            } else if c == 'c' {
                nav.should_quit = true;
            }
            KeyAction::Nothing
        },
        Key::Backspace => {
            pop_char(&mut buf.input_buffer);
            KeyAction::Nothing
        },
        _ => KeyAction::Nothing,
    }
}

/// The authentication menu.
pub open spec fn auth_menu_step(o: NavState, ob: InputBuffers, key: KeyPress, n: NavState, nb: InputBuffers, a: KeyAction) -> bool {
    if is_char_key(key, '1') {
        a == KeyAction::StartWebLogin && n == o && bufs_kept(ob, nb)
    } else if is_char_key(key, '2') {
        a == KeyAction::Nothing && n == to_mode(o, InputMode::AuthToken) && input_only(
            ob,
            nb,
            Seq::empty(),
        )
    } else if is_quit(key) {
        a == KeyAction::Nothing && n == quitting(o) && bufs_kept(ob, nb)
    } else {
        a == KeyAction::Nothing && n == o && bufs_kept(ob, nb)
    }
}

/// The authentication menu: `1` starts a web login, `2` asks for a token,
/// `q` or Ctrl+C quits.
pub fn handle_auth_menu_key(nav: &mut NavState, buf: &mut InputBuffers, key: KeyPress) -> (a: KeyAction)
    ensures
        auth_menu_step(*old(nav), *old(buf), key, *final(nav), *final(buf), a),
{
    if char_key(key, '1') {
        KeyAction::StartWebLogin
    } else if char_key(key, '2') {
        nav.input_mode = InputMode::AuthToken;
        buf.input_buffer = String::new();
        KeyAction::Nothing
    } else if char_key(key, 'q') || char_key(key, 'Q') || (char_key(key, 'c') && key.ctrl) {
        nav.should_quit = true;
        KeyAction::Nothing
    } else {
        KeyAction::Nothing
    }
}

/// Typing an auth token.
pub open spec fn auth_token_step(o: NavState, ob: InputBuffers, key: KeyPress, n: NavState, nb: InputBuffers, a: KeyAction) -> bool {
    if key.key == Key::Enter {
        &&& n == o
        &&& input_only(ob, nb, Seq::empty())
        &&& if ob.input_buffer@.len() == 0 {
            a == KeyAction::Nothing
        } else {
            (a matches KeyAction::SubmitToken(t) && t@ == ob.input_buffer@)
        }
    } else if key.key == Key::Esc {
        a == KeyAction::Nothing && n == to_mode(o, InputMode::AuthMenu) && input_only(
            ob,
            nb,
            Seq::empty(),
        )
    } else {
        typing_step(o, ob, key, n, nb, a, true)
    }
}

/// Typing an auth token: Enter submits it (when not empty), Escape goes back
/// to the menu, Ctrl+C quits.
pub fn handle_auth_token_key(nav: &mut NavState, buf: &mut InputBuffers, key: KeyPress) -> (a: KeyAction)
    ensures
        auth_token_step(*old(nav), *old(buf), key, *final(nav), *final(buf), a),
{
    match key.key {
        Key::Enter => {
            let token = buf.input_buffer.clone();
            buf.input_buffer = String::new();
            let tc = chars_of(token.as_str());
            if tc.len() > 0 {
                KeyAction::SubmitToken(token)
            } else {
                KeyAction::Nothing
            }
        },
        Key::Esc => {
            buf.input_buffer = String::new();
            nav.input_mode = InputMode::AuthMenu;
            KeyAction::Nothing
        },
        Key::Char(c) => {
            if !key.ctrl {
                push_char(&mut buf.input_buffer, c);
            } else if c == 'c' {
                nav.should_quit = true;
            }
            KeyAction::Nothing
        },
        Key::Backspace => {
            pop_char(&mut buf.input_buffer);
            KeyAction::Nothing
        },
        _ => KeyAction::Nothing,
    }
}

/// `b` with its scroll offset set to `scroll`, the rest unchanged.
pub open spec fn scroll_only(ob: InputBuffers, nb: InputBuffers, scroll: int) -> bool {
    &&& nb.input_buffer@ == ob.input_buffer@
    &&& nb.password_stash == ob.password_stash
    &&& nb.scroll_offset == scroll
}

/// Waiting for a web login.
pub open spec fn auth_waiting_step(o: NavState, ob: InputBuffers, key: KeyPress, n: NavState, nb: InputBuffers, a: KeyAction) -> bool {
    if key.key == Key::Esc {
        a == KeyAction::Nothing && n == to_mode(o, InputMode::AuthMenu) && scroll_only(ob, nb, 0)
    } else if is_quit(key) {
        a == KeyAction::Nothing && n == quitting(o) && bufs_kept(ob, nb)
    } else if is_char_key(key, 'o') || is_char_key(key, 'O') {
        &&& n == o
        &&& bufs_kept(ob, nb)
        &&& match o.input_mode {
            InputMode::AuthWebWaiting(url) => (a matches KeyAction::OpenLoginUrl(u) && u@ == url@),
            _ => a == KeyAction::Nothing,
        }
    } else if key.key == Key::Up || is_char_key(key, 'k') {
        a == KeyAction::Nothing && n == o && scroll_only(
            ob,
            nb,
            if ob.scroll_offset > 0 {
                ob.scroll_offset - 1
            } else {
                0
            },
        )
    } else if key.key == Key::Down || is_char_key(key, 'j') {
        a == KeyAction::Nothing && n == o && scroll_only(
            ob,
            nb,
            if ob.scroll_offset < u16::MAX {
                ob.scroll_offset + 1
            } else {
                u16::MAX as int
            },
        )
    } else {
        a == KeyAction::Nothing && n == o && bufs_kept(ob, nb)
    }
}

/// Waiting for a web login: `o` opens the login URL, the arrows scroll,
/// Escape goes back to the menu, `q` or Ctrl+C quits.
pub fn handle_auth_waiting_key(nav: &mut NavState, buf: &mut InputBuffers, key: KeyPress) -> (a: KeyAction)
    ensures
        auth_waiting_step(*old(nav), *old(buf), key, *final(nav), *final(buf), a),
{
    if key.key == Key::Esc {
        buf.scroll_offset = 0;
        nav.input_mode = InputMode::AuthMenu;
        KeyAction::Nothing
    } else if char_key(key, 'q') || char_key(key, 'Q') || (char_key(key, 'c') && key.ctrl) {
        nav.should_quit = true;
        KeyAction::Nothing
    } else if char_key(key, 'o') || char_key(key, 'O') {
        match &nav.input_mode {
            InputMode::AuthWebWaiting(url) => KeyAction::OpenLoginUrl(url.clone()),
            _ => KeyAction::Nothing,
        }
    } else if key.key == Key::Up || char_key(key, 'k') {
        buf.scroll_offset = buf.scroll_offset.saturating_sub(1);
        KeyAction::Nothing
    } else if key.key == Key::Down || char_key(key, 'j') {
        buf.scroll_offset = buf.scroll_offset.saturating_add(1);
        KeyAction::Nothing
    } else {
        KeyAction::Nothing
    }
}

/// Typing a crypto password. On Enter the typed password is handed to an
/// unlock, or stashed for a setup whose hint comes next; either way the
/// buffer is emptied.
pub open spec fn password_step(o: NavState, ob: InputBuffers, key: KeyPress, n: NavState, nb: InputBuffers, a: KeyAction) -> bool {
    if key.key == Key::Enter {
        match o.input_mode {
            InputMode::PasswordPrompt(CryptoAction::Unlock) => {
                &&& (a matches KeyAction::UnlockCrypto(p) && p@ == ob.input_buffer@)
                &&& n == o
                &&& input_only(ob, nb, Seq::empty())
            },
            InputMode::PasswordPrompt(CryptoAction::Setup) => {
                &&& a == KeyAction::Nothing
                &&& n == to_mode(o, InputMode::HintPrompt)
                &&& nb.input_buffer@.len() == 0
                &&& (nb.password_stash matches Some(p) && p@ == ob.input_buffer@)
                &&& nb.scroll_offset == ob.scroll_offset
            },
            _ => a == KeyAction::Nothing && n == o && bufs_kept(ob, nb),
        }
    } else if key.key == Key::Esc {
        a == KeyAction::Nothing && n == to_normal(o) && input_only(ob, nb, Seq::empty())
    } else {
        typing_step(o, ob, key, n, nb, a, false)
    }
}

/// Typing a crypto password: Enter hands it over (unlock) or stashes it and
/// asks for a hint (setup), Escape cancels; the buffer that held it is wiped.
pub fn handle_password_key(nav: &mut NavState, buf: &mut InputBuffers, key: KeyPress) -> (a: KeyAction)
    ensures
        password_step(*old(nav), *old(buf), key, *final(nav), *final(buf), a),
{
    match key.key {
        Key::Enter => {
            let action = match &nav.input_mode {
                InputMode::PasswordPrompt(action) => *action,
                _ => {
                    return KeyAction::Nothing;
                },
            };
            let password = buf.input_buffer.clone();
            zeroize_string(&mut buf.input_buffer);
            match action {
                CryptoAction::Unlock => KeyAction::UnlockCrypto(password),
                CryptoAction::Setup => {
                    buf.password_stash = Some(password);
                    nav.input_mode = InputMode::HintPrompt;
                    buf.input_buffer = String::new();
                    KeyAction::Nothing
                },
            }
        },
        Key::Esc => {
            zeroize_string(&mut buf.input_buffer);
            nav.input_mode = InputMode::Normal;
            KeyAction::Nothing
        },
        Key::Char(c) => {
            push_char(&mut buf.input_buffer, c);
            KeyAction::Nothing
        },
        Key::Backspace => {
            pop_char(&mut buf.input_buffer);
            KeyAction::Nothing
        },
        _ => KeyAction::Nothing,
    }
}

/// Typing the hint of a crypto setup.
pub open spec fn hint_step(o: NavState, ob: InputBuffers, key: KeyPress, n: NavState, nb: InputBuffers, a: KeyAction) -> bool {
    if key.key == Key::Enter {
        &&& n == to_normal(o)
        &&& nb.input_buffer@.len() == 0
        &&& nb.password_stash is None
        &&& nb.scroll_offset == ob.scroll_offset
        &&& match ob.password_stash {
            Some(p) => (a matches KeyAction::SetupCrypto { password, hint } && password@ == p@
                && hint@ == ob.input_buffer@),
            None => a == KeyAction::Nothing,
        }
    } else if key.key == Key::Esc {
        &&& a == KeyAction::Nothing
        &&& n == to_normal(o)
        &&& nb.input_buffer@.len() == 0
        &&& nb.password_stash is None
        &&& nb.scroll_offset == ob.scroll_offset
    } else {
        typing_step(o, ob, key, n, nb, a, false)
    }
}

/// Typing the hint for a crypto setup: Enter sets crypto up with the stashed
/// password and this hint, Escape drops the stashed password.
pub fn handle_hint_key(nav: &mut NavState, buf: &mut InputBuffers, key: KeyPress) -> (a: KeyAction)
    ensures
        hint_step(*old(nav), *old(buf), key, *final(nav), *final(buf), a),
{
    match key.key {
        Key::Enter => {
            let hint = buf.input_buffer.clone();
            buf.input_buffer = String::new();
            let password = buf.password_stash.take();
            nav.input_mode = InputMode::Normal;
            match password {
                Some(pwd) => KeyAction::SetupCrypto { password: pwd, hint },
                None => KeyAction::Nothing,
            }
        },
        Key::Esc => {
            buf.input_buffer = String::new();
            buf.password_stash = None;
            nav.input_mode = InputMode::Normal;
            KeyAction::Nothing
        },
        Key::Char(c) => {
            push_char(&mut buf.input_buffer, c);
            KeyAction::Nothing
        },
        Key::Backspace => {
            pop_char(&mut buf.input_buffer);
            KeyAction::Nothing
        },
        _ => KeyAction::Nothing,
    }
}

/// A key press in normal mode: the view changes as `normal_key_step` says,
/// and the buffer is emptied when a backup path is about to be typed.
pub open spec fn normal_step(o: NavState, ob: InputBuffers, key: KeyPress, n: NavState, nb: InputBuffers, a: KeyAction) -> bool {
    let (s, na) = normal_key_step(o, key);
    &&& n == s
    &&& a == KeyAction::Normal(na)
    &&& if na == NormalAction::ClearInput {
        input_only(ob, nb, Seq::empty())
    } else {
        bufs_kept(ob, nb)
    }
}

/// What a key press does in the current input mode.
pub open spec fn key_step(o: NavState, ob: InputBuffers, key: KeyPress, n: NavState, nb: InputBuffers, a: KeyAction) -> bool {
    match o.input_mode {
        InputMode::Normal => normal_step(o, ob, key, n, nb, a),
        InputMode::AuthMenu => auth_menu_step(o, ob, key, n, nb, a),
        InputMode::AuthToken => auth_token_step(o, ob, key, n, nb, a),
        InputMode::AuthWebWaiting(_) => auth_waiting_step(o, ob, key, n, nb, a),
        InputMode::PasswordPrompt(_) => password_step(o, ob, key, n, nb, a),
        InputMode::HintPrompt => hint_step(o, ob, key, n, nb, a),
        InputMode::UnlinkConfirm => confirm_step(o, key, n, a, KeyAction::Unlink, true)
            && bufs_kept(ob, nb),
        InputMode::BackupAdd => backup_add_step(o, ob, key, n, nb, a),
        InputMode::BackupRemoveConfirm => confirm_step(o, key, n, a, remove_selected(o), false)
            && bufs_kept(ob, nb),
        InputMode::BackupStopDeviceConfirm => confirm_step(
            o,
            key,
            n,
            a,
            KeyAction::StopDeviceBackups,
            false,
        ) && bufs_kept(ob, nb),
    }
}

/// Handle a key press in the current input mode.
pub fn handle_key(nav: &mut NavState, buf: &mut InputBuffers, key: KeyPress) -> (a: KeyAction)
    ensures
        key_step(*old(nav), *old(buf), key, *final(nav), *final(buf), a),
{
    match nav.input_mode {
        InputMode::Normal => {
            let n = handle_normal_key(nav, key);
            if n == NormalAction::ClearInput {
                buf.input_buffer = String::new();
            }
            KeyAction::Normal(n)
        },
        InputMode::AuthMenu => handle_auth_menu_key(nav, buf, key),
        InputMode::AuthToken => handle_auth_token_key(nav, buf, key),
        InputMode::AuthWebWaiting(_) => handle_auth_waiting_key(nav, buf, key),
        InputMode::PasswordPrompt(_) => handle_password_key(nav, buf, key),
        InputMode::HintPrompt => handle_hint_key(nav, buf, key),
        InputMode::UnlinkConfirm => handle_unlink_confirm_key(nav, key),
        InputMode::BackupAdd => handle_backup_add_key(nav, buf, key),
        InputMode::BackupRemoveConfirm => handle_backup_remove_confirm_key(nav, key),
        InputMode::BackupStopDeviceConfirm => handle_backup_stop_confirm_key(nav, key),
    }
}

} // verus!
