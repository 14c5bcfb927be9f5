//! Decisions behind the interactive authentication prompts.
//!
//! The terminal reading itself happens in the application; these functions
//! decide what a line (or, in raw mode, a byte) of input means.
use vstd::prelude::*;

use crate::text::{chars_of, eq_str, lowercase, lowercase_chars, string_from, trim, trim_chars};

verus! {

/// User's authentication method choice.
#[derive(Debug, Clone, Copy, PartialEq, Eq)]
pub enum AuthChoice {
    /// Web-based login (opens browser)
    WebLogin,
    /// Enter authentication token directly
    EnterToken,
    /// Show CLI parameter help
    ShowCliHelp,
    /// Cancel authentication
    Cancel,
}

/// What a line typed at the "Choice [1]:" prompt selects; `None` means the
/// input is invalid and the prompt repeats.
pub open spec fn auth_choice_spec(line: Seq<char>) -> Option<AuthChoice> {
    let t = trim(line);
    if t.len() == 0 {
        Some(AuthChoice::WebLogin)
    } else if t == "1"@ {
        Some(AuthChoice::WebLogin)
    } else if t == "2"@ {
        Some(AuthChoice::EnterToken)
    } else if t == "3"@ {
        Some(AuthChoice::ShowCliHelp)
    } else if t == "q"@ || t == "Q"@ || t == "quit"@ || t == "exit"@ || t == "cancel"@ {
        Some(AuthChoice::Cancel)
    } else {
        None
    }
}

/// Interpret one line read at the authentication menu prompt.
///
/// Empty input defaults to web login; `None` asks for the choice again.
pub fn auth_choice_for_input(line: &str) -> (r: Option<AuthChoice>)
    ensures
        r == auth_choice_spec(line@),
{
    let v = chars_of(line);
    let t = trim_chars(v.as_slice());
    let t = t.as_slice();
    if t.len() == 0 {
        Some(AuthChoice::WebLogin)
    } else if eq_str(t, "1") {
        Some(AuthChoice::WebLogin)
    } else if eq_str(t, "2") {
        Some(AuthChoice::EnterToken)
    } else if eq_str(t, "3") {
        Some(AuthChoice::ShowCliHelp)
    } else if eq_str(t, "q") || eq_str(t, "Q") || eq_str(t, "quit") || eq_str(t, "exit")
        || eq_str(t, "cancel") {
        Some(AuthChoice::Cancel)
    } else {
        None
    }
}

/// Whether a `[y/N]` answer confirms.
pub open spec fn confirms(line: Seq<char>) -> bool {
    let l = lowercase(trim(line));
    l == "y"@ || l == "yes"@
}

/// Interpret the answer to a `[y/N]` confirmation prompt.
pub fn confirmation_answer(line: &str) -> (r: bool)
    ensures
        r == confirms(line@),
{
    let v = chars_of(line);
    let t = trim_chars(v.as_slice());
    let l = lowercase_chars(t.as_slice());
    eq_str(l.as_slice(), "y") || eq_str(l.as_slice(), "yes")
}

/// What one byte does to a line being typed in raw terminal mode.
#[derive(Debug, Clone, Copy, PartialEq, Eq)]
pub enum RawLineEvent {
    /// Esc or Ctrl-C: the prompt is cancelled.
    Cancelled,
    /// Enter: the line is complete.
    Submitted,
    /// Backspace/DEL removed the last character.
    Erased,
    /// A printable byte was appended (and is echoed).
    Typed(char),
    /// Nothing changed.
    Ignored,
}

/// The event for byte `b` when the line so far is `input`.
pub open spec fn raw_line_event(input: Seq<char>, b: u8) -> RawLineEvent {
    if b == 0x1b || b == 0x03 {
        RawLineEvent::Cancelled
    } else if b == 0x0a || b == 0x0d {
        RawLineEvent::Submitted
    } else if b == 0x7f || b == 0x08 {
        if input.len() > 0 {
            RawLineEvent::Erased
        } else {
            RawLineEvent::Ignored
        }
    } else if b >= 0x20 {
        RawLineEvent::Typed(b as char)
    } else {
        RawLineEvent::Ignored
    }
}

/// Feed one byte of raw-mode input into the line buffer.
pub fn raw_line_step(input: &mut Vec<char>, b: u8) -> (ev: RawLineEvent)
    ensures
        ev == raw_line_event(old(input)@, b),
        final(input)@ == (match ev {
            RawLineEvent::Erased => old(input)@.drop_last(),
            RawLineEvent::Typed(c) => old(input)@.push(c),
            _ => old(input)@,
        }),
{
    if b == 0x1b || b == 0x03 {
        RawLineEvent::Cancelled
    } else if b == 0x0a || b == 0x0d {
        RawLineEvent::Submitted
    } else if b == 0x7f || b == 0x08 {
        if input.len() > 0 {
            input.pop();
            RawLineEvent::Erased
        } else {
            RawLineEvent::Ignored
        }
    } else if b >= 0x20 {
        let c = b as char;
        input.push(c);
        RawLineEvent::Typed(c)
    } else {
        RawLineEvent::Ignored
    }
}

/// Whether the name typed at a confirm-by-name prompt matches `dir_name`.
pub fn confirm_by_name_matches(typed: &str, dir_name: &str) -> (r: bool)
    ensures
        r == (typed@ == dir_name@),
{
    let t = chars_of(typed);
    eq_str(t.as_slice(), dir_name)
}

/// The help on non-interactive authentication shown from the auth menu.
pub open spec fn cli_auth_help_spec() -> Seq<char> {
    "\nCLI Authentication Options\n==========================\n\nToken authentication:\n  pcloud -t YOUR_AUTH_TOKEN\n\nEnvironment variables (for containers/automation):\n  PCLOUD_AUTH_TOKEN=<token> pcloud\n  PCLOUD_AUTH_TOKEN_FILE=/run/secrets/token pcloud\n  PCLOUD_CRYPTO_PASS=<password> pcloud\n  PCLOUD_CRYPTO_PASS_FILE=/run/secrets/crypto pcloud\n  PCLOUD_MOUNTPOINT=/mnt/pcloud pcloud\n\nCustom mount path:\n  pcloud -m /path/to/mount\n\nDon't save credentials:\n  pcloud --nosave\n\nRun as daemon:\n  pcloud -d\n\nLog out (clear saved credentials):\n  pcloud --logout\n\nUnlink account (clear all local data):\n  pcloud --unlink\n\nDefault mount path: ~/pCloud\n\n"@
}

/// The help on non-interactive authentication (tokens, environment
/// variables, mount path and account options).
pub fn cli_auth_help() -> (r: String)
    ensures
        r@ == cli_auth_help_spec(),
{
    string_from(
        "\nCLI Authentication Options\n==========================\n\nToken authentication:\n  pcloud -t YOUR_AUTH_TOKEN\n\nEnvironment variables (for containers/automation):\n  PCLOUD_AUTH_TOKEN=<token> pcloud\n  PCLOUD_AUTH_TOKEN_FILE=/run/secrets/token pcloud\n  PCLOUD_CRYPTO_PASS=<password> pcloud\n  PCLOUD_CRYPTO_PASS_FILE=/run/secrets/crypto pcloud\n  PCLOUD_MOUNTPOINT=/mnt/pcloud pcloud\n\nCustom mount path:\n  pcloud -m /path/to/mount\n\nDon't save credentials:\n  pcloud --nosave\n\nRun as daemon:\n  pcloud -d\n\nLog out (clear saved credentials):\n  pcloud --logout\n\nUnlink account (clear all local data):\n  pcloud --unlink\n\nDefault mount path: ~/pCloud\n\n",
    )
}

} // verus!
