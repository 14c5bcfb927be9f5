//! Opening URLs in the user's browser.
//!
//! Only `http://` and `https://` URLs are opened. On Linux the openers are
//! tried in order (`xdg-open` first, then common browsers); the first one that
//! starts wins, a missing one is skipped, and any other launch failure ends
//! the attempt. The caller launches the processes.
use vstd::prelude::*;

use crate::text::{chars_of, has_prefix, starts_with, string_from};

verus! {

/// A URL that may be handed to a browser.
pub open spec fn is_web_url_spec(url: Seq<char>) -> bool {
    has_prefix(url, "http://"@) || has_prefix(url, "https://"@)
}

/// The message for a URL that is not `http://` or `https://`.
pub open spec fn invalid_url_message() -> Seq<char> {
    "URL must start with http:// or https://"@
}

/// Check that `url` starts with `http://` or `https://`.
pub fn validate_url(url: &str) -> (r: Result<(), String>)
    ensures
        is_web_url_spec(url@) ==> r is Ok,
        !is_web_url_spec(url@) ==> (r matches Err(m) && m@ == invalid_url_message()),
{
    let u = chars_of(url);
    let http = chars_of("http://");
    let https = chars_of("https://");
    if !starts_with(u.as_slice(), http.as_slice()) && !starts_with(u.as_slice(), https.as_slice()) {
        return Err(string_from("URL must start with http:// or https://"));
    }
    Ok(())
}

/// The openers tried on Linux, in order.
pub open spec fn opener_list() -> Seq<Seq<char>> {
    seq![
        "xdg-open"@,
        "x-www-browser"@,
        "gnome-open"@,
        "kde-open"@,
        "firefox"@,
        "chromium"@,
        "google-chrome"@,
    ]
}

/// The openers tried on Linux, in order: `xdg-open`, then common browsers.
pub fn opener_commands() -> (r: Vec<&'static str>)
    ensures
        r@.len() == opener_list().len(),
        forall|i: int| 0 <= i < r@.len() ==> #[trigger] r@[i]@ == opener_list()[i],
{
    let mut v: Vec<&'static str> = Vec::new();
    v.push("xdg-open");
    v.push("x-www-browser");
    v.push("gnome-open");
    v.push("kde-open");
    v.push("firefox");
    v.push("chromium");
    v.push("google-chrome");
    v
}

/// How launching one opener went.
#[derive(Debug, Clone, PartialEq, Eq)]
pub enum LaunchOutcome {
    /// The process started.
    Started,
    /// No such command.
    NotFound,
    /// Launching failed otherwise (the error's text).
    Failed(String),
}

/// What one launch decides: `Some` ends the attempt with that result,
/// `None` moves on to the next opener.
pub open spec fn verdict_spec(o: LaunchOutcome) -> Option<Result<bool, Seq<char>>> {
    match o {
        LaunchOutcome::Started => Some(Ok(true)),
        LaunchOutcome::NotFound => None,
        LaunchOutcome::Failed(e) => Some(Err(e@)),
    }
}

/// The verdict of one launch: started ends with `Ok(true)`, a failure ends
/// with its error, a missing command moves on.
pub fn launch_verdict(o: LaunchOutcome) -> (r: Option<Result<bool, String>>)
    ensures
        match verdict_spec(o) {
            Some(Ok(b)) => r == Some(Ok::<bool, String>(b)),
            Some(Err(e)) => (r matches Some(Err(m)) && m@ == e),
            None => r is None,
        },
{
    match o {
        LaunchOutcome::Started => Some(Ok(true)),
        LaunchOutcome::NotFound => None,
        LaunchOutcome::Failed(e) => Some(Err(e)),
    }
}

/// The result of trying the openers whose launches went as `outcomes`, in
/// order: the first launch that starts or fails decides; when every opener
/// is missing the URL was not opened (`Ok(false)`).
pub open spec fn open_result_spec(outcomes: Seq<LaunchOutcome>) -> Result<bool, Seq<char>>
    decreases outcomes.len(),
{
    if outcomes.len() == 0 {
        Ok(false)
    } else {
        match verdict_spec(outcomes[0]) {
            Some(v) => v,
            None => open_result_spec(outcomes.drop_first()),
        }
    }
}

/// The result of opening a URL, given how the launches of the openers went
/// (in the order of `opener_commands`, up to the first one that decided).
pub fn open_result(outcomes: &[LaunchOutcome]) -> (r: Result<bool, String>)
    ensures
        match open_result_spec(outcomes@) {
            Ok(b) => r == Ok::<bool, String>(b),
            Err(e) => (r matches Err(m) && m@ == e),
        },
{
    let mut i: usize = 0;
    assert(outcomes@.skip(0) =~= outcomes@);
    while i < outcomes.len()
        invariant
            i <= outcomes.len(),
            open_result_spec(outcomes@) == open_result_spec(outcomes@.skip(i as int)),
        decreases outcomes.len() - i,
    {
        let ghost rest = outcomes@.skip(i as int);
        assert(rest[0] == outcomes@[i as int]);
        assert(rest.drop_first() =~= outcomes@.skip(i + 1));
        match &outcomes[i] {
            LaunchOutcome::Started => {
                return Ok(true);
            },
            LaunchOutcome::NotFound => {},
            LaunchOutcome::Failed(e) => {
                return Err(e.clone());
            },
        }
        i = i + 1;
    }
    assert(outcomes@.skip(i as int) =~= Seq::<LaunchOutcome>::empty());
    Ok(false)
}

/// Whether a graphical display is available, from the session: an X11
/// `DISPLAY`, a Wayland display, a macOS terminal program
/// (`macos_gui_terminal`: on macOS with `TERM_PROGRAM` set), Windows, or a
/// session type other than `tty`.
pub fn has_display(
    display_set: bool,
    wayland_set: bool,
    macos_gui_terminal: bool,
    windows: bool,
    session_type: Option<&str>,
) -> (r: bool)
    ensures
        r == (display_set || wayland_set || macos_gui_terminal || windows || match session_type {
            Some(t) => t@ != "tty"@,
            None => false,
        }),
{
    if display_set {
        return true;
    }
    if wayland_set {
        return true;
    }
    if macos_gui_terminal {
        return true;
    }
    if windows {
        return true;
    }
    match session_type {
        Some(t) => {
            let tc = chars_of(t);
            !crate::text::eq_str(tc.as_slice(), "tty")
        },
        None => false,
    }
}

} // verus!
