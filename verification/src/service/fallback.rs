//! Per-user fallbacks for hosts without a recognized per-user init integration:
//! XDG autostart (`.desktop`, login) and a cron `@reboot` line (boot).
//!
//! These have no supervisor, so they launch the self-daemonizing `start` (not
//! `--foreground`).
use vstd::prelude::*;

use super::quote::{desktop_quote, desktop_quote_spec, sh_quote, sh_quote_spec};
use super::{ServiceBackend, ServiceConfig};
use crate::cli::args::{join_path, opt_view, path_join};
use crate::error::PCloudError;
use crate::text::{
    bool_text, chars_of, contains_str, has_substr, is_blank, occurs_at, join, join_chars, lines, push_char, push_chars,
    push_str, split_lines, string_from, trim, trim_end, trim_end_chars, views,
};

verus! {

/// Marker appended to the managed crontab line so it can be found and removed.
pub const CRON_TAG: &'static str = "# pcloud-cli service (managed)";

/// The view of `CRON_TAG`.
pub open spec fn cron_tag() -> Seq<char> {
    "# pcloud-cli service (managed)"@
}

/// The XDG autostart backend (login).
pub struct XdgAutostartBackend;

/// The `.desktop` autostart entry for `cfg`.
pub open spec fn desktop_entry_text(cfg: ServiceConfig) -> Seq<char> {
    "[Desktop Entry]\nType=Application\nName=pCloud\nComment=Start pCloud sync on login\nExec="@
        + desktop_quote_spec(cfg.exe@) + " start "@ + desktop_quote_spec(cfg.mountpoint@)
        + "\nTerminal=false\nX-GNOME-Autostart-enabled=true\n"@
}

impl XdgAutostartBackend {
    /// Render the `.desktop` autostart entry.
    pub fn render(&self, cfg: &ServiceConfig) -> (r: String)
        ensures
            r@ == desktop_entry_text(*cfg),
    {
        let mut s = string_from(
            "[Desktop Entry]\nType=Application\nName=pCloud\nComment=Start pCloud sync on login\nExec=",
        );
        let exe = desktop_quote(cfg.exe.as_str());
        let mount = desktop_quote(cfg.mountpoint.as_str());
        push_str(&mut s, exe.as_str());
        push_str(&mut s, " start ");
        push_str(&mut s, mount.as_str());
        push_str(&mut s, "\nTerminal=false\nX-GNOME-Autostart-enabled=true\n");
        s
    }
}

impl ServiceBackend for XdgAutostartBackend {
    fn describe(&self) -> (r: &'static str)
        ensures
            r@ == "XDG autostart (login)"@,
    {
        "XDG autostart (login)"
    }
}

/// Path of the autostart entry: `$HOME/.config/autostart/pcloud-cli.desktop`.
pub fn desktop_path(home: Option<&str>) -> (r: Result<String, PCloudError>)
    ensures
        match opt_view(home) {
            Some(h) => r matches Ok(s) && s@ == path_join(
                path_join(h, ".config/autostart"@),
                "pcloud-cli.desktop"@,
            ),
            None => r matches Err(PCloudError::Service(m)) && m@ == "HOME is not set"@,
        },
{
    match home {
        Some(h) => {
            let dir = join_path(h, ".config/autostart");
            Ok(join_path(dir.as_str(), "pcloud-cli.desktop"))
        },
        None => Err(PCloudError::Service(string_from("HOME is not set"))),
    }
}

/// The cron `@reboot` backend (boot).
pub struct CronBackend;

impl ServiceBackend for CronBackend {
    fn describe(&self) -> (r: &'static str)
        ensures
            r@ == "cron @reboot (boot)"@,
    {
        "cron @reboot (boot)"
    }
}

/// The managed crontab line for `cfg`.
pub open spec fn cron_line_spec(cfg: ServiceConfig) -> Seq<char> {
    "@reboot "@ + sh_quote_spec(cfg.exe@) + " start "@ + sh_quote_spec(cfg.mountpoint@) + " "@
        + cron_tag()
}

/// The managed crontab line for this config.
pub fn cron_line(cfg: &ServiceConfig) -> (r: String)
    ensures
        r@ == cron_line_spec(*cfg),
{
    let exe = sh_quote(cfg.exe.as_str());
    let mount = sh_quote(cfg.mountpoint.as_str());
    let mut s = string_from("@reboot ");
    push_str(&mut s, exe.as_str());
    push_str(&mut s, " start ");
    push_str(&mut s, mount.as_str());
    push_str(&mut s, " ");
    push_str(&mut s, CRON_TAG);
    s
}

/// The predicate "does not carry the managed tag".
pub open spec fn untagged() -> spec_fn(Seq<char>) -> bool {
    |l: Seq<char>| !has_substr(l, cron_tag())
}

/// A crontab body without its managed lines: the other lines, joined by
/// `'\n'`.
pub open spec fn strip_managed_spec(crontab: Seq<char>) -> Seq<char> {
    join(lines(crontab).filter(untagged()), "\n"@)
}

/// Filtering one more element appends it when it passes.
proof fn lemma_filter_step(s: Seq<Seq<char>>, pred: spec_fn(Seq<char>) -> bool, i: int)
    requires
        0 <= i < s.len(),
    ensures
        s.take(i + 1).filter(pred) == if pred(s[i]) {
            s.take(i).filter(pred).push(s[i])
        } else {
            s.take(i).filter(pred)
        },
{
    reveal(Seq::filter);
    assert(s.take(i + 1).drop_last() =~= s.take(i));
}

/// Remove any previously-managed lines from a crontab body.
pub fn strip_managed(crontab: &str) -> (r: String)
    ensures
        r@ == strip_managed_spec(crontab@),
{
    let cs = chars_of(crontab);
    let ls = split_lines(cs.as_slice());
    let ghost all = views(ls@);
    let ghost pred = untagged();
    let mut kept: Vec<Vec<char>> = Vec::new();
    for i in 0..ls.len()
        invariant
            all == views(ls@),
            all == lines(crontab@),
            pred == untagged(),
            views(kept@) == all.take(i as int).filter(pred),
    {
        proof {
            lemma_filter_step(all, pred, i as int);
        }
        let l = &ls[i];
        let tagged = contains_str(l.as_slice(), CRON_TAG);
        proof {
            reveal_strlit("# pcloud-cli service (managed)");
        }
        if !tagged {
            let ghost before = kept@;
            kept.push(l.clone());
            assert(views(kept@) =~= views(before).push(all[i as int]));
        }
    }
    assert(all.take(ls@.len() as int) =~= all);
    join_chars(&kept, "\n")
}

/// A text without newlines that occurs in neither `a` nor `b` does not occur
/// in `a`, a newline, and `b`.
proof fn lemma_absent_across_newline(a: Seq<char>, b: Seq<char>, t: Seq<char>)
    requires
        t.len() > 0,
        forall|j: int| 0 <= j < t.len() ==> t[j] != '\n',
        !has_substr(a, t),
        !has_substr(b, t),
    ensures
        !has_substr(a + "\n"@ + b, t),
{
    reveal_strlit("\n");
    let x = a + "\n"@ + b;
    let n = a.len() as int;
    assert forall|i: int| !occurs_at(x, t, i) by {
        if occurs_at(x, t, i) {
            let e = i + t.len();
            if e <= n {
                assert(a.subrange(i, e) =~= x.subrange(i, e));
                assert(occurs_at(a, t, i));
            } else if i > n {
                assert(b.subrange(i - n - 1, e - n - 1) =~= x.subrange(i, e));
                assert(occurs_at(b, t, i - n - 1));
            } else {
                assert(x[n] == '\n');
                assert(x.subrange(i, e)[n - i] == x[n]);
                assert(t[n - i] == '\n');
            }
        }
    }
}

/// Lines that do not carry the tag, joined by newlines, do not carry it.
proof fn lemma_join_untagged(ls: Seq<Seq<char>>)
    requires
        forall|j: int| 0 <= j < ls.len() ==> !has_substr(#[trigger] ls[j], cron_tag()),
    ensures
        !has_substr(join(ls, "\n"@), cron_tag()),
    decreases ls.len(),
{
    reveal_strlit("# pcloud-cli service (managed)");
    if ls.len() == 0 {
        assert(!occurs_at(Seq::<char>::empty(), cron_tag(), 0));
    } else if ls.len() == 1 {
        assert(!has_substr(ls[0], cron_tag()));
    } else {
        lemma_join_untagged(ls.drop_last());
        assert(!has_substr(ls[ls.len() - 1], cron_tag()));
        lemma_absent_across_newline(join(ls.drop_last(), "\n"@), ls.last(), cron_tag());
    }
}

/// Removing the managed lines leaves no managed tag in the crontab.
pub proof fn law_strip_managed_leaves_no_tag(crontab: Seq<char>)
    ensures
        !has_substr(strip_managed_spec(crontab), cron_tag()),
{
    let kept = lines(crontab).filter(untagged());
    assert forall|j: int| 0 <= j < kept.len() implies !has_substr(#[trigger] kept[j], cron_tag()) by {
        lines(crontab).lemma_filter_pred(untagged(), j);
    }
    lemma_join_untagged(kept);
}

/// The crontab installed for `cfg` over the current one: its unmanaged
/// lines, a newline if they do not end in one, then the managed line.
pub open spec fn cron_install_body_spec(crontab: Seq<char>, cfg: ServiceConfig) -> Seq<char> {
    let b = strip_managed_spec(crontab);
    let b = if b.len() > 0 && b.last() != '\n' {
        b.push('\n')
    } else {
        b
    };
    b + cron_line_spec(cfg) + "\n"@
}

/// The crontab to install for `cfg`, given the current one.
pub fn cron_install_body(crontab: &str, cfg: &ServiceConfig) -> (r: String)
    ensures
        r@ == cron_install_body_spec(crontab@, *cfg),
{
    let mut body = strip_managed(crontab);
    let bc = chars_of(body.as_str());
    if bc.len() > 0 && bc[bc.len() - 1] != '\n' {
        push_char(&mut body, '\n');
    }
    let line = cron_line(cfg);
    push_str(&mut body, line.as_str());
    push_char(&mut body, '\n');
    proof {
        reveal_strlit("\n");
    }
    body
}

/// The crontab left after removing the managed line: empty when nothing but
/// whitespace remains, otherwise the rest with one final newline.
pub open spec fn cron_uninstall_body_spec(crontab: Seq<char>) -> Seq<char> {
    let b = strip_managed_spec(crontab);
    if trim(b).len() == 0 {
        Seq::empty()
    } else {
        trim_end(b) + "\n"@
    }
}

/// The crontab to install when removing the managed line.
pub fn cron_uninstall_body(crontab: &str) -> (r: String)
    ensures
        r@ == cron_uninstall_body_spec(crontab@),
{
    let body = strip_managed(crontab);
    let bc = chars_of(body.as_str());
    if is_blank(bc.as_slice()) {
        String::new()
    } else {
        let t = trim_end_chars(bc.as_slice());
        let mut r = String::new();
        push_chars(&mut r, t.as_slice());
        push_char(&mut r, '\n');
        proof {
            reveal_strlit("\n");
        }
        r
    }
}

/// Whether a crontab carries the managed line.
pub fn cron_installed(crontab: &str) -> (r: bool)
    ensures
        r == has_substr(crontab@, cron_tag()),
{
    let cs = chars_of(crontab);
    proof {
        reveal_strlit("# pcloud-cli service (managed)");
    }
    contains_str(cs.as_slice(), CRON_TAG)
}

/// The daemon part of a fallback status line.
pub open spec fn running_text(running: bool) -> Seq<char> {
    if running {
        "daemon running"@
    } else {
        "daemon not running"@
    }
}

/// The XDG autostart status line: `"autostart entry=<installed>, <daemon>"`.
pub fn xdg_status_line(installed: bool, running: bool) -> (r: String)
    ensures
        r@ == "autostart entry="@ + bool_text(installed) + ", "@ + running_text(running),
{
    let mut s = string_from("autostart entry=");
    push_str(&mut s, if installed { "true" } else { "false" });
    push_str(&mut s, ", ");
    push_str(&mut s, if running { "daemon running" } else { "daemon not running" });
    s
}

/// The cron status line: `"@reboot entry=<installed>, <daemon>"`.
pub fn cron_status_line(installed: bool, running: bool) -> (r: String)
    ensures
        r@ == "@reboot entry="@ + bool_text(installed) + ", "@ + running_text(running),
{
    let mut s = string_from("@reboot entry=");
    push_str(&mut s, if installed { "true" } else { "false" });
    push_str(&mut s, ", ");
    push_str(&mut s, if running { "daemon running" } else { "daemon not running" });
    s
}

} // verus!
