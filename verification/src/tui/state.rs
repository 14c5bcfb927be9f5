//! View-state enums and list selection.
use vstd::prelude::*;

verus! {

/// Top-level screen / tab.
#[derive(Clone, Copy, Debug, PartialEq, Eq, Structural)]
pub enum Screen {
    Dashboard,
    Backups,
    Help,
    About,
}

/// Which panel currently has focus.
#[derive(Clone, Copy, Debug, PartialEq, Eq, Structural)]
pub enum Panel {
    Crypto,
    Transfers,
}

/// The panel after `p` in tab order.
pub open spec fn panel_next(p: Panel) -> Panel {
    match p {
        Panel::Crypto => Panel::Transfers,
        Panel::Transfers => Panel::Crypto,
    }
}

impl Panel {
    /// The next panel in tab order.
    pub fn next(&self) -> (r: Self)
        ensures
            r == panel_next(*self),
    {
        match self {
            Panel::Crypto => Panel::Transfers,
            Panel::Transfers => Panel::Crypto,
        }
    }

    /// The previous panel; with two panels it is the next one.
    pub fn prev(&self) -> (r: Self)
        ensures
            r == panel_next(*self),
    {
        self.next()
    }
}

/// Which element has focus on the About screen.
#[derive(Clone, Copy, Debug, PartialEq, Eq, Structural)]
pub enum AboutFocus {
    ClientBuild,
    PclsyncBuild,
    LicenseLink,
}

/// The About element after `f`, cycling.
pub open spec fn about_next(f: AboutFocus) -> AboutFocus {
    match f {
        AboutFocus::ClientBuild => AboutFocus::PclsyncBuild,
        AboutFocus::PclsyncBuild => AboutFocus::LicenseLink,
        AboutFocus::LicenseLink => AboutFocus::ClientBuild,
    }
}

impl AboutFocus {
    /// The next focusable element, cycling.
    pub fn next(&self) -> (r: Self)
        ensures
            r == about_next(*self),
    {
        match self {
            AboutFocus::ClientBuild => AboutFocus::PclsyncBuild,
            AboutFocus::PclsyncBuild => AboutFocus::LicenseLink,
            AboutFocus::LicenseLink => AboutFocus::ClientBuild,
        }
    }
}

/// Which crypto action a password is being collected for.
#[derive(Clone, Copy, Debug, PartialEq, Eq, Structural)]
pub enum CryptoAction {
    Unlock,
    Setup,
}

/// What the user is currently doing input-wise.
#[derive(Clone, Debug, PartialEq, Eq)]
pub enum InputMode {
    /// Normal dashboard navigation
    Normal,
    /// Auth method selection screen (press 1 or 2)
    AuthMenu,
    /// Typing/pasting auth token
    AuthToken,
    /// Waiting for web auth completion (holds the login URL)
    AuthWebWaiting(String),
    /// Collecting password for a crypto operation
    PasswordPrompt(CryptoAction),
    /// Collecting hint after password for crypto setup
    HintPrompt,
    /// Confirming account unlink (destructive)
    UnlinkConfirm,
    /// Typing the local folder path for a new backup
    BackupAdd,
    /// Confirming removal of the selected backup
    BackupRemoveConfirm,
    /// Confirming stopping ALL backups on this device (destructive)
    BackupStopDeviceConfirm,
}

/// Kind of transient status message.
#[derive(Clone, Copy, Debug, PartialEq, Eq, Structural)]
pub enum StatusMessageKind {
    Success,
    Error,
}

/// The selection kept when a list changes length: none for an empty list,
/// otherwise the old one (or the first row) moved into range.
pub open spec fn clamp_selection_spec(len: usize, selected: Option<usize>) -> Option<usize> {
    if len == 0 {
        None
    } else {
        match selected {
            Some(i) => Some(if i < len { i } else { (len - 1) as usize }),
            None => Some(0),
        }
    }
}

/// Clamp a list selection to a list of `len` rows.
///
/// Keeps a valid selection when the list shrinks/grows, and selects the
/// first row when the list becomes non-empty but nothing was selected.
pub fn clamp_selection(len: usize, selected: Option<usize>) -> (r: Option<usize>)
    ensures
        r == clamp_selection_spec(len, selected),
{
    if len == 0 {
        None
    } else {
        let i = match selected {
            Some(i) => i,
            None => 0,
        };
        Some(if i < len - 1 { i } else { len - 1 })
    }
}

/// A clamped selection is always a valid row (or none for an empty list).
pub proof fn law_clamped_selection_is_valid(len: usize, selected: Option<usize>)
    ensures
        match clamp_selection_spec(len, selected) {
            Some(i) => i < len,
            None => len == 0,
        },
{
}

/// The selected row of a list of `len` rows, if it is one.
pub open spec fn selected_row(len: usize, selected: Option<usize>) -> Option<usize> {
    match selected {
        Some(i) => if i < len {
            Some(i)
        } else {
            None
        },
        None => None,
    }
}

/// The selected row of a list of `len` rows, if the selection is one.
pub fn selected_index(len: usize, selected: Option<usize>) -> (r: Option<usize>)
    ensures
        r == selected_row(len, selected),
{
    match selected {
        Some(i) => if i < len {
            Some(i)
        } else {
            None
        },
        None => None,
    }
}

/// The unit a byte count is shown in: the largest of KB, MB, GB, TB (powers
/// of 1024) that it reaches, as its size in bytes and its label; plain bytes
/// below 1 KB.
pub open spec fn byte_scale_spec(bytes: u64) -> (u64, Seq<char>) {
    if bytes >= 1099511627776 {
        (1099511627776, "TB"@)
    } else if bytes >= 1073741824 {
        (1073741824, "GB"@)
    } else if bytes >= 1048576 {
        (1048576, "MB"@)
    } else if bytes >= 1024 {
        (1024, "KB"@)
    } else {
        (1, "B"@)
    }
}

/// The unit to show a byte count in, as its size in bytes and its label.
pub fn byte_scale(bytes: u64) -> (r: (u64, &'static str))
    ensures
        (r.0, r.1@) == byte_scale_spec(bytes),
{
    if bytes >= 1099511627776 {
        (1099511627776, "TB")
    } else if bytes >= 1073741824 {
        (1073741824, "GB")
    } else if bytes >= 1048576 {
        (1048576, "MB")
    } else if bytes >= 1024 {
        (1024, "KB")
    } else {
        (1, "B")
    }
}

} // verus!
