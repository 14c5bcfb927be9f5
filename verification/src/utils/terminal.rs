//! Terminal formatting: boxes drawn around text and status indicators.
//!
//! Whether the terminal takes Unicode and how wide it is are read by the
//! caller (from the locale variables and the terminal) and passed in.
use vstd::prelude::*;

use crate::text::{
    chars_of, has_substr, lowercase, push_char, push_chars, push_repeat, push_str, repeat,
    slice_chars, str_to_lowercase,
};

verus! {

/// Status indicator types for terminal output.
#[derive(Debug, Clone, Copy, PartialEq, Eq, Structural)]
pub enum StatusIndicator {
    /// Informational message `[*]`
    Info,
    /// Success message `[+]` (or checkmark if unicode supported)
    Success,
    /// Error message `[-]` (or X if unicode supported)
    Error,
    /// Warning message `[!]`
    Warning,
    /// Progress/waiting message `[~]`
    Progress,
}

/// The ASCII form of an indicator.
pub open spec fn ascii_text(i: StatusIndicator) -> Seq<char> {
    match i {
        StatusIndicator::Info => "[*]"@,
        StatusIndicator::Success => "[+]"@,
        StatusIndicator::Error => "[-]"@,
        StatusIndicator::Warning => "[!]"@,
        StatusIndicator::Progress => "[~]"@,
    }
}

/// The Unicode form of an indicator.
pub open spec fn unicode_text(i: StatusIndicator) -> Seq<char> {
    match i {
        StatusIndicator::Info => "[*]"@,
        StatusIndicator::Success => "[\u{2713}]"@,
        StatusIndicator::Error => "[\u{2717}]"@,
        StatusIndicator::Warning => "[!]"@,
        StatusIndicator::Progress => "[~]"@,
    }
}

impl StatusIndicator {
    /// The ASCII representation of the indicator.
    pub fn as_ascii(&self) -> (r: &'static str)
        ensures
            r@ == ascii_text(*self),
    {
        match self {
            StatusIndicator::Info => "[*]",
            StatusIndicator::Success => "[+]",
            StatusIndicator::Error => "[-]",
            StatusIndicator::Warning => "[!]",
            StatusIndicator::Progress => "[~]",
        }
    }

    /// The Unicode representation of the indicator.
    pub fn as_unicode(&self) -> (r: &'static str)
        ensures
            r@ == unicode_text(*self),
    {
        match self {
            StatusIndicator::Info => "[*]",
            StatusIndicator::Success => "[\u{2713}]",
            StatusIndicator::Error => "[\u{2717}]",
            StatusIndicator::Warning => "[!]",
            StatusIndicator::Progress => "[~]",
        }
    }

    /// The indicator for a terminal that does (`unicode`) or does not take
    /// Unicode.
    pub fn as_str(&self, unicode: bool) -> (r: &'static str)
        ensures
            r@ == if unicode {
                unicode_text(*self)
            } else {
                ascii_text(*self)
            },
    {
        if unicode {
            self.as_unicode()
        } else {
            self.as_ascii()
        }
    }
}

/// A locale value names UTF-8 when, lowercased, it contains `utf`.
pub open spec fn names_utf(v: Option<Seq<char>>) -> bool {
    match v {
        Some(s) => has_substr(lowercase(s), "utf"@),
        None => false,
    }
}

/// Whether a locale variable's value names UTF-8.
fn locale_names_utf(v: Option<&str>) -> (r: bool)
    ensures
        r == names_utf(crate::cli::args::opt_view(v)),
{
    match v {
        Some(s) => {
            let l = str_to_lowercase(s);
            let lc = chars_of(l.as_str());
            crate::text::contains_str(lc.as_slice(), "utf")
        },
        None => false,
    }
}

/// Whether the terminal likely supports Unicode, from `LANG`, `LC_ALL` and
/// `LC_CTYPE` (any of them naming UTF-8); ASCII otherwise.
pub fn supports_unicode(lang: Option<&str>, lc_all: Option<&str>, lc_ctype: Option<&str>) -> (r: bool)
    ensures
        r == (names_utf(crate::cli::args::opt_view(lang)) || names_utf(
            crate::cli::args::opt_view(lc_all),
        ) || names_utf(crate::cli::args::opt_view(lc_ctype))),
{
    locale_names_utf(lang) || locale_names_utf(lc_all) || locale_names_utf(lc_ctype)
}

/// The characters a box is drawn with.
#[derive(Debug, Clone, Copy, PartialEq, Eq, Structural)]
pub struct BoxChars {
    pub top_left: char,
    pub top_right: char,
    pub bottom_left: char,
    pub bottom_right: char,
    pub horizontal: char,
    pub vertical: char,
}

/// Rounded Unicode corners and lines, or `+`, `-` and `|`.
pub open spec fn box_chars_spec(unicode: bool) -> BoxChars {
    if unicode {
        BoxChars {
            top_left: '\u{256D}',
            top_right: '\u{256E}',
            bottom_left: '\u{2570}',
            bottom_right: '\u{256F}',
            horizontal: '\u{2500}',
            vertical: '\u{2502}',
        }
    } else {
        BoxChars {
            top_left: '+',
            top_right: '+',
            bottom_left: '+',
            bottom_right: '+',
            horizontal: '-',
            vertical: '|',
        }
    }
}

/// The characters for drawing boxes.
pub fn box_chars(unicode: bool) -> (r: BoxChars)
    ensures
        r == box_chars_spec(unicode),
{
    if unicode {
        BoxChars {
            top_left: '\u{256D}',
            top_right: '\u{256E}',
            bottom_left: '\u{2570}',
            bottom_right: '\u{256F}',
            horizontal: '\u{2500}',
            vertical: '\u{2502}',
        }
    } else {
        BoxChars {
            top_left: '+',
            top_right: '+',
            bottom_left: '+',
            bottom_right: '+',
            horizontal: '-',
            vertical: '|',
        }
    }
}

/// The views of a list of string slices.
pub open spec fn str_views(lines: Seq<&str>) -> Seq<Seq<char>> {
    Seq::new(lines.len(), |i: int| lines[i]@)
}

/// The length of the longest line (0 for none).
pub open spec fn max_len(ls: Seq<Seq<char>>) -> nat
    decreases ls.len(),
{
    if ls.len() == 0 {
        0
    } else {
        let m = max_len(ls.drop_last());
        if ls.last().len() > m {
            ls.last().len()
        } else {
            m
        }
    }
}

/// `a - b`, or 0 when `b > a`.
pub open spec fn sat_sub(a: nat, b: nat) -> nat {
    if a >= b {
        (a - b) as nat
    } else {
        0
    }
}

/// Width of the text column: the longest line, capped at the terminal width
/// less a margin of 4.
pub open spec fn content_width(ls: Seq<Seq<char>>, term_width: nat) -> nat {
    let m = max_len(ls);
    let cap = sat_sub(term_width, 4);
    if m < cap {
        m
    } else {
        cap
    }
}

/// A line as shown in a column of width `w`: cut to `w - 3` characters and
/// `...` when longer.
pub open spec fn display_line(l: Seq<char>, w: nat) -> Seq<char> {
    if l.len() > w {
        l.take(w - 3) + "..."@
    } else {
        l
    }
}

/// One row of the box.
pub open spec fn box_row(l: Seq<char>, w: nat, c: BoxChars) -> Seq<char> {
    let d = display_line(l, w);
    seq![c.vertical] + "  "@ + d + repeat(' ', sat_sub(w, d.len())) + "  "@ + seq![c.vertical, '\n']
}

/// The rows for `ls`, in order.
pub open spec fn box_rows(ls: Seq<Seq<char>>, w: nat, c: BoxChars) -> Seq<char>
    decreases ls.len(),
{
    if ls.len() == 0 {
        Seq::empty()
    } else {
        box_rows(ls.drop_last(), w, c) + box_row(ls.last(), w, c)
    }
}

/// A top or bottom border: a corner, `w + 4` lines and a corner.
pub open spec fn border(left: char, h: char, right: char, w: nat) -> Seq<char> {
    seq![left] + repeat(h, w + 4) + seq![right, '\n']
}

/// The boxed text: nothing for no lines; otherwise a top border, one row per
/// line and a bottom border.
pub open spec fn boxed_text(ls: Seq<Seq<char>>, term_width: nat, unicode: bool) -> Seq<char> {
    let w = content_width(ls, term_width);
    let c = box_chars_spec(unicode);
    if ls.len() == 0 {
        Seq::empty()
    } else {
        border(c.top_left, c.horizontal, c.top_right, w) + box_rows(ls, w, c) + border(
            c.bottom_left,
            c.horizontal,
            c.bottom_right,
            w,
        )
    }
}

/// Lines longer than the column can be cut only if the column holds the
/// `...` that marks the cut.
pub open spec fn boxable(ls: Seq<Seq<char>>, term_width: nat) -> bool {
    forall|i: int| 0 <= i < ls.len() && #[trigger] ls[i].len() > content_width(ls, term_width)
        ==> content_width(ls, term_width) >= 3
}

/// Format text inside a box drawn with `+`, `-`, `|` (or rounded Unicode
/// lines when `unicode`), as wide as the longest line but no wider than the
/// terminal less a margin; longer lines are cut and end in `...`.
#[verifier::spinoff_prover]
#[verifier::rlimit(30)]
pub fn format_boxed(lines: &[&str], term_width: usize, unicode: bool) -> (r: String)
    requires
        boxable(str_views(lines@), term_width as nat),
    ensures
        r@ == boxed_text(str_views(lines@), term_width as nat, unicode),
{
    let ghost ls = str_views(lines@);
    if lines.len() == 0 {
        return String::new();
    }
    let max_box_width: usize = if term_width >= 4 {
        term_width - 4
    } else {
        0
    };
    let mut max_line_len: usize = 0;
    for i in 0..lines.len()
        invariant
            ls == str_views(lines@),
            max_line_len == max_len(ls.take(i as int)),
    {
        let n = chars_of(lines[i]).len();
        assert(ls.take(i + 1).drop_last() =~= ls.take(i as int));
        if n > max_line_len {
            max_line_len = n;
        }
    }
    assert(ls.take(lines@.len() as int) =~= ls);
    let w: usize = if max_line_len < max_box_width {
        max_line_len
    } else {
        max_box_width
    };
    assert(w == content_width(ls, term_width as nat));
    let c = box_chars(unicode);
    let mut out = String::new();
    push_char(&mut out, c.top_left);
    push_repeat(&mut out, c.horizontal, w + 4);
    push_char(&mut out, c.top_right);
    push_char(&mut out, '\n');
    assert(out@ =~= border(c.top_left, c.horizontal, c.top_right, w as nat));
    let ghost top = out@;
    for i in 0..lines.len()
        invariant
            ls == str_views(lines@),
            w == content_width(ls, term_width as nat),
            boxable(ls, term_width as nat),
            c == box_chars_spec(unicode),
            out@ == top + box_rows(ls.take(i as int), w as nat, c),
    {
        assert(ls.take(i + 1).drop_last() =~= ls.take(i as int));
        let ghost before = out@;
        let l = chars_of(lines[i]);
        assert(l@ == ls[i as int]);
        push_char(&mut out, c.vertical);
        push_str(&mut out, "  ");
        let shown: usize;
        if l.len() > w {
            let cut = slice_chars(l.as_slice(), 0, w - 3);
            push_chars(&mut out, cut.as_slice());
            push_str(&mut out, "...");
            proof {
                reveal_strlit("...");
                assert(cut@ =~= l@.take(w - 3));
            }
            shown = w;
        } else {
            push_chars(&mut out, l.as_slice());
            shown = l.len();
        }
        push_repeat(&mut out, ' ', w - shown);
        push_str(&mut out, "  ");
        push_char(&mut out, c.vertical);
        push_char(&mut out, '\n');
        assert(out@ =~= before + box_row(ls[i as int], w as nat, c));
    }
    assert(ls.take(lines@.len() as int) =~= ls);
    push_char(&mut out, c.bottom_left);
    push_repeat(&mut out, c.horizontal, w + 4);
    push_char(&mut out, c.bottom_right);
    push_char(&mut out, '\n');
    out
}

/// A line holding `text` centred in `width` columns: half of the free
/// columns (rounded down) as leading spaces, or `text` alone when it does not
/// fit.
pub open spec fn centered(text: Seq<char>, width: nat) -> Seq<char> {
    if text.len() >= width {
        text
    } else {
        repeat(' ', ((width - text.len()) / 2) as nat) + text
    }
}

/// The line that centres `text` on a terminal `term_width` columns wide.
pub fn centered_line(text: &str, term_width: usize) -> (r: String)
    ensures
        r@ == centered(text@, term_width as nat),
{
    let n = chars_of(text).len();
    let mut out = String::new();
    if n >= term_width {
        push_str(&mut out, text);
    } else {
        push_repeat(&mut out, ' ', (term_width - n) / 2);
        push_str(&mut out, text);
    }
    out
}

/// The character a horizontal rule is drawn with.
pub open spec fn rule_char(unicode: bool) -> char {
    if unicode {
        '\u{2500}'
    } else {
        '-'
    }
}

/// A horizontal rule across a terminal `term_width` columns wide, drawn with
/// a box-drawing line where the terminal takes Unicode and `-` otherwise.
pub fn horizontal_line(term_width: usize, unicode: bool) -> (r: String)
    ensures
        r@ == repeat(rule_char(unicode), term_width as nat),
{
    let c = if unicode {
        '\u{2500}'
    } else {
        '-'
    };
    let mut out = String::new();
    push_repeat(&mut out, c, term_width);
    out
}

/// Every row of a box is exactly as wide as its borders: `w + 6` characters
/// and a newline.
pub proof fn law_box_rows_have_border_width(l: Seq<char>, w: nat, c: BoxChars)
    requires
        l.len() > w ==> w >= 3,
    ensures
        box_row(l, w, c).len() == w + 7,
        border(c.top_left, c.horizontal, c.top_right, w).len() == w + 7,
{
    reveal_strlit("  ");
    reveal_strlit("...");
}

} // verus!
