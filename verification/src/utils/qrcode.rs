//! QR codes for terminal display.
//!
//! Encoding is done by the `qrcode` crate. `generate_qr_code` uses its
//! compact Unicode half-block renderer; `generate_qr_code_ascii` draws the
//! modules itself with `#` for dark and spaces for light, two characters per
//! module, for terminals that only show ASCII.
use vstd::prelude::*;

use crate::text::{push_char, push_repeat, push_str, repeat, string_from};
use vstd::string::StringSliceAdditionalSpecFns;

verus! {

/// The QR code `qrcode::QrCode::new` builds for `data`: its width in modules
/// and, row by row, whether each module is dark; or the text of its error.
pub uninterp spec fn qr_encoding(data: Seq<u8>) -> Result<(usize, Seq<bool>), Seq<char>>;

/// The image the `qrcode` crate's `Dense1x2` renderer draws for `data`
/// (colors inverted, with quiet zone, one character per module column and
/// two module rows per line); or the text of the encoding error.
pub uninterp spec fn qr_dense_image(data: Seq<u8>) -> Result<Seq<char>, Seq<char>>;

/// Encodes `data` with `qrcode::QrCode::new` and reads back the width
/// (`QrCode::width`) and the module colors (`QrCode::to_colors`, dark as
/// `true`). The crate builds the modules on a square canvas, so there are
/// `width * width` of them, row by row.
#[verifier::external_body]
fn encode_qr(data: &[u8]) -> (r: Result<(usize, Vec<bool>), String>)
    ensures
        match r {
            Ok((w, m)) => qr_encoding(data@) == Ok::<(usize, Seq<bool>), Seq<char>>((w, m@))
                && m@.len() == w * w,
            Err(e) => qr_encoding(data@) == Err::<(usize, Seq<bool>), Seq<char>>(e@),
        },
{
    match qrcode::QrCode::new(data) {
        Ok(code) => Ok(
            (code.width(), code.to_colors().iter().map(|c| *c == qrcode::Color::Dark).collect()),
        ),
        Err(e) => Err(e.to_string()),
    }
}

/// Encodes `data` with `qrcode::QrCode::new` and renders it with the
/// crate's `Dense1x2` renderer (dark and light swapped, quiet zone on,
/// module size 1x1); the error's text when encoding fails.
#[verifier::external_body]
fn render_qr_dense(data: &[u8]) -> (r: Result<String, String>)
    ensures
        match r {
            Ok(s) => qr_dense_image(data@) == Ok::<Seq<char>, Seq<char>>(s@),
            Err(e) => qr_dense_image(data@) == Err::<Seq<char>, Seq<char>>(e@),
        },
{
    match qrcode::QrCode::new(data) {
        Ok(code) => Ok(
            code.render::<qrcode::render::unicode::Dense1x2>().dark_color(
                qrcode::render::unicode::Dense1x2::Light,
            ).light_color(qrcode::render::unicode::Dense1x2::Dark).quiet_zone(true).module_dimensions(
                1,
                1,
            ).build(),
        ),
        Err(e) => Err(e.to_string()),
    }
}

/// Errors that can occur during QR code generation.
#[derive(Debug)]
pub enum QrCodeError {
    /// Data could not be encoded into a QR code
    EncodingError(String),
    /// QR code is too large for the terminal
    TooLarge,
    /// Terminal doesn't support QR code display
    NotSupported,
}

/// The message of a QR error.
pub open spec fn qr_error_message(e: QrCodeError) -> Seq<char> {
    match e {
        QrCodeError::EncodingError(m) => "QR encoding error: "@ + m@,
        QrCodeError::TooLarge => "QR code too large for terminal"@,
        QrCodeError::NotSupported => "Terminal doesn't support QR code display"@,
    }
}

impl QrCodeError {
    /// The error message.
    pub fn to_string(&self) -> (r: String)
        ensures
            r@ == qr_error_message(*self),
    {
        match self {
            QrCodeError::EncodingError(m) => {
                let mut s = string_from("QR encoding error: ");
                push_str(&mut s, m.as_str());
                s
            },
            QrCodeError::TooLarge => string_from("QR code too large for terminal"),
            QrCodeError::NotSupported => string_from("Terminal doesn't support QR code display"),
        }
    }
}

/// The result of a QR rendering: the image, or the encoding error.
pub open spec fn qr_result_spec(r: Result<Seq<char>, Seq<char>>, out: Result<String, QrCodeError>) -> bool {
    match r {
        Ok(s) => out matches Ok(t) && t@ == s,
        Err(e) => out matches Err(QrCodeError::EncodingError(m)) && m@ == e,
    }
}

/// Turn a renderer's outcome into the result of QR generation.
pub fn qr_result(r: Result<String, String>) -> (out: Result<String, QrCodeError>)
    ensures
        qr_result_spec(
            match r {
                Ok(s) => Ok::<Seq<char>, Seq<char>>(s@),
                Err(e) => Err::<Seq<char>, Seq<char>>(e@),
            },
            out,
        ),
{
    match r {
        Ok(s) => Ok(s),
        Err(e) => Err(QrCodeError::EncodingError(e)),
    }
}

/// Generate a QR code for `data` (typically a URL) as compact Unicode
/// half-block art.
pub fn generate_qr_code(data: &str) -> (r: Result<String, QrCodeError>)
    ensures
        qr_result_spec(qr_dense_image(data.spec_bytes()), r),
{
    qr_result(render_qr_dense(data.as_bytes()))
}

/// Two spaces per module for the quiet zone around the code (2 modules).
pub open spec fn qr_blank_row(w: nat) -> Seq<char> {
    repeat(' ', 2 * (w + 4)) + seq!['\n']
}

/// A module: `##` when dark, two spaces when light.
pub open spec fn qr_cell(dark: bool) -> Seq<char> {
    if dark {
        seq!['#', '#']
    } else {
        seq![' ', ' ']
    }
}

/// The first `n` modules of row `y`.
pub open spec fn qr_cells(m: Seq<bool>, w: nat, y: nat, n: nat) -> Seq<char>
    decreases n,
{
    if n == 0 {
        Seq::empty()
    } else {
        qr_cells(m, w, y, (n - 1) as nat) + qr_cell(m[y * w + n - 1])
    }
}

/// Row `y` of the code with its quiet zone.
pub open spec fn qr_row(m: Seq<bool>, w: nat, y: nat) -> Seq<char> {
    repeat(' ', 4) + qr_cells(m, w, y, w) + repeat(' ', 4) + seq!['\n']
}

/// The first `n` rows of the code.
pub open spec fn qr_rows(m: Seq<bool>, w: nat, n: nat) -> Seq<char>
    decreases n,
{
    if n == 0 {
        Seq::empty()
    } else {
        qr_rows(m, w, (n - 1) as nat) + qr_row(m, w, (n - 1) as nat)
    }
}

/// The ASCII drawing of a `w`-wide code: two blank rows, the rows of
/// modules with two blank modules each side, two blank rows.
pub open spec fn qr_ascii_text(w: nat, m: Seq<bool>) -> Seq<char> {
    qr_blank_row(w) + qr_blank_row(w) + qr_rows(m, w, w) + qr_blank_row(w) + qr_blank_row(w)
}

/// A square of `w * w` cells within `usize` has a side whose blank row
/// length, `2 * (w + 4)`, fits too.
proof fn lemma_side_small(w: usize)
    requires
        w * w <= usize::MAX,
    ensures
        2 * (w + 4) <= usize::MAX,
{
    if w >= 4 {
        assert(2 * (w + 4) <= w * w) by (nonlinear_arith)
            requires
                w >= 4,
        ;
    }
}

/// Module `(x, y)` of a `w * w` square lies inside it.
proof fn lemma_cell_index(w: nat, y: nat, x: nat)
    requires
        y < w,
        x < w,
    ensures
        y * w + x < w * w,
{
    assert(y * w + x < w * w) by (nonlinear_arith)
        requires
            y < w,
            x < w,
    ;
}

/// Appends a blank quiet-zone row.
fn push_blank_row(s: &mut String, w: usize)
    requires
        2 * (w + 4) <= usize::MAX,
    ensures
        final(s)@ == old(s)@ + qr_blank_row(w as nat),
{
    push_repeat(s, ' ', 2 * (w + 4));
    push_char(s, '\n');
}

/// Draw a `width`-wide QR code whose modules, row by row, are dark where
/// `dark` is `true`.
pub fn render_qr_ascii(width: usize, dark: &[bool]) -> (r: String)
    requires
        dark@.len() == width * width,
    ensures
        r@ == qr_ascii_text(width as nat, dark@),
{
    let w = width;
    let n = dark.len();
    assert(n == w * w);
    proof {
        lemma_side_small(w);
    }
    let mut out = String::new();
    push_blank_row(&mut out, w);
    push_blank_row(&mut out, w);
    let ghost head = out@;
    for y in 0..w
        invariant
            2 * (w + 4) <= usize::MAX,
            w * w <= usize::MAX,
            dark@.len() == w * w,
            out@ == head + qr_rows(dark@, w as nat, y as nat),
    {
        let ghost before = out@;
        push_repeat(&mut out, ' ', 4);
        let ghost lead = out@;
        for x in 0..w
            invariant
                y < w,
                w * w <= usize::MAX,
                dark@.len() == w * w,
                out@ == lead + qr_cells(dark@, w as nat, y as nat, x as nat),
        {
            proof {
                lemma_cell_index(w as nat, y as nat, x as nat);
            }
            let i = y * w + x;
            if dark[i] {
                push_char(&mut out, '#');
                push_char(&mut out, '#');
            } else {
                push_char(&mut out, ' ');
                push_char(&mut out, ' ');
            }
            assert(out@ =~= lead + qr_cells(dark@, w as nat, y as nat, (x + 1) as nat));
        }
        push_repeat(&mut out, ' ', 4);
        push_char(&mut out, '\n');
        assert(out@ =~= before + qr_row(dark@, w as nat, y as nat));
    }
    push_blank_row(&mut out, w);
    push_blank_row(&mut out, w);
    out
}

/// Generate a QR code for `data` with two characters per module, for
/// terminals where the compact renderer does not display well.
pub fn generate_qr_code_ascii(data: &str) -> (r: Result<String, QrCodeError>)
    ensures
        match qr_encoding(data.spec_bytes()) {
            Ok((w, m)) => r matches Ok(s) && s@ == qr_ascii_text(w as nat, m),
            Err(e) => r matches Err(QrCodeError::EncodingError(t)) && t@ == e,
        },
{
    match encode_qr(data.as_bytes()) {
        Ok((w, m)) => Ok(render_qr_ascii(w, m.as_slice())),
        Err(e) => Err(QrCodeError::EncodingError(e)),
    }
}

/// Whether the terminal can likely display QR codes: at least 40 columns
/// and 20 rows, Unicode, and a terminal at all.
pub fn can_display_qr(cols: usize, rows: usize, unicode: bool, tty: bool) -> (r: bool)
    ensures
        r == (cols >= 40 && rows >= 20 && unicode && tty),
{
    if cols < 40 || rows < 20 {
        return false;
    }
    if !unicode {
        return false;
    }
    tty
}

} // verus!
