//! Quoting for the files the service backends write.
//!
//! Each backend renders into its own syntax, so quoting is per dialect. All
//! helpers quote only when needed: strings made of safe characters pass
//! through unchanged.
use vstd::prelude::*;

use crate::text::{chars_of, push_char, push_str, string_from};

verus! {

/// The concatenation of `f(c)` over the characters `c` of `s`.
pub open spec fn map_concat(s: Seq<char>, f: spec_fn(char) -> Seq<char>) -> Seq<char>
    decreases s.len(),
{
    if s.len() == 0 {
        Seq::empty()
    } else {
        map_concat(s.drop_last(), f) + f(s.last())
    }
}

/// Extending the input by one character extends the output by its image.
pub proof fn lemma_map_concat_step(s: Seq<char>, f: spec_fn(char) -> Seq<char>, i: int)
    requires
        0 <= i < s.len(),
    ensures
        map_concat(s.take(i + 1), f) == map_concat(s.take(i), f) + f(s[i]),
{
    assert(s.take(i + 1).drop_last() =~= s.take(i));
}

/// A character that needs no quoting on a command line.
pub open spec fn is_safe_char(c: char) -> bool {
    ||| 'a' <= c <= 'z'
    ||| 'A' <= c <= 'Z'
    ||| '0' <= c <= '9'
    ||| c == '/' || c == '.' || c == '_' || c == '-' || c == ':' || c == '@' || c == '+'
    ||| c == ',' || c == '='
}

/// `s` can be passed unquoted in a shell/init command line.
pub open spec fn cmdline_safe(s: Seq<char>) -> bool {
    s.len() > 0 && forall|i: int| 0 <= i < s.len() ==> is_safe_char(#[trigger] s[i])
}

/// Inside single quotes, `'` becomes `'\''`.
pub open spec fn sh_escape(c: char) -> Seq<char> {
    if c == '\'' {
        "'\\''"@
    } else {
        seq![c]
    }
}

/// `%` becomes `%%` (systemd specifiers).
pub open spec fn percent_escape(c: char) -> Seq<char> {
    if c == '%' {
        "%%"@
    } else {
        seq![c]
    }
}

/// Escapes for a double-quoted desktop-entry `Exec=` argument.
pub open spec fn desktop_escape(c: char) -> Seq<char> {
    if c == '\\' {
        "\\\\"@
    } else if c == '"' {
        "\\\""@
    } else if c == '`' {
        "\\`"@
    } else if c == '$' {
        "\\$"@
    } else if c == '%' {
        "%%"@
    } else {
        seq![c]
    }
}

/// XML entity escapes for `&`, `<` and `>`.
pub open spec fn xml_char(c: char) -> Seq<char> {
    if c == '&' {
        "&amp;"@
    } else if c == '<' {
        "&lt;"@
    } else if c == '>' {
        "&gt;"@
    } else {
        seq![c]
    }
}

/// POSIX-shell quoting of `s`.
pub open spec fn sh_quote_spec(s: Seq<char>) -> Seq<char> {
    if cmdline_safe(s) {
        s
    } else {
        "'"@ + map_concat(s, |c: char| sh_escape(c)) + "'"@
    }
}

/// systemd command-line quoting of `s`.
pub open spec fn systemd_quote_spec(s: Seq<char>) -> Seq<char> {
    sh_quote_spec(map_concat(s, |c: char| percent_escape(c)))
}

/// Desktop-entry `Exec=` quoting of `s`.
pub open spec fn desktop_quote_spec(s: Seq<char>) -> Seq<char> {
    if cmdline_safe(s) {
        s
    } else {
        "\""@ + map_concat(s, |c: char| desktop_escape(c)) + "\""@
    }
}

/// XML escaping of `s`.
pub open spec fn xml_escape_spec(s: Seq<char>) -> Seq<char> {
    map_concat(s, |c: char| xml_char(c))
}

/// Whether a character needs no quoting.
pub fn safe_char(c: char) -> (r: bool)
    ensures
        r == is_safe_char(c),
{
    ('a' <= c && c <= 'z') || ('A' <= c && c <= 'Z') || ('0' <= c && c <= '9') || c == '/' || c
        == '.' || c == '_' || c == '-' || c == ':' || c == '@' || c == '+' || c == ',' || c == '='
}

/// Whether `s` can be passed unquoted in a shell/init command line.
pub fn is_cmdline_safe(s: &[char]) -> (r: bool)
    ensures
        r == cmdline_safe(s@),
{
    if s.len() == 0 {
        return false;
    }
    for i in 0..s.len()
        invariant
            forall|j: int| 0 <= j < i ==> is_safe_char(#[trigger] s@[j]),
    {
        if !safe_char(s[i]) {
            return false;
        }
    }
    true
}

/// Appends `map_concat(s, sh_escape)`.
fn push_sh_escaped(out: &mut String, s: &[char])
    ensures
        final(out)@ == old(out)@ + map_concat(s@, |c: char| sh_escape(c)),
{
    let ghost f = |c: char| sh_escape(c);
    let ghost start = out@;
    for i in 0..s.len()
        invariant
            f == (|c: char| sh_escape(c)),
            out@ == start + map_concat(s@.take(i as int), f),
    {
        proof {
            lemma_map_concat_step(s@, f, i as int);
        }
        let ghost prev = out@;
        assert(f(s@[i as int]) == sh_escape(s@[i as int]));
        if s[i] == '\'' {
            push_str(out, "'\\''");
            assert(out@ == prev + "'\\''"@);
        } else {
            push_char(out, s[i]);
            assert(out@ =~= prev + seq![s@[i as int]]);
        }
        assert(out@ =~= prev + f(s@[i as int]));
    }
    assert(s@.take(s@.len() as int) =~= s@);
}

/// Appends `map_concat(s, percent_escape)`.
fn percent_escaped(s: &[char]) -> (r: Vec<char>)
    ensures
        r@ == map_concat(s@, |c: char| percent_escape(c)),
{
    let ghost f = |c: char| percent_escape(c);
    let mut out: Vec<char> = Vec::new();
    for i in 0..s.len()
        invariant
            f == (|c: char| percent_escape(c)),
            out@ == map_concat(s@.take(i as int), f),
    {
        proof {
            lemma_map_concat_step(s@, f, i as int);
            reveal_strlit("%%");
        }
        let ghost prev = out@;
        assert(f(s@[i as int]) == percent_escape(s@[i as int]));
        if s[i] == '%' {
            out.push('%');
            out.push('%');
            assert(out@ =~= map_concat(s@.take(i as int), f) + "%%"@);
        } else {
            out.push(s[i]);
            assert(out@ =~= map_concat(s@.take(i as int), f) + seq![s@[i as int]]);
        }
        assert(out@ =~= prev + f(s@[i as int]));
    }
    assert(s@.take(s@.len() as int) =~= s@);
    out
}

/// Appends `map_concat(s, desktop_escape)`.
fn push_desktop_escaped(out: &mut String, s: &[char])
    ensures
        final(out)@ == old(out)@ + map_concat(s@, |c: char| desktop_escape(c)),
{
    let ghost f = |c: char| desktop_escape(c);
    let ghost start = out@;
    for i in 0..s.len()
        invariant
            f == (|c: char| desktop_escape(c)),
            out@ == start + map_concat(s@.take(i as int), f),
    {
        proof {
            lemma_map_concat_step(s@, f, i as int);
        }
        let ghost prev = out@;
        let c = s[i];
        assert(f(c) == desktop_escape(c));
        if c == '\\' {
            push_str(out, "\\\\");
        } else if c == '"' {
            push_str(out, "\\\"");
        } else if c == '`' {
            push_str(out, "\\`");
        } else if c == '$' {
            push_str(out, "\\$");
        } else if c == '%' {
            push_str(out, "%%");
        } else {
            push_char(out, c);
            assert(out@ =~= prev + seq![c]);
        }
        assert(out@ =~= prev + f(s@[i as int]));
    }
    assert(s@.take(s@.len() as int) =~= s@);
}

/// Quote `s` for a POSIX shell (OpenRC `command_args`, the runit `run`
/// script, the cron line): single quotes with `'` written as `'\''`, unless
/// `s` needs no quoting.
pub fn sh_quote(s: &str) -> (r: String)
    ensures
        r@ == sh_quote_spec(s@),
{
    let v = chars_of(s);
    sh_quote_chars(v.as_slice())
}

/// `sh_quote` of a character sequence.
fn sh_quote_chars(v: &[char]) -> (r: String)
    ensures
        r@ == sh_quote_spec(v@),
{
    if is_cmdline_safe(v) {
        crate::text::string_of(v)
    } else {
        let mut r = string_from("'");
        push_sh_escaped(&mut r, v);
        push_str(&mut r, "'");
        r
    }
}

/// Quote `s` for a systemd unit command line: `%` doubled so specifiers are
/// not expanded, then single-quote grouping when needed.
pub fn systemd_quote(s: &str) -> (r: String)
    ensures
        r@ == systemd_quote_spec(s@),
{
    let v = chars_of(s);
    let p = percent_escaped(v.as_slice());
    sh_quote_chars(p.as_slice())
}

/// Quote `s` for a `.desktop` `Exec=` value: double quotes with `\`, `"`,
/// `` ` `` and `$` backslash-escaped and `%` doubled, unless no quoting is
/// needed.
pub fn desktop_quote(s: &str) -> (r: String)
    ensures
        r@ == desktop_quote_spec(s@),
{
    let v = chars_of(s);
    if is_cmdline_safe(v.as_slice()) {
        string_from(s)
    } else {
        let mut r = string_from("\"");
        push_desktop_escaped(&mut r, v.as_slice());
        push_str(&mut r, "\"");
        r
    }
}

/// XML-escape `s` (`&`, `<`, `>`) for a launchd plist `<string>` element.
pub fn xml_escape(s: &str) -> (r: String)
    ensures
        r@ == xml_escape_spec(s@),
{
    let v = chars_of(s);
    let ghost f = |c: char| xml_char(c);
    let mut out = String::new();
    for i in 0..v.len()
        invariant
            f == (|c: char| xml_char(c)),
            v@ == s@,
            out@ == map_concat(v@.take(i as int), f),
    {
        proof {
            lemma_map_concat_step(v@, f, i as int);
        }
        let ghost prev = out@;
        let c = v[i];
        assert(f(c) == xml_char(c));
        if c == '&' {
            push_str(&mut out, "&amp;");
        } else if c == '<' {
            push_str(&mut out, "&lt;");
        } else if c == '>' {
            push_str(&mut out, "&gt;");
        } else {
            push_char(&mut out, c);
            assert(out@ =~= prev + seq![c]);
        }
        assert(out@ =~= prev + f(v@[i as int]));
    }
    assert(v@.take(v@.len() as int) =~= v@);
    out
}

/// Quoting leaves safe strings unchanged and wraps every other string in
/// single quotes.
pub proof fn law_sh_quote_shape(s: Seq<char>)
    ensures
        cmdline_safe(s) ==> sh_quote_spec(s) == s,
        !cmdline_safe(s) ==> sh_quote_spec(s).len() >= 2 && sh_quote_spec(s)[0] == '\''
            && sh_quote_spec(s).last() == '\'',
{
    reveal_strlit("'");
}

/// Every character of an XML-escaped string is part of an entity or an input
/// character other than `<` and `>`: the escaped text contains no `<` or `>`.
pub proof fn law_xml_escape_has_no_markup(s: Seq<char>)
    ensures
        forall|i: int| 0 <= i < xml_escape_spec(s).len() ==> #[trigger] xml_escape_spec(s)[i] != '<'
            && xml_escape_spec(s)[i] != '>',
    decreases s.len(),
{
    reveal_strlit("&amp;");
    reveal_strlit("&lt;");
    reveal_strlit("&gt;");
    if s.len() > 0 {
        law_xml_escape_has_no_markup(s.drop_last());
        let a = xml_escape_spec(s.drop_last());
        let b = xml_char(s.last());
        assert(xml_escape_spec(s) == a + b);
        assert forall|i: int| 0 <= i < (a + b).len() implies (a + b)[i] != '<' && (a + b)[i] != '>' by {
            if i >= a.len() {
                assert((a + b)[i] == b[i - a.len()]);
            } else {
                assert((a + b)[i] == a[i]);
            }
        }
    }
}

} // verus!
