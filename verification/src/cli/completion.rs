//! Shell completion: the bash script that calls back into the binary, and
//! the candidate lines the binary prints when it does.
//!
//! bash gets a script of its own that asks `pcloud-cli __complete` for the
//! candidates at completion time and shows each with its description; zsh
//! and fish scripts are generated by the caller with `clap_complete`.
use vstd::prelude::*;

use crate::text::{
    chars_of, lines, occurs_at, occurs_at_exec, push_char, push_str, split_lines, string_from,
    views,
};

verus! {

/// The shells a completion script can be printed for.
#[derive(Debug, Clone, Copy, PartialEq, Eq, Structural)]
pub enum CompletionShell {
    Bash,
    Zsh,
    Fish,
}

/// The bash completion script; `{FN}` stands for the completion function's
/// name and `{BIN}` for the command it completes.
pub const BASH_COMPLETION_TEMPLATE: &'static str = "{FN}() {\n    local words cword\n    words=(\"${COMP_WORDS[@]}\")\n    cword=$COMP_CWORD\n\n    local response\n    local IFS=$'\\n'\n    response=$(\"${words[0]}\" __complete --index \"$cword\" -- \"${words[@]}\" 2>/dev/null)\n    if [[ $? -ne 0 ]]; then\n        COMPREPLY=()\n        return 0\n    fi\n\n    local -a values=() descs=()\n    local maxlen=0 line value desc\n    for line in $response; do\n        value=\"${line%%$'\\t'*}\"\n        if [[ \"$line\" == *$'\\t'* ]]; then\n            desc=\"${line#*$'\\t'}\"\n        else\n            desc=\"\"\n        fi\n        values+=(\"$value\")\n        descs+=(\"$desc\")\n        (( ${#value} > maxlen )) && maxlen=${#value}\n    done\n\n    if (( ${#values[@]} == 0 )); then\n        COMPREPLY=()\n        return 0\n    fi\n\n    if (( ${#values[@]} == 1 )); then\n        COMPREPLY=(\"${values[0]}\")\n        # Directory candidates carry a trailing slash; let the user keep typing.\n        [[ \"${values[0]}\" == */ ]] && compopt -o nospace\n        return 0\n    fi\n\n    # Multiple candidates: show \"value  (description)\" entries. Bash inserts only\n    # the common prefix (within the value), so descriptions stay display-only.\n    local i out\n    COMPREPLY=()\n    for i in \"${!values[@]}\"; do\n        value=\"${values[$i]}\"\n        desc=\"${descs[$i]}\"\n        if [[ -n \"$desc\" ]]; then\n            printf -v out '%-*s  (%s)' \"$maxlen\" \"$value\" \"$desc\"\n        else\n            out=\"$value\"\n        fi\n        COMPREPLY+=(\"$out\")\n    done\n    compopt -o nosort 2>/dev/null\n    return 0\n}\ncomplete -F {FN} {BIN}\n";

/// `s` with every occurrence of `pat` replaced by `with`, left to right
/// without overlaps (`str::replace`, for a non-empty pattern).
pub open spec fn replace(s: Seq<char>, pat: Seq<char>, with: Seq<char>) -> Seq<char>
    recommends
        pat.len() > 0,
    decreases s.len(),
{
    if s.len() == 0 || pat.len() == 0 {
        s
    } else if occurs_at(s, pat, 0) {
        with + replace(s.skip(pat.len() as int), pat, with)
    } else {
        seq![s[0]] + replace(s.skip(1), pat, with)
    }
}

/// Occurring at `i` in `s` is occurring at 0 in what follows `i`.
proof fn lemma_occurs_skip(s: Seq<char>, pat: Seq<char>, i: int)
    requires
        0 <= i <= s.len(),
    ensures
        occurs_at(s, pat, i) == occurs_at(s.skip(i), pat, 0),
{
    if occurs_at(s, pat, i) {
        assert(s.skip(i).subrange(0, pat.len() as int) =~= s.subrange(i, i + pat.len()));
    }
    if occurs_at(s.skip(i), pat, 0) {
        assert(s.skip(i).subrange(0, pat.len() as int) =~= s.subrange(i, i + pat.len()));
    }
}

/// `s` with every occurrence of the non-empty `pat` replaced by `with`.
pub fn replace_all(s: &str, pat: &str, with: &str) -> (r: String)
    requires
        pat@.len() > 0,
    ensures
        r@ == replace(s@, pat@, with@),
{
    let v = chars_of(s);
    let p = chars_of(pat);
    let mut out = String::new();
    let mut i: usize = 0;
    assert(v@.skip(0) =~= v@);
    while i < v.len()
        invariant
            v@ == s@,
            p@ == pat@,
            p@.len() > 0,
            i <= v@.len(),
            replace(s@, pat@, with@) == out@ + replace(v@.skip(i as int), pat@, with@),
        decreases v.len() - i,
    {
        let ghost rest = v@.skip(i as int);
        proof {
            lemma_occurs_skip(v@, p@, i as int);
        }
        let ghost before = out@;
        if occurs_at_exec(v.as_slice(), p.as_slice(), i) {
            push_str(&mut out, with);
            assert(rest.skip(p@.len() as int) =~= v@.skip(i + p@.len()));
            let ghost tail = replace(v@.skip(i + p@.len()), pat@, with@);
            assert(before + (with@ + tail) =~= out@ + tail);
            i = i + p.len();
        } else {
            push_char(&mut out, v[i]);
            assert(rest[0] == v@[i as int]);
            assert(rest.skip(1) =~= v@.skip(i + 1));
            let ghost tail = replace(v@.skip(i + 1), pat@, with@);
            assert(before + (seq![v@[i as int]] + tail) =~= out@ + tail);
            i = i + 1;
        }
    }
    assert(v@.skip(i as int) =~= Seq::<char>::empty());
    assert(out@ + Seq::<char>::empty() =~= out@);
    out
}

/// A character of a command name as it stands in a shell function name:
/// `-` and `.` become `_`.
pub open spec fn ident_char(c: char) -> char {
    if c == '-' || c == '.' {
        '_'
    } else {
        c
    }
}

/// The name of the bash completion function for command `bin`:
/// `_<bin>_complete`, with `-` and `.` turned into `_`.
pub open spec fn bash_function_name_spec(bin: Seq<char>) -> Seq<char> {
    "_"@ + Seq::new(bin.len(), |i: int| ident_char(bin[i])) + "_complete"@
}

/// The name of the bash completion function for command `bin`.
pub fn bash_function_name(bin: &str) -> (r: String)
    ensures
        r@ == bash_function_name_spec(bin@),
{
    let v = chars_of(bin);
    let mut out = string_from("_");
    let mut i: usize = 0;
    while i < v.len()
        invariant
            v@ == bin@,
            i <= v@.len(),
            out@ == "_"@ + Seq::new(i as nat, |j: int| ident_char(bin@[j])),
        decreases v.len() - i,
    {
        let c = v[i];
        let d = if c == '-' || c == '.' {
            '_'
        } else {
            c
        };
        push_char(&mut out, d);
        assert(out@ =~= "_"@ + Seq::new((i + 1) as nat, |j: int| ident_char(bin@[j])));
        i = i + 1;
    }
    push_str(&mut out, "_complete");
    out
}

/// The bash completion script for command `bin`: the template with `{FN}`
/// replaced by the function name, then `{BIN}` by the command.
pub open spec fn bash_script_spec(bin: Seq<char>) -> Seq<char> {
    replace(
        replace(BASH_COMPLETION_TEMPLATE@, "{FN}"@, bash_function_name_spec(bin)),
        "{BIN}"@,
        bin,
    )
}

/// The bash completion script for command `bin`.
pub fn bash_completion_script(bin: &str) -> (r: String)
    ensures
        r@ == bash_script_spec(bin@),
{
    let f = bash_function_name(bin);
    proof {
        reveal_strlit("{FN}");
        reveal_strlit("{BIN}");
    }
    let with_fn = replace_all(BASH_COMPLETION_TEMPLATE, "{FN}", f.as_str());
    replace_all(with_fn.as_str(), "{BIN}", bin)
}

/// One completion candidate: its value, its description, and whether it is
/// hidden.
#[derive(Debug, Clone, PartialEq, Eq)]
pub struct CompletionItem {
    pub value: String,
    pub help: Option<String>,
    pub hidden: bool,
}

/// The first line of a description (empty for an empty one).
pub open spec fn first_line(help: Seq<char>) -> Seq<char> {
    if lines(help).len() > 0 {
        lines(help)[0]
    } else {
        Seq::empty()
    }
}

/// The line printed for a candidate: `value<TAB>first line of help`, or the
/// value alone; nothing for a hidden one.
pub open spec fn candidate_line(c: CompletionItem) -> Seq<char> {
    if c.hidden {
        Seq::empty()
    } else {
        match c.help {
            Some(h) => c.value@ + "\t"@ + first_line(h@) + "\n"@,
            None => c.value@ + "\n"@,
        }
    }
}

/// The lines of the candidates `cs`, in order.
pub open spec fn candidate_lines(cs: Seq<CompletionItem>) -> Seq<char>
    decreases cs.len(),
{
    if cs.len() == 0 {
        Seq::empty()
    } else {
        candidate_lines(cs.drop_last()) + candidate_line(cs.last())
    }
}

/// What `pcloud-cli __complete` prints for the candidates: one line per
/// visible candidate, with its description's first line after a tab.
pub fn completion_output(cs: &[CompletionItem]) -> (r: String)
    ensures
        r@ == candidate_lines(cs@),
{
    let mut out = String::new();
    let mut i: usize = 0;
    while i < cs.len()
        invariant
            i <= cs@.len(),
            out@ == candidate_lines(cs@.take(i as int)),
        decreases cs.len() - i,
    {
        let c = &cs[i];
        assert(cs@.take(i + 1).drop_last() =~= cs@.take(i as int));
        assert(cs@.take(i + 1).last() == cs@[i as int]);
        if !c.hidden {
            push_str(&mut out, c.value.as_str());
            match &c.help {
                Some(h) => {
                    push_str(&mut out, "\t");
                    let hv = chars_of(h.as_str());
                    let ls = split_lines(hv.as_slice());
                    if ls.len() > 0 {
                        assert(ls@[0]@ == lines(h@)[0]);
                        let first = crate::text::string_of(ls[0].as_slice());
                        push_str(&mut out, first.as_str());
                    }
                    push_str(&mut out, "\n");
                },
                None => {
                    push_str(&mut out, "\n");
                },
            }
        }
        i = i + 1;
    }
    assert(cs@.take(cs@.len() as int) =~= cs@);
    out
}

} // verus!
