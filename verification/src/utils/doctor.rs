//! The checks of `pcloud-cli doctor`: which libraries must load, what the
//! FUSE probes found, and how the report reads.
//!
//! The caller loads the libraries, looks at `/dev/fuse`, runs `which` and
//! queries the groups; these functions turn what it found into check results
//! and report lines.
use vstd::prelude::*;

use crate::error::PCloudError;
use crate::text::{
    chars_of, contains, find_char_from, first_index_of, has_substr, lines, push_repeat, push_str,
    repeat, slice_chars, split_lines, string_from, string_of, trim, trim_chars, views,
};

verus! {

/// The shared libraries the sync engine needs, as display name and soname.
pub open spec fn required_libs_spec() -> Seq<(Seq<char>, Seq<char>)> {
    seq![
        ("FUSE"@, "libfuse.so.2"@),
        ("SQLite"@, "libsqlite3.so.0"@),
        ("OpenSSL (ssl)"@, "libssl.so.3"@),
        ("OpenSSL (crypto)"@, "libcrypto.so.3"@),
        ("zlib"@, "libz.so.1"@),
        ("libudev"@, "libudev.so.1"@),
    ]
}

/// The shared libraries to probe, in order: display name and soname.
pub fn required_libs() -> (r: Vec<(&'static str, &'static str)>)
    ensures
        r@.len() == required_libs_spec().len(),
        forall|i: int|
            0 <= i < r@.len() ==> (#[trigger] r@[i]).0@ == required_libs_spec()[i].0 && r@[i].1@
                == required_libs_spec()[i].1,
{
    let mut v: Vec<(&'static str, &'static str)> = Vec::new();
    v.push(("FUSE", "libfuse.so.2"));
    v.push(("SQLite", "libsqlite3.so.0"));
    v.push(("OpenSSL (ssl)", "libssl.so.3"));
    v.push(("OpenSSL (crypto)", "libcrypto.so.3"));
    v.push(("zlib", "libz.so.1"));
    v.push(("libudev", "libudev.so.1"));
    v
}

/// The path in the first of `ls` that mentions `soname` and holds a `/`:
/// everything from its first `/`.
pub open spec fn mapped_path(ls: Seq<Seq<char>>, soname: Seq<char>) -> Option<Seq<char>>
    decreases ls.len(),
{
    if ls.len() == 0 {
        None
    } else if has_substr(ls[0], soname) && first_index_of(ls[0], '/') < ls[0].len() {
        Some(ls[0].subrange(first_index_of(ls[0], '/'), ls[0].len() as int))
    } else {
        mapped_path(ls.drop_first(), soname)
    }
}

/// Where a loaded library was mapped from, given the contents of
/// `/proc/self/maps` (lines such as `addr-addr perms offset dev inode
/// /path/to/lib.so.X`).
pub fn library_path_in_maps(maps: &str, soname: &str) -> (r: Option<String>)
    ensures
        match mapped_path(lines(maps@), soname@) {
            Some(p) => (r matches Some(s) && s@ == p),
            None => r is None,
        },
{
    let m = chars_of(maps);
    let so = chars_of(soname);
    let ls = split_lines(m.as_slice());
    let mut i: usize = 0;
    assert(views(ls@).skip(0) =~= views(ls@));
    while i < ls.len()
        invariant
            views(ls@) == lines(maps@),
            so@ == soname@,
            i <= ls.len(),
            mapped_path(lines(maps@), soname@) == mapped_path(views(ls@).skip(i as int), soname@),
        decreases ls.len() - i,
    {
        let ghost rest = views(ls@).skip(i as int);
        assert(rest[0] == ls@[i as int]@);
        assert(rest.drop_first() =~= views(ls@).skip(i + 1));
        let line = &ls[i];
        if contains(line.as_slice(), so.as_slice()) {
            let at = find_char_from(line.as_slice(), '/', 0);
            assert(line@.subrange(0, line@.len() as int) =~= line@);
            if at < line.len() {
                let p = slice_chars(line.as_slice(), at, line.len());
                return Some(string_of(p.as_slice()));
            }
        }
        i = i + 1;
    }
    None
}

/// The result of one environment check.
#[derive(Debug, Clone, PartialEq, Eq)]
pub struct CheckResult {
    pub name: String,
    pub detail: String,
    pub ok: bool,
}

/// `r` is the check `name` with `detail` and verdict `ok`.
pub open spec fn is_check(r: CheckResult, name: Seq<char>, detail: Seq<char>, ok: bool) -> bool {
    r.name@ == name && r.detail@ == detail && r.ok == ok
}

fn check(name: &str, detail: String, ok: bool) -> (r: CheckResult)
    ensures
        is_check(r, name@, detail@, ok),
{
    CheckResult { name: string_from(name), detail, ok }
}

/// The `/dev/fuse` check: it must exist and open for reading
/// (`open_error`: why opening it failed).
pub fn dev_fuse_check(exists: bool, open_error: Option<&str>) -> (r: CheckResult)
    ensures
        !exists ==> is_check(r, "/dev/fuse"@, "not found (is the fuse kernel module loaded?)"@, false),
        exists ==> match open_error {
            None => is_check(r, "/dev/fuse"@, "accessible"@, true),
            Some(e) => is_check(r, "/dev/fuse"@, "permission denied ("@ + e@ + ")"@, false),
        },
{
    if !exists {
        return check("/dev/fuse", string_from("not found (is the fuse kernel module loaded?)"), false);
    }
    match open_error {
        None => check("/dev/fuse", string_from("accessible"), true),
        Some(e) => {
            let mut d = string_from("permission denied (");
            push_str(&mut d, e);
            push_str(&mut d, ")");
            check("/dev/fuse", d, false)
        },
    }
}

/// The programs looked up for the `fusermount` check, in order.
pub fn fusermount_candidates() -> (r: [&'static str; 2])
    ensures
        r[0]@ == "fusermount3"@,
        r[1]@ == "fusermount"@,
{
    ["fusermount3", "fusermount"]
}

/// The `fusermount` check, from what `which` printed for the first candidate
/// it found (`None`: neither was found).
pub fn fusermount_check(which_output: Option<&str>) -> (r: CheckResult)
    ensures
        match which_output {
            Some(out) => is_check(r, "fusermount"@, trim(out@), true),
            None => is_check(r, "fusermount"@, "not found in PATH"@, false),
        },
{
    match which_output {
        Some(out) => {
            let v = chars_of(out);
            let t = trim_chars(v.as_slice());
            check("fusermount", string_of(t.as_slice()), true)
        },
        None => check("fusermount", string_from("not found in PATH"), false),
    }
}

/// The `fuse` group check. `groups`: the process's supplementary groups
/// (`None`: they could not be queried); `fuse_gid`: the `fuse` group, if the
/// system has one; `uid`: the user id; `user`: the login name for the advice.
pub fn fuse_group_check(groups: Option<&[u32]>, fuse_gid: Option<u32>, uid: u32, user: &str) -> (r: CheckResult)
    ensures
        match groups {
            None => is_check(r, "fuse group"@, "could not query groups"@, false),
            Some(gs) => match fuse_gid {
                None => is_check(
                    r,
                    "fuse group"@,
                    "no 'fuse' group on this system (OK on most distros)"@,
                    true,
                ),
                Some(g) => if uid == 0 {
                    is_check(r, "fuse group"@, "running as root"@, true)
                } else if gs@.contains(g) {
                    is_check(r, "fuse group"@, "member"@, true)
                } else {
                    is_check(
                        r,
                        "fuse group"@,
                        "not a member (add with: sudo usermod -aG fuse "@ + user@ + ")"@,
                        false,
                    )
                },
            },
        },
{
    let gs = match groups {
        None => {
            return check("fuse group", string_from("could not query groups"), false);
        },
        Some(gs) => gs,
    };
    let g = match fuse_gid {
        None => {
            return check(
                "fuse group",
                string_from("no 'fuse' group on this system (OK on most distros)"),
                true,
            );
        },
        Some(g) => g,
    };
    if uid == 0 {
        return check("fuse group", string_from("running as root"), true);
    }
    let mut i: usize = 0;
    while i < gs.len()
        invariant
            groups == Some(gs),
            fuse_gid == Some(g),
            uid != 0,
            i <= gs.len(),
            forall|j: int| 0 <= j < i ==> gs@[j] != g,
        decreases gs.len() - i,
    {
        if gs[i] == g {
            assert(gs@[i as int] == g);
            assert(gs@.contains(g));
            return check("fuse group", string_from("member"), true);
        }
        i = i + 1;
    }
    let mut d = string_from("not a member (add with: sudo usermod -aG fuse ");
    push_str(&mut d, user);
    push_str(&mut d, ")");
    check("fuse group", d, false)
}

/// `label` padded with spaces to 28 characters (`{:<28}`), a space, then
/// `detail`.
pub open spec fn report_detail(label: Seq<char>, detail: Seq<char>) -> Seq<char> {
    label + repeat(' ', if label.len() < 28 {
        (28 - label.len()) as nat
    } else {
        0
    }) + " "@ + detail
}

/// A report line's text: the label in a 28-column field, then the detail.
pub fn detail_line(label: &str, detail: &str) -> (r: String)
    ensures
        r@ == report_detail(label@, detail@),
{
    let n = chars_of(label).len();
    let mut s = string_from(label);
    if n < 28 {
        push_repeat(&mut s, ' ', 28 - n);
    } else {
        push_repeat(&mut s, ' ', 0);
    }
    push_str(&mut s, " ");
    push_str(&mut s, detail);
    s
}

/// A library's label: `name (soname)`.
pub fn library_label(name: &str, soname: &str) -> (r: String)
    ensures
        r@ == name@ + " ("@ + soname@ + ")"@,
{
    let mut s = string_from(name);
    push_str(&mut s, " (");
    push_str(&mut s, soname);
    push_str(&mut s, ")");
    s
}

/// The message when any check failed.
pub open spec fn doctor_failed_message() -> Seq<char> {
    "Some dependency checks failed \u{2014} see above for details."@
}

/// What the doctor command returns: an error when any check failed.
pub fn doctor_result(any_failed: bool) -> (r: Result<(), PCloudError>)
    ensures
        !any_failed ==> r is Ok,
        any_failed ==> (r matches Err(PCloudError::Config(m)) && m@ == doctor_failed_message()),
{
    if any_failed {
        Err(PCloudError::Config(string_from("Some dependency checks failed \u{2014} see above for details.")))
    } else {
        Ok(())
    }
}

} // verus!
