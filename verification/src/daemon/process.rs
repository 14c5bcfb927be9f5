//! Daemon configuration and PID-file handling.
//!
//! The daemon's PID file and socket live at `/tmp/pcloud-cli-<uid>.pid` and
//! `/tmp/pcloud-cli-<uid>.sock`. Reading the file, forking and signalling happen
//! in the application; this module holds the configuration and the parsing of
//! the PID file's contents.
use vstd::prelude::*;

use crate::text::{
    chars_of, dec, dec_int, push_str, push_u64, string_from, strip_leading, strip_trailing, trim, trim_chars,
};

verus! {

/// Configuration for the daemon process.
#[derive(Debug, Clone, PartialEq, Eq)]
pub struct DaemonConfig {
    /// Path to the PID file.
    pub pid_file: String,
    /// Working directory for the daemon.
    pub working_directory: String,
    /// User to run as (optional).
    pub user: Option<String>,
    /// Group to run as (optional).
    pub group: Option<String>,
}

/// `/tmp/pcloud-cli-<uid><ext>`.
pub open spec fn uid_path(uid: u32, ext: Seq<char>) -> Seq<char> {
    "/tmp/pcloud-cli-"@ + dec(uid as nat) + ext
}

/// Builds `/tmp/pcloud-cli-<uid><ext>`.
fn make_uid_path(uid: u32, ext: &str) -> (r: String)
    ensures
        r@ == uid_path(uid, ext@),
{
    let mut s = string_from("/tmp/pcloud-cli-");
    push_u64(&mut s, uid as u64);
    push_str(&mut s, ext);
    s
}

impl DaemonConfig {
    /// The default configuration for user `uid`: PID file
    /// `/tmp/pcloud-cli-<uid>.pid`, working directory `temp_dir`, no user/group.
    pub fn for_user(uid: u32, temp_dir: &str) -> (r: Self)
        ensures
            r.pid_file@ == uid_path(uid, ".pid"@),
            r.working_directory@ == temp_dir@,
            r.user is None,
            r.group is None,
    {
        DaemonConfig {
            pid_file: make_uid_path(uid, ".pid"),
            working_directory: string_from(temp_dir),
            user: None,
            group: None,
        }
    }

    /// The default configuration with a custom PID file.
    pub fn with_pid_file(pid_file: &str, temp_dir: &str) -> (r: Self)
        ensures
            r.pid_file@ == pid_file@,
            r.working_directory@ == temp_dir@,
            r.user is None,
            r.group is None,
    {
        DaemonConfig {
            pid_file: string_from(pid_file),
            working_directory: string_from(temp_dir),
            user: None,
            group: None,
        }
    }

    /// The IPC socket path for user `uid`: `/tmp/pcloud-cli-<uid>.sock`.
    pub fn socket_path(&self, uid: u32) -> (r: String)
        ensures
            r@ == uid_path(uid, ".sock"@),
    {
        make_uid_path(uid, ".sock")
    }

    /// Set the user to run as after daemonizing.
    pub fn user(self, user: &str) -> (r: Self)
        ensures
            r.user matches Some(u) && u@ == user@,
            r.group == self.group,
            r.pid_file == self.pid_file,
            r.working_directory == self.working_directory,
    {
        DaemonConfig { user: Some(string_from(user)), ..self }
    }

    /// Set the group to run as after daemonizing.
    pub fn group(self, group: &str) -> (r: Self)
        ensures
            r.group matches Some(g) && g@ == group@,
            r.user == self.user,
            r.pid_file == self.pid_file,
            r.working_directory == self.working_directory,
    {
        DaemonConfig { group: Some(string_from(group)), ..self }
    }

    /// Set the working directory for the daemon.
    pub fn working_directory(self, path: &str) -> (r: Self)
        ensures
            r.working_directory@ == path@,
            r.user == self.user,
            r.group == self.group,
            r.pid_file == self.pid_file,
    {
        DaemonConfig { working_directory: string_from(path), ..self }
    }
}

// ---------------------------------------------------------------------------
// PID parsing (`str::trim` then `i32::from_str`)
// ---------------------------------------------------------------------------

/// Every character of `s` is an ASCII digit, and there is at least one.
pub open spec fn all_digits(s: Seq<char>) -> bool {
    s.len() > 0 && forall|i: int| 0 <= i < s.len() ==> '0' <= #[trigger] s[i] <= '9'
}

/// The value of a string of decimal digits.
pub open spec fn digits_value(s: Seq<char>) -> nat
    decreases s.len(),
{
    if s.len() == 0 {
        0
    } else {
        10 * digits_value(s.drop_last()) + ((s.last() as u32 - 48) as nat)
    }
}

/// What `i32::from_str` gives for `t`: an optional sign then decimal digits,
/// within range.
pub open spec fn parse_i32_spec(t: Seq<char>) -> Option<i32> {
    if t.len() > 0 && t[0] == '-' {
        let d = t.drop_first();
        if all_digits(d) && digits_value(d) <= 0x8000_0000 {
            Some((-(digits_value(d) as int)) as i32)
        } else {
            None
        }
    } else {
        let d = if t.len() > 0 && t[0] == '+' {
            t.drop_first()
        } else {
            t
        };
        if all_digits(d) && digits_value(d) <= 0x7fff_ffff {
            Some(digits_value(d) as i32)
        } else {
            None
        }
    }
}

/// A prefix of a digit string has a value no larger than the whole.
proof fn lemma_digits_value_prefix(s: Seq<char>, i: int)
    requires
        0 <= i <= s.len(),
        forall|j: int| 0 <= j < s.len() ==> '0' <= #[trigger] s[j] <= '9',
    ensures
        digits_value(s.take(i)) <= digits_value(s),
    decreases s.len() - i,
{
    if i < s.len() {
        let t = s.take(i + 1);
        assert(t.drop_last() =~= s.take(i));
        lemma_digits_value_prefix(s, i + 1);
    } else {
        assert(s.take(i) =~= s);
    }
}

/// The value of the digits `d[..]`, when at most `bound`.
fn digits_value_upto(d: &[char], bound: u64) -> (r: Option<u64>)
    requires
        bound <= 0x8000_0000,
    ensures
        match r {
            Some(v) => all_digits(d@) && v == digits_value(d@) && v <= bound,
            None => !(all_digits(d@) && digits_value(d@) <= bound),
        },
{
    if d.len() == 0 {
        return None;
    }
    let mut v: u64 = 0;
    let mut i: usize = 0;
    while i < d.len()
        invariant
            i <= d.len(),
            bound <= 0x8000_0000,
            forall|j: int| 0 <= j < i ==> '0' <= #[trigger] d@[j] <= '9',
            v == digits_value(d@.take(i as int)),
            v <= bound,
        decreases d.len() - i,
    {
        let c = d[i];
        if !('0' <= c && c <= '9') {
            return None;
        }
        assert(d@.take(i + 1).drop_last() =~= d@.take(i as int));
        let nv = 10 * v + ((c as u32 - 48) as u64);
        if nv > bound {
            proof {
                if all_digits(d@) {
                    lemma_digits_value_prefix(d@, i + 1);
                }
            }
            return None;
        }
        v = nv;
        i = i + 1;
    }
    assert(d@.take(d.len() as int) =~= d@);
    Some(v)
}

/// Parse a PID file's contents: surrounding whitespace is ignored and the
/// rest must be an `i32`.
pub fn parse_pid(content: &str) -> (r: Option<i32>)
    ensures
        r == parse_i32_spec(trim(content@)),
{
    let v = chars_of(content);
    let t = trim_chars(v.as_slice());
    parse_i32(t.as_slice())
}

/// Parse an `i32` as `i32::from_str` does.
pub fn parse_i32(t: &[char]) -> (r: Option<i32>)
    ensures
        r == parse_i32_spec(t@),
{
    if t.len() > 0 && t[0] == '-' {
        let d = crate::text::slice_chars(t, 1, t.len());
        assert(d@ =~= t@.drop_first());
        match digits_value_upto(d.as_slice(), 0x8000_0000) {
            Some(v) => {
                let r: i64 = -(v as i64);
                Some(r as i32)
            },
            None => None,
        }
    } else {
        let d = if t.len() > 0 && t[0] == '+' {
            let d = crate::text::slice_chars(t, 1, t.len());
            assert(d@ =~= t@.drop_first());
            d
        } else {
            crate::text::slice_chars(t, 0, t.len())
        };
        assert(t.len() == 0 || t@[0] != '+' ==> d@ =~= t@);
        match digits_value_upto(d.as_slice(), 0x7fff_ffff) {
            Some(v) => Some(v as i32),
            None => None,
        }
    }
}

/// The decimal representation of `n` is a digit string whose value is `n`.
pub proof fn lemma_dec_digits(n: nat)
    ensures
        all_digits(dec(n)),
        digits_value(dec(n)) == n,
    decreases n,
{
    if n < 10 {
        let s = dec(n);
        assert(s.drop_last() =~= Seq::<char>::empty());
        assert(crate::text::digit_char(n) as u32 == 48 + n);
        assert(s.last() == crate::text::digit_char(n));
        assert(digits_value(s.drop_last()) == 0);
        assert(digits_value(s) == 10 * digits_value(s.drop_last()) + ((s.last() as u32 - 48) as nat));
    } else {
        lemma_dec_digits(n / 10);
        let s = dec(n);
        assert(s.drop_last() =~= dec(n / 10));
        assert(crate::text::digit_char(n % 10) as u32 == 48 + n % 10);
        assert(s.last() == crate::text::digit_char(n % 10));
        assert(digits_value(s) == 10 * digits_value(s.drop_last()) + ((s.last() as u32 - 48) as nat));
        assert(10 * (n / 10) + n % 10 == n);
        assert forall|i: int| 0 <= i < s.len() implies '0' <= #[trigger] s[i] <= '9' by {
            if i < s.len() - 1 {
                assert(s[i] == dec(n / 10)[i]);
            }
        }
    }
}

/// Two users never share a socket or PID-file path: the paths hold the uid.
pub proof fn law_uid_paths_distinct(a: u32, b: u32, ext: Seq<char>)
    requires
        a != b,
    ensures
        uid_path(a, ext) != uid_path(b, ext),
{
    lemma_dec_digits(a as nat);
    lemma_dec_digits(b as nat);
    let pre = "/tmp/pcloud-cli-"@;
    if uid_path(a, ext) == uid_path(b, ext) {
        let x = uid_path(a, ext);
        assert(x.len() == pre.len() + dec(a as nat).len() + ext.len());
        assert(dec(a as nat).len() == dec(b as nat).len());
        assert(dec(a as nat) =~= x.subrange(pre.len() as int, x.len() - ext.len()));
        assert(dec(b as nat) =~= x.subrange(pre.len() as int, x.len() - ext.len()));
    }
}

/// A PID written in decimal (as the daemon writes its PID file) reads back
/// as the same PID, with or without the trailing newline.
pub proof fn law_pid_roundtrip(pid: i32)
    ensures
        parse_i32_spec(dec_int(pid as int)) == Some(pid),
        parse_i32_spec(trim(dec_int(pid as int) + "\n"@)) == Some(pid),
{
    reveal_strlit("\n");
    let t = dec_int(pid as int);
    if pid >= 0 {
        lemma_dec_digits(pid as nat);
        let d = dec(pid as nat);
        assert(d[0] != '-' && d[0] != '+');
        assert(t == d);
    } else {
        let m = (-(pid as int)) as nat;
        lemma_dec_digits(m);
        let d = dec(m);
        assert(t == seq!['-'] + d);
        assert(t[0] == '-');
        assert(t.drop_first() =~= d);
        assert(digits_value(d) <= 0x8000_0000);
        assert((-(digits_value(d) as int)) as i32 == pid);
    }
    lemma_trim_signed_digits_newline(t);
}

/// Trimming an optionally signed digit string followed by a newline leaves
/// it unchanged.
proof fn lemma_trim_signed_digits_newline(t: Seq<char>)
    requires
        t.len() > 0,
        t[0] == '-' || ('0' <= t[0] <= '9'),
        '0' <= t.last() <= '9',
    ensures
        trim(t + "\n"@) == t,
{
    reveal_strlit("\n");
    let s = t + "\n"@;
    let p = |c: char| crate::text::is_ws(c);
    assert(s[0] == t[0]);
    assert(!p(s[0]));
    assert(strip_leading(s, p) == s);
    assert(s.drop_last() =~= t);
    assert(p(s.last()));
    assert(strip_trailing(s, p) == strip_trailing(t, p));
    assert(!p(t.last()));
    assert(strip_trailing(t, p) == t);
}

} // verus!
