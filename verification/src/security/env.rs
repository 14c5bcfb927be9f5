//! Secrets injected through environment variables.
//!
//! | Secret | Direct env var | File env var |
//! |---|---|---|
//! | Auth token | `PCLOUD_AUTH_TOKEN` | `PCLOUD_AUTH_TOKEN_FILE` |
//! | Crypto password | `PCLOUD_CRYPTO_PASS` | `PCLOUD_CRYPTO_PASS_FILE` |
//!
//! The direct variable wins over the file variable. A direct value must not
//! be empty; a secret file must exist and hold something besides whitespace,
//! and its contents are trimmed. The caller reads (and clears) the variables
//! and reads the file; this module decides what they amount to.
use vstd::prelude::*;

use crate::error::PCloudError;
use crate::text::{chars_of, push_str, string_from, string_of, trim, trim_chars};

verus! {

/// Environment variable holding the auth token.
pub const ENV_AUTH_TOKEN: &'static str = "PCLOUD_AUTH_TOKEN";
/// Environment variable naming a file that holds the auth token.
pub const ENV_AUTH_TOKEN_FILE: &'static str = "PCLOUD_AUTH_TOKEN_FILE";
/// Environment variable holding the crypto password.
pub const ENV_CRYPTO_PASS: &'static str = "PCLOUD_CRYPTO_PASS";
/// Environment variable naming a file that holds the crypto password.
pub const ENV_CRYPTO_PASS_FILE: &'static str = "PCLOUD_CRYPTO_PASS_FILE";

/// Where a secret comes from, given the two variables' values.
#[derive(Debug, Clone, PartialEq, Eq)]
pub enum SecretSource {
    /// The direct variable's value.
    Direct(String),
    /// A file, by path.
    File(String),
    /// Neither variable is set.
    Unset,
}

/// Pick the source of a secret: the direct variable wins over the file one.
pub fn secret_source(direct: Option<String>, file_path: Option<String>) -> (r: SecretSource)
    ensures
        match direct {
            Some(v) => (r matches SecretSource::Direct(x) && x@ == v@),
            None => match file_path {
                Some(p) => (r matches SecretSource::File(x) && x@ == p@),
                None => r is Unset,
            },
        },
{
    match direct {
        Some(v) => SecretSource::Direct(v),
        None => match file_path {
            Some(p) => SecretSource::File(p),
            None => SecretSource::Unset,
        },
    }
}

/// `e` is a configuration error with message `m`.
pub open spec fn is_config_error(e: PCloudError, m: Seq<char>) -> bool {
    e matches PCloudError::Config(x) && x@ == m
}

/// A secret from the direct variable `env_name`: its value, unless empty.
pub fn direct_secret(env_name: &str, value: String) -> (r: Result<String, PCloudError>)
    ensures
        value@.len() > 0 ==> (r matches Ok(s) && s@ == value@),
        value@.len() == 0 ==> (r matches Err(e) && is_config_error(
            e,
            "Environment variable "@ + env_name@ + " is set but empty"@,
        )),
{
    let v = chars_of(value.as_str());
    if v.len() == 0 {
        let mut m = string_from("Environment variable ");
        push_str(&mut m, env_name);
        push_str(&mut m, " is set but empty");
        return Err(PCloudError::Config(m));
    }
    Ok(value)
}

/// What reading a secret file gave.
#[derive(Debug, Clone, PartialEq, Eq)]
pub enum SecretFileRead {
    /// The path does not exist.
    Missing,
    /// Reading failed (the error's text).
    Failed(String),
    /// The file's contents.
    Contents(String),
}

/// The result of a secret file at `path`, named by variable `env_file_name`.
pub open spec fn file_secret_ok(read: SecretFileRead, r: Result<String, PCloudError>, path: Seq<char>, env_file_name: Seq<char>) -> bool {
    match read {
        SecretFileRead::Missing => (r matches Err(e) && is_config_error(
            e,
            "Secret file not found: "@ + path + " (from "@ + env_file_name + ")"@,
        )),
        SecretFileRead::Failed(err) => (r matches Err(e) && is_config_error(
            e,
            "Failed to read secret file "@ + path + ": "@ + err@,
        )),
        SecretFileRead::Contents(c) => if trim(c@).len() == 0 {
            (r matches Err(e) && is_config_error(
                e,
                "Secret file is empty: "@ + path + " (from "@ + env_file_name + ")"@,
            ))
        } else {
            (r matches Ok(s) && s@ == trim(c@))
        },
    }
}

/// A secret from the file at `path` (named by variable `env_file_name`):
/// its trimmed contents, unless missing, unreadable or blank.
pub fn file_secret(env_file_name: &str, path: &str, read: SecretFileRead) -> (r: Result<String, PCloudError>)
    ensures
        file_secret_ok(read, r, path@, env_file_name@),
{
    match read {
        SecretFileRead::Missing => {
            let mut m = string_from("Secret file not found: ");
            push_str(&mut m, path);
            push_str(&mut m, " (from ");
            push_str(&mut m, env_file_name);
            push_str(&mut m, ")");
            Err(PCloudError::Config(m))
        },
        SecretFileRead::Failed(err) => {
            let mut m = string_from("Failed to read secret file ");
            push_str(&mut m, path);
            push_str(&mut m, ": ");
            push_str(&mut m, err.as_str());
            Err(PCloudError::Config(m))
        },
        SecretFileRead::Contents(c) => {
            let cs = chars_of(c.as_str());
            let t = trim_chars(cs.as_slice());
            if t.len() == 0 {
                let mut m = string_from("Secret file is empty: ");
                push_str(&mut m, path);
                push_str(&mut m, " (from ");
                push_str(&mut m, env_file_name);
                push_str(&mut m, ")");
                Err(PCloudError::Config(m))
            } else {
                Ok(string_of(t.as_slice()))
            }
        },
    }
}

/// A line ending character.
pub open spec fn is_eol(c: char) -> bool {
    c == '\n' || c == '\r'
}

/// A crypto password read from a `--password-file`: its contents without
/// trailing line endings, unless nothing is left.
pub fn password_from_file(contents: &str, path: &str) -> (r: Result<String, PCloudError>)
    ensures
        ({
            let t = crate::text::strip_trailing(contents@, |c: char| is_eol(c));
            if t.len() == 0 {
                (r matches Err(PCloudError::InvalidArgument(m)) && m@ == "Crypto password file "@
                    + path@ + " is empty"@)
            } else {
                (r matches Ok(p) && p@ == t)
            }
        }),
{
    let cs = chars_of(contents);
    let ghost p = |c: char| is_eol(c);
    let mut b: usize = cs.len();
    while b > 0 && (cs[b - 1] == '\n' || cs[b - 1] == '\r')
        invariant
            b <= cs@.len(),
            cs@ == contents@,
            forall|j: int| b <= j < cs@.len() ==> is_eol(#[trigger] cs@[j]),
        decreases b,
    {
        b = b - 1;
    }
    proof {
        assert forall|j: int| b <= j < cs@.len() implies p(cs@[j]) by {}
        crate::text::lemma_strip_trailing_take(cs@, p, b as int);
        let t = cs@.subrange(0, b as int);
        if t.len() > 0 {
            assert(t.last() == cs@[b - 1]);
        }
        assert(crate::text::strip_trailing(t, p) == t);
    }
    if b == 0 {
        let mut m = string_from("Crypto password file ");
        push_str(&mut m, path);
        push_str(&mut m, " is empty");
        return Err(PCloudError::InvalidArgument(m));
    }
    let kept = crate::text::slice_chars(cs.as_slice(), 0, b);
    Ok(string_of(kept.as_slice()))
}

} // verus!
