//! Preparing a directory to be a FUSE mountpoint.
//!
//! The caller looks at the path (`stat`), asks the user, runs the unmount
//! command and creates directories; these functions decide, from what it
//! found, what comes next. A stale FUSE mount (one whose `stat` fails with
//! `ENOTCONN` or `EIO`) is never unmounted without the user's consent.
use vstd::prelude::*;

use crate::error::{FilesystemError, PCloudError};
use crate::text::{chars_of, push_chars, push_str, string_from, trim, trim_chars};

verus! {

/// What looking at the mountpoint path found.
#[derive(Debug, Clone, PartialEq, Eq)]
pub enum MountpointProbe {
    /// The path is a directory.
    Directory,
    /// The path exists and is not a directory.
    NotADirectory,
    /// Nothing is at the path.
    Missing,
    /// `stat` failed as it does on a stale FUSE mount.
    StaleMount,
    /// `stat` failed otherwise (the error's text).
    Failed(String),
}

/// What to do about the mountpoint next.
#[derive(Debug)]
pub enum MountpointStep {
    /// The directory is ready.
    Ready,
    /// Create the directory (with its parents).
    Create,
    /// Warn about a stale mount and ask the user whether to unmount it.
    AskUnmount,
    /// Give up with this error.
    Fail(PCloudError),
}

/// The advice that follows a stale-mount error.
pub open spec fn manual_unmount_advice(path: Seq<char>) -> Seq<char> {
    "fusermount -u "@ + path + " (or: sudo umount -l "@ + path + ")"@
}

/// The message when the user declines to unmount a stale mount.
pub open spec fn declined_message(path: Seq<char>) -> Seq<char> {
    "Stale mount at "@ + path + " must be removed before continuing.\nRun manually: "@
        + manual_unmount_advice(path)
}

/// The message when the unmount command ran and failed.
pub open spec fn unmount_failed_message(stderr: Seq<char>, path: Seq<char>) -> Seq<char> {
    "Unmount failed: "@ + trim(stderr) + "\nTry manually: "@ + manual_unmount_advice(path)
}

/// The unmount program: `umount` on macOS, `fusermount` elsewhere.
pub open spec fn unmount_program(macos: bool) -> Seq<char> {
    if macos {
        "umount"@
    } else {
        "fusermount"@
    }
}

/// The message when the unmount program could not be started.
pub open spec fn spawn_failed_message(macos: bool, err: Seq<char>) -> Seq<char> {
    "Failed to run "@ + unmount_program(macos) + ": "@ + err
}

/// The step that follows a look at the mountpoint `path`.
pub fn mountpoint_step(path: &str, probe: MountpointProbe) -> (r: MountpointStep)
    ensures
        match probe {
            MountpointProbe::Directory => r is Ready,
            MountpointProbe::Missing => r is Create,
            MountpointProbe::StaleMount => r is AskUnmount,
            MountpointProbe::NotADirectory => (r matches MountpointStep::Fail(
                PCloudError::Filesystem(FilesystemError::NotADirectory(p)),
            ) && p@ == path@),
            MountpointProbe::Failed(e) => (r matches MountpointStep::Fail(PCloudError::Io(m))
                && m@ == e@),
        },
{
    match probe {
        MountpointProbe::Directory => MountpointStep::Ready,
        MountpointProbe::Missing => MountpointStep::Create,
        MountpointProbe::StaleMount => MountpointStep::AskUnmount,
        MountpointProbe::NotADirectory => MountpointStep::Fail(
            PCloudError::Filesystem(FilesystemError::NotADirectory(string_from(path))),
        ),
        MountpointProbe::Failed(e) => MountpointStep::Fail(PCloudError::Io(e)),
    }
}

/// The user's answer to "Attempt to unmount it?": `Ok` goes on to unmount,
/// a refusal ends with an error that says how to unmount by hand.
pub fn stale_mount_answer(path: &str, confirmed: bool) -> (r: Result<(), PCloudError>)
    ensures
        confirmed ==> r is Ok,
        !confirmed ==> (r matches Err(PCloudError::Filesystem(FilesystemError::MountPoint(m)))
            && m@ == declined_message(path@)),
{
    if confirmed {
        return Ok(());
    }
    let mut m = string_from("Stale mount at ");
    push_str(&mut m, path);
    push_str(&mut m, " must be removed before continuing.\nRun manually: ");
    push_advice(&mut m, path);
    Err(PCloudError::Filesystem(FilesystemError::MountPoint(m)))
}

/// Appends the manual unmount advice for `path`.
fn push_advice(s: &mut String, path: &str)
    ensures
        final(s)@ == old(s)@ + manual_unmount_advice(path@),
{
    let ghost start = s@;
    push_str(s, "fusermount -u ");
    push_str(s, path);
    push_str(s, " (or: sudo umount -l ");
    push_str(s, path);
    push_str(s, ")");
    assert(s@ =~= start + manual_unmount_advice(path@));
}

/// The command that unmounts `path`: `fusermount -u <path>`, or
/// `umount <path>` on macOS.
pub fn unmount_command(path: &str, macos: bool) -> (r: Vec<String>)
    ensures
        macos ==> r@.len() == 2 && r@[0]@ == "umount"@ && r@[1]@ == path@,
        !macos ==> r@.len() == 3 && r@[0]@ == "fusermount"@ && r@[1]@ == "-u"@ && r@[2]@
            == path@,
{
    let mut v: Vec<String> = Vec::new();
    if macos {
        v.push(string_from("umount"));
    } else {
        v.push(string_from("fusermount"));
        v.push(string_from("-u"));
    }
    v.push(string_from(path));
    v
}

/// How running the unmount command went.
#[derive(Debug, Clone, PartialEq, Eq)]
pub enum UnmountOutcome {
    /// The program could not be started (the error's text).
    SpawnFailed(String),
    /// The program ran; whether it succeeded, and what it wrote to stderr.
    Exited { success: bool, stderr: String },
}

/// The result of the unmount attempt on `path`.
pub fn unmount_result(path: &str, macos: bool, outcome: UnmountOutcome) -> (r: Result<(), PCloudError>)
    ensures
        match outcome {
            UnmountOutcome::SpawnFailed(e) => (r matches Err(
                PCloudError::Filesystem(FilesystemError::MountPoint(m)),
            ) && m@ == spawn_failed_message(macos, e@)),
            UnmountOutcome::Exited { success, stderr } => if success {
                r is Ok
            } else {
                (r matches Err(PCloudError::Filesystem(FilesystemError::MountPoint(m))) && m@
                    == unmount_failed_message(stderr@, path@))
            },
        },
{
    match outcome {
        UnmountOutcome::SpawnFailed(e) => {
            let mut m = string_from("Failed to run ");
            if macos {
                push_str(&mut m, "umount");
            } else {
                push_str(&mut m, "fusermount");
            }
            push_str(&mut m, ": ");
            push_str(&mut m, e.as_str());
            proof {
                reveal_strlit("umount");
                reveal_strlit("fusermount");
            }
            Err(PCloudError::Filesystem(FilesystemError::MountPoint(m)))
        },
        UnmountOutcome::Exited { success, stderr } => {
            if success {
                return Ok(());
            }
            let raw = chars_of(stderr.as_str());
            let t = trim_chars(raw.as_slice());
            let mut m = string_from("Unmount failed: ");
            push_chars(&mut m, t.as_slice());
            push_str(&mut m, "\nTry manually: ");
            push_advice(&mut m, path);
            Err(PCloudError::Filesystem(FilesystemError::MountPoint(m)))
        },
    }
}

} // verus!
