//! Daemon commands, responses and message framing.
//!
//! Messages travel over the daemon's Unix socket as frames: a 4-byte
//! little-endian length followed by that many payload bytes (the serialized
//! command or response). Frames longer than `MAX_MESSAGE_SIZE` are refused.
//!
//! Command processing is split in two: `command_request` says what a command
//! asks of the sync engine, and `command_response` turns the engine's outcome
//! into the reply (and says whether the daemon should shut down).
use vstd::prelude::*;

use crate::error::DaemonError;
use crate::text::{bool_text, dec, push_bool, push_str, push_u64, string_from};

verus! {

/// Largest accepted frame payload (1 MiB).
pub const MAX_MESSAGE_SIZE: usize = 1048576;

/// Commands that can be sent to the daemon.
///
/// There is no `Debug` derive: `debug_string` redacts the password.
#[derive(Clone)]
pub enum DaemonCommand {
    /// Start crypto with the password (the daemon cannot prompt).
    StartCrypto { password: Option<String> },
    /// Stop crypto (lock encrypted folders).
    StopCrypto,
    /// Graceful shutdown after sync finishes.
    Finalize,
    /// Immediate quit.
    Quit,
    /// Get current status.
    Status,
    /// Ping to check if the daemon is alive.
    Ping,
    /// Log out and clear saved credentials; the daemon then shuts down.
    Logout,
    /// Unlink the account and clear all local data; the daemon then shuts down.
    Unlink,
}

/// Response from the daemon.
#[derive(Debug, Clone, PartialEq, Eq)]
pub enum DaemonResponse {
    /// Command succeeded with no additional information.
    Success,
    /// Command succeeded with a message.
    OkWithMessage(String),
    /// Command failed with an error message.
    Error(String),
    /// Status of the daemon.
    Status { authenticated: bool, crypto_started: bool, mounted: bool, mountpoint: Option<String> },
    /// Reply to `Ping`.
    Pong,
}

/// The name of a command (its `Display` text).
pub open spec fn command_name(c: DaemonCommand) -> Seq<char> {
    match c {
        DaemonCommand::StartCrypto { .. } => "StartCrypto"@,
        DaemonCommand::StopCrypto => "StopCrypto"@,
        DaemonCommand::Finalize => "Finalize"@,
        DaemonCommand::Quit => "Quit"@,
        DaemonCommand::Status => "Status"@,
        DaemonCommand::Ping => "Ping"@,
        DaemonCommand::Logout => "Logout"@,
        DaemonCommand::Unlink => "Unlink"@,
    }
}

/// The debug text of a command; a password is shown as `[REDACTED]`.
pub open spec fn command_debug(c: DaemonCommand) -> Seq<char> {
    match c {
        DaemonCommand::StartCrypto { password } => match password {
            Some(_) => "StartCrypto { password: \"[REDACTED]\" }"@,
            None => "StartCrypto { password: \"None\" }"@,
        },
        _ => command_name(c),
    }
}

/// The display text of a response.
pub open spec fn response_text(r: DaemonResponse) -> Seq<char> {
    match r {
        DaemonResponse::Success => "OK"@,
        DaemonResponse::OkWithMessage(m) => m@,
        DaemonResponse::Error(e) => "Error: "@ + e@,
        DaemonResponse::Status { authenticated, crypto_started, mounted, mountpoint } => {
            "authenticated="@ + bool_text(authenticated) + ", crypto="@ + bool_text(crypto_started)
                + ", mounted="@ + bool_text(mounted) + match mountpoint {
                Some(mp) => ", mountpoint="@ + mp@,
                None => Seq::empty(),
            }
        },
        DaemonResponse::Pong => "Pong"@,
    }
}

impl DaemonCommand {
    /// The command's name.
    pub fn to_string(&self) -> (r: String)
        ensures
            r@ == command_name(*self),
    {
        match self {
            DaemonCommand::StartCrypto { .. } => string_from("StartCrypto"),
            DaemonCommand::StopCrypto => string_from("StopCrypto"),
            DaemonCommand::Finalize => string_from("Finalize"),
            DaemonCommand::Quit => string_from("Quit"),
            DaemonCommand::Status => string_from("Status"),
            DaemonCommand::Ping => string_from("Ping"),
            DaemonCommand::Logout => string_from("Logout"),
            DaemonCommand::Unlink => string_from("Unlink"),
        }
    }

    /// The command's debug text, never containing the password.
    pub fn debug_string(&self) -> (r: String)
        ensures
            r@ == command_debug(*self),
    {
        match self {
            DaemonCommand::StartCrypto { password } => match password {
                Some(_) => string_from("StartCrypto { password: \"[REDACTED]\" }"),
                None => string_from("StartCrypto { password: \"None\" }"),
            },
            _ => self.to_string(),
        }
    }
}

/// No password shows in a command's debug text: two commands that differ
/// only in the password have the same debug text.
pub proof fn law_debug_text_hides_password(a: String, b: String)
    ensures
        command_debug(DaemonCommand::StartCrypto { password: Some(a) }) == command_debug(
            DaemonCommand::StartCrypto { password: Some(b) },
        ),
{
}

impl DaemonResponse {
    /// The response's display text.
    pub fn to_string(&self) -> (r: String)
        ensures
            r@ == response_text(*self),
    {
        match self {
            DaemonResponse::Success => string_from("OK"),
            DaemonResponse::OkWithMessage(m) => m.clone(),
            DaemonResponse::Error(e) => {
                let mut s = string_from("Error: ");
                push_str(&mut s, e.as_str());
                s
            },
            DaemonResponse::Status { authenticated, crypto_started, mounted, mountpoint } => {
                let mut s = string_from("authenticated=");
                push_bool(&mut s, *authenticated);
                push_str(&mut s, ", crypto=");
                push_bool(&mut s, *crypto_started);
                push_str(&mut s, ", mounted=");
                push_bool(&mut s, *mounted);
                match mountpoint {
                    Some(mp) => {
                        push_str(&mut s, ", mountpoint=");
                        push_str(&mut s, mp.as_str());
                    },
                    None => {},
                }
                s
            },
            DaemonResponse::Pong => string_from("Pong"),
        }
    }
}

/// Whether a reply to `Ping` shows the daemon alive (it answered `Pong`).
pub fn is_alive_reply(reply: Option<&DaemonResponse>) -> (r: bool)
    ensures
        r == (reply matches Some(resp) && *resp is Pong),
{
    match reply {
        Some(DaemonResponse::Pong) => true,
        _ => false,
    }
}

// ---------------------------------------------------------------------------
// Framing
// ---------------------------------------------------------------------------

/// The 4 little-endian bytes of `n`.
pub open spec fn le_bytes(n: u32) -> Seq<u8> {
    seq![(n & 0xff) as u8, ((n >> 8u32) & 0xff) as u8, ((n >> 16u32) & 0xff) as u8, ((n >> 24u32) & 0xff) as u8]
}

/// The `u32` whose little-endian bytes are `b0..b3`.
pub open spec fn le_value(b0: u8, b1: u8, b2: u8, b3: u8) -> u32 {
    (b0 as u32) | ((b1 as u32) << 8u32) | ((b2 as u32) << 16u32) | ((b3 as u32) << 24u32)
}

/// A frame carrying `payload`.
pub open spec fn frame_of(payload: Seq<u8>) -> Seq<u8> {
    le_bytes(payload.len() as u32) + payload
}

/// Little-endian encoding of `n` (`u32::to_le_bytes`).
pub fn u32_to_le(n: u32) -> (r: [u8; 4])
    ensures
        r@ == le_bytes(n),
{
    [(n & 0xff) as u8, ((n >> 8u32) & 0xff) as u8, ((n >> 16u32) & 0xff) as u8, ((n >> 24u32) & 0xff) as u8]
}

/// Decoding of little-endian bytes (`u32::from_le_bytes`).
pub fn u32_from_le(b: [u8; 4]) -> (r: u32)
    ensures
        r == le_value(b@[0], b@[1], b@[2], b@[3]),
{
    (b[0] as u32) | ((b[1] as u32) << 8u32) | ((b[2] as u32) << 16u32) | ((b[3] as u32) << 24u32)
}

/// Decoding the little-endian bytes of `n` gives `n` back.
pub proof fn lemma_le_roundtrip(n: u32)
    ensures
        le_value(le_bytes(n)[0], le_bytes(n)[1], le_bytes(n)[2], le_bytes(n)[3]) == n,
{
    let b0 = (n & 0xff) as u8;
    let b1 = ((n >> 8u32) & 0xff) as u8;
    let b2 = ((n >> 16u32) & 0xff) as u8;
    let b3 = ((n >> 24u32) & 0xff) as u8;
    assert(((b0 as u32) | ((b1 as u32) << 8u32) | ((b2 as u32) << 16u32) | ((b3 as u32) << 24u32))
        == n) by (bit_vector)
        requires
            b0 == (n & 0xff) as u8,
            b1 == ((n >> 8u32) & 0xff) as u8,
            b2 == ((n >> 16u32) & 0xff) as u8,
            b3 == ((n >> 24u32) & 0xff) as u8,
    ;
}

/// A frame: the payload's length as 4 little-endian bytes, then the payload.
pub fn encode_frame(payload: &[u8]) -> (r: Vec<u8>)
    requires
        payload@.len() <= u32::MAX,
    ensures
        r@ == frame_of(payload@),
{
    let len = payload.len() as u32;
    let header = u32_to_le(len);
    let mut out: Vec<u8> = Vec::new();
    out.push(header[0]);
    out.push(header[1]);
    out.push(header[2]);
    out.push(header[3]);
    for i in 0..payload.len()
        invariant
            out@ == le_bytes(len) + payload@.take(i as int),
            len == payload@.len(),
    {
        out.push(payload[i]);
        assert(payload@.take(i + 1) =~= payload@.take(i as int).push(payload@[i as int]));
    }
    assert(payload@.take(payload@.len() as int) =~= payload@);
    out
}

/// The outcome of reading a frame from the front of a buffer.
#[derive(Debug, PartialEq, Eq)]
pub enum FrameRead {
    /// The buffer does not yet hold a whole frame.
    Incomplete,
    /// The announced length exceeds the limit.
    TooLarge(u32),
    /// A whole frame: its payload and how many bytes it used.
    Complete(Vec<u8>, usize),
}

/// The announced payload length of a buffer that starts with a header.
pub open spec fn announced_len(buf: Seq<u8>) -> u32 {
    le_value(buf[0], buf[1], buf[2], buf[3])
}

/// What reading a frame from the front of `buf` gives, with limit `max`.
pub open spec fn frame_read_spec(buf: Seq<u8>, max: usize, r: FrameRead) -> bool {
    if buf.len() < 4 {
        r is Incomplete
    } else if announced_len(buf) > max {
        r == FrameRead::TooLarge(announced_len(buf))
    } else if buf.len() < 4 + announced_len(buf) {
        r is Incomplete
    } else {
        r matches FrameRead::Complete(p, used) && used == 4 + announced_len(buf) && p@
            == buf.subrange(4, used as int)
    }
}

/// Read one frame from the front of `buf`, refusing lengths above `max`.
pub fn read_frame(buf: &[u8], max: usize) -> (r: FrameRead)
    ensures
        frame_read_spec(buf@, max, r),
{
    if buf.len() < 4 {
        return FrameRead::Incomplete;
    }
    let len = u32_from_le([buf[0], buf[1], buf[2], buf[3]]);
    if len as usize > max {
        return FrameRead::TooLarge(len);
    }
    let n = len as usize;
    if buf.len() - 4 < n {
        return FrameRead::Incomplete;
    }
    let mut payload: Vec<u8> = Vec::new();
    let mut i: usize = 0;
    while i < n
        invariant
            i <= n,
            4 + n <= buf.len(),
            payload@ == buf@.subrange(4, 4 + i),
        decreases n - i,
    {
        payload.push(buf[4 + i]);
        assert(buf@.subrange(4, 4 + i + 1) =~= buf@.subrange(4, 4 + i).push(buf@[4 + i]));
        i = i + 1;
    }
    FrameRead::Complete(payload, 4 + n)
}

/// The error for an oversized incoming frame: `"<what> too large: N bytes"`.
pub fn too_large_error(what: &str, len: u32) -> (r: DaemonError)
    ensures
        r matches DaemonError::Ipc(m) && m@ == what@ + " too large: "@ + dec(len as nat)
            + " bytes"@,
{
    let mut m = string_from(what);
    push_str(&mut m, " too large: ");
    push_u64(&mut m, len as u64);
    push_str(&mut m, " bytes");
    DaemonError::Ipc(m)
}

/// The payload length announced by a frame header, refused (as `what` too
/// large) above `max`.
pub fn header_len(header: [u8; 4], max: usize, what: &str) -> (r: Result<usize, DaemonError>)
    ensures
        le_value(header@[0], header@[1], header@[2], header@[3]) <= max ==> r == Ok::<
            usize,
            DaemonError,
        >(le_value(header@[0], header@[1], header@[2], header@[3]) as usize),
        le_value(header@[0], header@[1], header@[2], header@[3]) > max ==> (r matches Err(
            DaemonError::Ipc(m),
        ) && m@ == what@ + " too large: "@ + dec(
            le_value(header@[0], header@[1], header@[2], header@[3]) as nat,
        ) + " bytes"@),
{
    let len = u32_from_le(header);
    if len as usize > max {
        return Err(too_large_error(what, len));
    }
    Ok(len as usize)
}

/// A frame written by `encode_frame` is read back whole by `read_frame`,
/// whatever follows it, as long as the payload is within the limit.
pub proof fn law_frame_roundtrip(payload: Seq<u8>, rest: Seq<u8>, max: usize, r: FrameRead)
    requires
        payload.len() <= max,
        payload.len() <= u32::MAX,
        frame_read_spec(frame_of(payload) + rest, max, r),
    ensures
        r matches FrameRead::Complete(p, used) && p@ == payload && used == payload.len() + 4,
{
    let n = payload.len() as u32;
    lemma_le_roundtrip(n);
    let b = le_bytes(n);
    let buf = frame_of(payload) + rest;
    assert(b.len() == 4);
    assert(buf.len() == 4 + payload.len() + rest.len());
    assert(buf[0] == b[0]);
    assert(buf[1] == b[1]);
    assert(buf[2] == b[2]);
    assert(buf[3] == b[3]);
    assert(announced_len(buf) == n);
    assert(buf.subrange(4, 4 + n) =~= payload);
}

/// What the CLI prints for a reply: the text (each line ended by a newline)
/// and whether it goes to standard error.
pub open spec fn response_report_spec(r: DaemonResponse) -> (Seq<char>, bool) {
    match r {
        DaemonResponse::Success => ("OK\n"@, false),
        DaemonResponse::OkWithMessage(m) => (m@ + "\n"@, false),
        DaemonResponse::Error(e) => ("Error: "@ + e@ + "\n"@, true),
        DaemonResponse::Status { authenticated, crypto_started, mounted, mountpoint } => (
            "\n--- Daemon Status ---\nAuthenticated: "@ + bool_text(authenticated)
                + "\nCrypto started: "@ + bool_text(crypto_started) + "\nMounted: "@ + bool_text(
                mounted,
            ) + "\n"@ + match mountpoint {
                Some(mp) => "Mountpoint: "@ + mp@ + "\n"@,
                None => Seq::empty(),
            } + "---------------------\n\n"@,
            false,
        ),
        DaemonResponse::Pong => ("Pong\n"@, false),
    }
}

/// The report the CLI prints for a daemon reply, and whether it belongs on
/// standard error (errors) rather than standard output.
pub fn response_report(r: &DaemonResponse) -> (out: (String, bool))
    ensures
        (out.0@, out.1) == response_report_spec(*r),
{
    match r {
        DaemonResponse::Success => (string_from("OK\n"), false),
        DaemonResponse::OkWithMessage(m) => {
            let mut s = m.clone();
            push_str(&mut s, "\n");
            (s, false)
        },
        DaemonResponse::Error(e) => {
            let mut s = string_from("Error: ");
            push_str(&mut s, e.as_str());
            push_str(&mut s, "\n");
            (s, true)
        },
        DaemonResponse::Status { authenticated, crypto_started, mounted, mountpoint } => {
            let mut s = string_from("\n--- Daemon Status ---\nAuthenticated: ");
            push_bool(&mut s, *authenticated);
            push_str(&mut s, "\nCrypto started: ");
            push_bool(&mut s, *crypto_started);
            push_str(&mut s, "\nMounted: ");
            push_bool(&mut s, *mounted);
            push_str(&mut s, "\n");
            match mountpoint {
                Some(mp) => {
                    push_str(&mut s, "Mountpoint: ");
                    push_str(&mut s, mp.as_str());
                    push_str(&mut s, "\n");
                },
                None => {},
            }
            push_str(&mut s, "---------------------\n\n");
            (s, false)
        },
        DaemonResponse::Pong => (string_from("Pong\n"), false),
    }
}

/// The line `crypto status` prints for the crypto state.
pub fn crypto_state_line(started: bool) -> (r: &'static str)
    ensures
        r@ == if started {
            "Crypto: started (encrypted folders unlocked)"@
        } else {
            "Crypto: stopped (encrypted folders locked)"@
        },
{
    if started {
        "Crypto: started (encrypted folders unlocked)"
    } else {
        "Crypto: stopped (encrypted folders locked)"
    }
}

// ---------------------------------------------------------------------------
// Client
// ---------------------------------------------------------------------------

/// The `Duration` that `std::time::Duration::from_secs` makes of `secs`.
pub uninterp spec fn secs_duration(secs: u64) -> core::time::Duration;

/// `std::time::Duration::from_secs`.
#[verifier::external_body]
fn duration_from_secs(secs: u64) -> (r: core::time::Duration)
    ensures
        r == secs_duration(secs),
{
    core::time::Duration::from_secs(secs)
}

/// Default connection and operation timeout, in seconds.
pub const DEFAULT_TIMEOUT_SECS: u64 = 30;

/// Where and how long a client talks to the daemon. Connecting and the
/// exchange itself are done by the caller.
pub struct DaemonClient {
    /// Path to the daemon's Unix socket.
    socket_path: String,
    /// Connection timeout.
    timeout: core::time::Duration,
}

impl View for DaemonClient {
    /// The socket path and the timeout.
    type V = (Seq<char>, core::time::Duration);

    closed spec fn view(&self) -> (Seq<char>, core::time::Duration) {
        (self.socket_path@, self.timeout)
    }
}

impl DaemonClient {
    /// The socket path, as a specification.
    pub open spec fn socket_path_view(&self) -> Seq<char> {
        self@.0
    }

    /// The timeout, as a specification.
    pub open spec fn timeout_view(&self) -> core::time::Duration {
        self@.1
    }

    /// A client for the socket at `socket_path`, with the default timeout.
    pub fn new(socket_path: &str) -> (r: Self)
        ensures
            r.socket_path_view() == socket_path@,
            r.timeout_view() == secs_duration(DEFAULT_TIMEOUT_SECS),
    {
        DaemonClient { socket_path: string_from(socket_path), timeout: duration_from_secs(DEFAULT_TIMEOUT_SECS) }
    }

    /// A client with a custom timeout.
    pub fn with_timeout(socket_path: &str, timeout: core::time::Duration) -> (r: Self)
        ensures
            r.socket_path_view() == socket_path@,
            r.timeout_view() == timeout,
    {
        DaemonClient { socket_path: string_from(socket_path), timeout }
    }

    /// The socket path.
    pub fn socket_path(&self) -> (r: &str)
        ensures
            r@ == self.socket_path_view(),
    {
        self.socket_path.as_str()
    }

    /// The connection and operation timeout.
    pub fn timeout(&self) -> (r: core::time::Duration)
        ensures
            r == self.timeout_view(),
    {
        self.timeout
    }
}

// ---------------------------------------------------------------------------
// Command processing
// ---------------------------------------------------------------------------

/// The work a command asks of the sync engine.
#[derive(Debug, Clone, PartialEq, Eq)]
pub enum EngineRequest {
    /// No engine access is needed.
    Nothing,
    /// Read authentication, crypto and mount state.
    ReadStatus,
    /// Start crypto with this password.
    StartCrypto(String),
    /// Stop crypto.
    StopCrypto,
    /// Log out and clear saved credentials.
    Logout,
    /// Unlink the account and clear local data.
    Unlink,
}

/// What the engine reported back for an `EngineRequest`.
#[derive(Debug, Clone, PartialEq, Eq)]
pub enum EngineOutcome {
    /// Nothing was asked of the engine.
    NotNeeded,
    /// The engine lock could not be taken (the lock error's text).
    LockFailed(String),
    /// The engine state, for `ReadStatus`.
    State { authenticated: bool, crypto_started: bool, mounted: bool, mountpoint: Option<String> },
    /// The requested operation succeeded.
    Done,
    /// The requested operation failed (the error's text).
    Failed(String),
}

/// The engine work for a command.
pub open spec fn request_for(c: DaemonCommand) -> EngineRequest {
    match c {
        DaemonCommand::Status => EngineRequest::ReadStatus,
        DaemonCommand::StartCrypto { password } => match password {
            Some(p) => EngineRequest::StartCrypto(p),
            None => EngineRequest::Nothing,
        },
        DaemonCommand::StopCrypto => EngineRequest::StopCrypto,
        DaemonCommand::Logout => EngineRequest::Logout,
        DaemonCommand::Unlink => EngineRequest::Unlink,
        _ => EngineRequest::Nothing,
    }
}

/// The work a command asks of the engine; a `StartCrypto` password moves into
/// the request.
pub fn command_request(c: DaemonCommand) -> (r: EngineRequest)
    ensures
        r == request_for(c),
{
    match c {
        DaemonCommand::Status => EngineRequest::ReadStatus,
        DaemonCommand::StartCrypto { password } => match password {
            Some(p) => EngineRequest::StartCrypto(p),
            None => EngineRequest::Nothing,
        },
        DaemonCommand::StopCrypto => EngineRequest::StopCrypto,
        DaemonCommand::Logout => EngineRequest::Logout,
        DaemonCommand::Unlink => EngineRequest::Unlink,
        _ => EngineRequest::Nothing,
    }
}

/// Each command asks the engine for its own work: `Status` reads the state,
/// `StopCrypto` stops crypto, `Logout` and `Unlink` do so, `StartCrypto`
/// hands its password on; only `Ping`, `Finalize`, `Quit` and a `StartCrypto`
/// without a password need no engine work.
pub proof fn law_command_requests(c: DaemonCommand)
    ensures
        (request_for(c) is Nothing) <==> (c is Ping || c is Finalize || c is Quit || (c is StartCrypto
            && c->password is None)),
        (request_for(c) is ReadStatus) <==> c is Status,
        (request_for(c) is StopCrypto) <==> c is StopCrypto,
        (request_for(c) is Logout) <==> c is Logout,
        (request_for(c) is Unlink) <==> c is Unlink,
        (request_for(c) is StartCrypto) <==> (c is StartCrypto && c->password is Some),
        request_for(c) matches EngineRequest::StartCrypto(p) ==> c->password == Some(p),
{
}

/// The reply for a failed engine lock.
pub open spec fn lock_failed_text(e: Seq<char>) -> Seq<char> {
    "Failed to acquire client lock: "@ + e
}

/// `o` is an outcome the engine can report for command `c`'s request.
pub open spec fn outcome_fits(c: DaemonCommand, o: EngineOutcome) -> bool {
    match request_for(c) {
        EngineRequest::Nothing => o is NotNeeded,
        EngineRequest::ReadStatus => o is LockFailed || o is State,
        EngineRequest::StartCrypto(_) => o is LockFailed || o is Done || o is Failed,
        EngineRequest::StopCrypto => o is LockFailed || o is Done || o is Failed,
        EngineRequest::Logout => o is LockFailed || o is Done,
        EngineRequest::Unlink => o is LockFailed || o is Done,
    }
}

/// Whether `o` is an outcome the engine can report for command `c`'s
/// request (what `command_response` accepts).
pub fn outcome_fits_command(c: &DaemonCommand, o: &EngineOutcome) -> (r: bool)
    ensures
        r == outcome_fits(*c, *o),
{
    let is_not_needed = match o {
        EngineOutcome::NotNeeded => true,
        _ => false,
    };
    let is_lock_failed = match o {
        EngineOutcome::LockFailed(_) => true,
        _ => false,
    };
    let is_state = match o {
        EngineOutcome::State { .. } => true,
        _ => false,
    };
    let is_done = match o {
        EngineOutcome::Done => true,
        _ => false,
    };
    let is_failed = match o {
        EngineOutcome::Failed(_) => true,
        _ => false,
    };
    match c {
        DaemonCommand::Status => is_lock_failed || is_state,
        DaemonCommand::StartCrypto { password } => match password {
            Some(_) => is_lock_failed || is_done || is_failed,
            None => is_not_needed,
        },
        DaemonCommand::StopCrypto => is_lock_failed || is_done || is_failed,
        DaemonCommand::Logout => is_lock_failed || is_done,
        DaemonCommand::Unlink => is_lock_failed || is_done,
        _ => is_not_needed,
    }
}

/// `r` is an `Error` reply carrying text `t`.
pub open spec fn is_error_with(r: DaemonResponse, t: Seq<char>) -> bool {
    match r {
        DaemonResponse::Error(m) => m@ == t,
        _ => false,
    }
}

/// `r` is an `OkWithMessage` reply carrying text `t`.
pub open spec fn is_ok_with(r: DaemonResponse, t: Seq<char>) -> bool {
    match r {
        DaemonResponse::OkWithMessage(m) => m@ == t,
        _ => false,
    }
}

/// `r` is the reply to command `c` given engine outcome `o`, and `shutdown`
/// whether the daemon must then be asked to shut down.
pub open spec fn response_spec(c: DaemonCommand, o: EngineOutcome, r: DaemonResponse, shutdown: bool) -> bool {
    match o {
        EngineOutcome::LockFailed(e) => !shutdown && is_error_with(r, lock_failed_text(e@)),
        EngineOutcome::State { authenticated, crypto_started, mounted, mountpoint } => !shutdown
            && r == DaemonResponse::Status { authenticated, crypto_started, mounted, mountpoint },
        EngineOutcome::Failed(e) => !shutdown && is_error_with(r, e@),
        EngineOutcome::Done => match c {
            DaemonCommand::StartCrypto { .. } => !shutdown && is_ok_with(
                r,
                "Crypto started - encrypted folders are now accessible"@,
            ),
            DaemonCommand::StopCrypto => !shutdown && is_ok_with(
                r,
                "Crypto stopped - encrypted folders are now locked"@,
            ),
            DaemonCommand::Logout => shutdown && is_ok_with(
                r,
                "Logged out and credentials cleared. Daemon shutting down."@,
            ),
            _ => shutdown && is_ok_with(
                r,
                "Account unlinked and all local data cleared. Daemon shutting down."@,
            ),
        },
        EngineOutcome::NotNeeded => match c {
            DaemonCommand::Ping => r == DaemonResponse::Pong && !shutdown,
            DaemonCommand::Finalize => shutdown && is_ok_with(
                r,
                "Finalize requested - daemon will shut down after sync completes"@,
            ),
            DaemonCommand::Quit => shutdown && is_ok_with(r, "Quit requested - daemon shutting down"@),
            _ => !shutdown && is_error_with(
                r,
                "Password required for crypto start (daemon cannot prompt)"@,
            ),
        },
    }
}

/// Make a message string.
fn msg(t: &str) -> (r: String)
    ensures
        r@ == t@,
{
    string_from(t)
}

/// The reply to command `c` once the engine reported `o`, and whether the
/// daemon must then be asked to shut down.
pub fn command_response(c: &DaemonCommand, o: EngineOutcome) -> (r: (DaemonResponse, bool))
    requires
        outcome_fits(*c, o),
    ensures
        response_spec(*c, o, r.0, r.1),
{
    match o {
        EngineOutcome::LockFailed(e) => {
            let mut m = msg("Failed to acquire client lock: ");
            push_str(&mut m, e.as_str());
            (DaemonResponse::Error(m), false)
        },
        EngineOutcome::State { authenticated, crypto_started, mounted, mountpoint } => (
            DaemonResponse::Status { authenticated, crypto_started, mounted, mountpoint },
            false,
        ),
        EngineOutcome::Failed(e) => (DaemonResponse::Error(e), false),
        EngineOutcome::Done => match c {
            DaemonCommand::StartCrypto { .. } => (
                DaemonResponse::OkWithMessage(
                    msg("Crypto started - encrypted folders are now accessible"),
                ),
                false,
            ),
            DaemonCommand::StopCrypto => (
                DaemonResponse::OkWithMessage(msg("Crypto stopped - encrypted folders are now locked")),
                false,
            ),
            DaemonCommand::Logout => (
                DaemonResponse::OkWithMessage(
                    msg("Logged out and credentials cleared. Daemon shutting down."),
                ),
                true,
            ),
            _ => (
                DaemonResponse::OkWithMessage(
                    msg("Account unlinked and all local data cleared. Daemon shutting down."),
                ),
                true,
            ),
        },
        EngineOutcome::NotNeeded => match c {
            DaemonCommand::Ping => (DaemonResponse::Pong, false),
            DaemonCommand::Finalize => (
                DaemonResponse::OkWithMessage(
                    msg("Finalize requested - daemon will shut down after sync completes"),
                ),
                true,
            ),
            DaemonCommand::Quit => (
                DaemonResponse::OkWithMessage(msg("Quit requested - daemon shutting down")),
                true,
            ),
            _ => (
                DaemonResponse::Error(
                    msg("Password required for crypto start (daemon cannot prompt)"),
                ),
                false,
            ),
        },
    }
}

/// Every command the daemon accepts gets a reply for every outcome its
/// request can have, and only `Finalize`, `Quit`, and a successful `Logout`
/// or `Unlink` ask the daemon to shut down.
pub proof fn law_shutdown_only_on_exit_commands(
    c: DaemonCommand,
    o: EngineOutcome,
    r: DaemonResponse,
    shutdown: bool,
)
    requires
        outcome_fits(c, o),
        response_spec(c, o, r, shutdown),
    ensures
        shutdown <==> (c is Finalize || c is Quit || ((c is Logout || c is Unlink) && o is Done)),
{
}

/// Stopping crypto: the engine may fail to lock, succeed or fail, and on
/// success the reply says the encrypted folders are now locked and the
/// daemon keeps running.
pub proof fn law_stop_crypto_reply(o: EngineOutcome, r: DaemonResponse, shutdown: bool)
    ensures
        outcome_fits(DaemonCommand::StopCrypto, o) <==> (o is LockFailed || o is Done || o is Failed),
        o is Done && response_spec(DaemonCommand::StopCrypto, o, r, shutdown) ==> !shutdown && (
        r matches DaemonResponse::OkWithMessage(m) && m@ == "Crypto stopped - encrypted folders are now locked"@),
{
}

} // verus!
