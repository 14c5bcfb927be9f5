//! Error types for the pCloud console client.
//!
//! `PCloudError` is the top-level error; the specialised enums cover FFI,
//! authentication, crypto, filesystem and daemon failures. Each type has a
//! `message()` method giving its human-readable text, and the pclsync status
//! codes are mapped to variants by `from_*_code` constructors.
use vstd::prelude::*;

use crate::text::{dec, dec_int, push_i64, push_str, push_u64, string_from};

verus! {

/// Errors that occur at the FFI boundary with the pclsync C library.
#[derive(Debug)]
pub enum FfiError {
    /// Library initialization failed.
    InitFailed { code: u32, message: String },
    /// Null pointer was returned from a C function.
    NullPointer { context: String },
    /// Invalid UTF-8 string from C (the decoder's description).
    InvalidUtf8(String),
    /// C string conversion error (the converter's description).
    CStringError(String),
    /// C function returned an error code.
    CError { code: i32, message: String },
    /// Callback registration failed.
    CallbackRegistration(String),
    /// Library not initialized.
    NotInitialized,
    /// Library already initialized.
    AlreadyInitialized,
}

/// Authentication-related errors.
#[derive(Debug, PartialEq, Eq)]
pub enum AuthError {
    LoginRequired,
    BadCredentials,
    BadToken,
    AccountFull,
    UserMismatch,
    RegistrationFailed(String),
    EmailVerificationRequired,
    NetworkError,
    Other(String),
}

/// Crypto (encryption) operation errors, mapped from `PSYNC_CRYPTO_*` codes.
#[derive(Debug, PartialEq, Eq)]
pub enum CryptoError {
    NotSupported,
    KeyGenFailed,
    CantConnect,
    NotLoggedIn,
    AlreadySetup,
    NotSetup,
    AlreadyStarted,
    NotStarted,
    UnknownKeyFormat,
    BadPassword,
    KeysDontMatch,
    RsaError,
    FolderNotFound,
    FileNotFound,
    InvalidKey,
    FolderNotEncrypted,
    InternalError,
    Unknown(i32),
}

/// Filesystem operation errors, mapped from `PERROR_*` codes.
///
/// Paths are held as their display strings.
#[derive(Debug, PartialEq, Eq)]
pub enum FilesystemError {
    LocalFolderNotFound(String),
    RemoteFolderNotFound(String),
    DatabaseOpen,
    NoHomeDir,
    SslInitFailed,
    DatabaseError,
    LocalFolderAccessDenied(String),
    RemoteFolderAccessDenied,
    FolderAlreadySyncing,
    InvalidSyncType,
    Offline,
    InvalidSyncId,
    ParentOrSubfolderAlreadySyncing,
    LocalIsOnPDrive,
    MountPoint(String),
    Fuse(String),
    MountpointNotFound(String),
    NotADirectory(String),
    AlreadyMounted,
    NotMounted,
    MountFailed(i32),
    UnmountFailed(i32),
    InvalidPath,
    Unknown(i32),
}

/// Daemon and IPC operation errors.
#[derive(Debug, PartialEq, Eq)]
pub enum DaemonError {
    DaemonizeFailed(String),
    PidFile(String),
    Socket(String),
    Ipc(String),
    ConnectionFailed,
    NotRunning,
    AlreadyRunning,
    InvalidCommand(String),
    CommandFailed(String),
    Serialization(String),
    Signal(String),
}

/// The result of a pCloud operation.
pub type Result<T> = core::result::Result<T, PCloudError>;

/// Top-level error type for pCloud operations.
///
/// Errors that come from std (`io::Error`, `NulError`) are held as their
/// description strings.
#[derive(Debug)]
pub enum PCloudError {
    Ffi(FfiError),
    Auth(AuthError),
    Crypto(CryptoError),
    Filesystem(FilesystemError),
    Daemon(DaemonError),
    Config(String),
    Io(String),
    InvalidArgument(String),
    NotSupported(String),
    CString(String),
    /// Service (init system) management error.
    Service(String),
}

// ---------------------------------------------------------------------------
// Code mappings
// ---------------------------------------------------------------------------

/// The message `FfiError::init_failed` attaches to a pclsync init code.
pub open spec fn init_failed_message(code: u32) -> Seq<char> {
    if code == 0 {
        "Unknown error"@
    } else if code == 1 {
        "Local folder not found"@
    } else if code == 2 {
        "Remote folder not found"@
    } else if code == 3 {
        "Failed to open database"@
    } else if code == 4 {
        "No home directory found"@
    } else if code == 5 {
        "SSL initialization failed"@
    } else if code == 6 {
        "Database error"@
    } else if code == 7 {
        "Local folder access denied"@
    } else if code == 8 {
        "Remote folder access denied"@
    } else {
        "Unknown initialization error"@
    }
}

/// Crypto setup code → error (`code != 0`).
pub open spec fn setup_code_error(code: i32) -> CryptoError {
    if code == -1 {
        CryptoError::NotSupported
    } else if code == 1 {
        CryptoError::KeyGenFailed
    } else if code == 2 {
        CryptoError::CantConnect
    } else if code == 3 {
        CryptoError::NotLoggedIn
    } else if code == 4 {
        CryptoError::AlreadySetup
    } else {
        CryptoError::Unknown(code)
    }
}

/// Crypto start code → error (`code != 0`).
pub open spec fn start_code_error(code: i32) -> CryptoError {
    if code == -1 {
        CryptoError::NotSupported
    } else if code == 1 {
        CryptoError::AlreadyStarted
    } else if code == 2 {
        CryptoError::CantConnect
    } else if code == 3 {
        CryptoError::NotLoggedIn
    } else if code == 4 {
        CryptoError::NotSetup
    } else if code == 5 {
        CryptoError::UnknownKeyFormat
    } else if code == 6 {
        CryptoError::BadPassword
    } else if code == 7 {
        CryptoError::KeysDontMatch
    } else {
        CryptoError::Unknown(code)
    }
}

/// Crypto stop code → error (`code != 0`).
pub open spec fn stop_code_error(code: i32) -> CryptoError {
    if code == -1 {
        CryptoError::NotSupported
    } else if code == 1 {
        CryptoError::NotStarted
    } else {
        CryptoError::Unknown(code)
    }
}

/// Generic crypto code → error (`code != 0`).
pub open spec fn generic_code_error(code: i32) -> CryptoError {
    if code == -1 {
        CryptoError::NotStarted
    } else if code == -2 {
        CryptoError::RsaError
    } else if code == -3 {
        CryptoError::FolderNotFound
    } else if code == -4 {
        CryptoError::FileNotFound
    } else if code == -5 {
        CryptoError::InvalidKey
    } else if code == -6 {
        CryptoError::CantConnect
    } else if code == -7 {
        CryptoError::FolderNotEncrypted
    } else if code == -8 {
        CryptoError::InternalError
    } else {
        CryptoError::Unknown(code)
    }
}

/// `e` is what pclsync `PERROR_*` code `code` maps to (path payloads empty).
pub open spec fn fs_code_matches(code: u32, e: FilesystemError) -> bool {
    match e {
        FilesystemError::LocalFolderNotFound(p) => code == 1 && p@.len() == 0,
        FilesystemError::RemoteFolderNotFound(p) => code == 2 && p@.len() == 0,
        FilesystemError::DatabaseOpen => code == 3,
        FilesystemError::NoHomeDir => code == 4,
        FilesystemError::SslInitFailed => code == 5,
        FilesystemError::DatabaseError => code == 6,
        FilesystemError::LocalFolderAccessDenied(p) => code == 7 && p@.len() == 0,
        FilesystemError::RemoteFolderAccessDenied => code == 8,
        FilesystemError::FolderAlreadySyncing => code == 9,
        FilesystemError::InvalidSyncType => code == 10,
        FilesystemError::Offline => code == 11,
        FilesystemError::InvalidSyncId => code == 12,
        FilesystemError::ParentOrSubfolderAlreadySyncing => code == 13,
        FilesystemError::LocalIsOnPDrive => code == 14,
        FilesystemError::Unknown(c) => (code == 0 || code > 14) && c == code as i32,
        _ => false,
    }
}

impl FfiError {
    /// An `InitFailed` error for a pclsync init code, with its known message.
    pub fn init_failed(code: u32) -> (r: Self)
        ensures
            r matches FfiError::InitFailed { code: c, message: m } && c == code && m@
                == init_failed_message(code),
    {
        let message = if code == 0 {
            string_from("Unknown error")
        } else if code == 1 {
            string_from("Local folder not found")
        } else if code == 2 {
            string_from("Remote folder not found")
        } else if code == 3 {
            string_from("Failed to open database")
        } else if code == 4 {
            string_from("No home directory found")
        } else if code == 5 {
            string_from("SSL initialization failed")
        } else if code == 6 {
            string_from("Database error")
        } else if code == 7 {
            string_from("Local folder access denied")
        } else if code == 8 {
            string_from("Remote folder access denied")
        } else {
            string_from("Unknown initialization error")
        };
        FfiError::InitFailed { code, message }
    }
}

impl CryptoError {
    /// Convert a pclsync crypto setup error code (non-zero) to a `CryptoError`.
    pub fn from_setup_code(code: i32) -> (r: Self)
        requires
            code != 0,
        ensures
            r == setup_code_error(code),
    {
        match code {
            -1 => CryptoError::NotSupported,
            1 => CryptoError::KeyGenFailed,
            2 => CryptoError::CantConnect,
            3 => CryptoError::NotLoggedIn,
            4 => CryptoError::AlreadySetup,
            _ => CryptoError::Unknown(code),
        }
    }

    /// Convert a pclsync crypto start error code (non-zero) to a `CryptoError`.
    pub fn from_start_code(code: i32) -> (r: Self)
        requires
            code != 0,
        ensures
            r == start_code_error(code),
    {
        match code {
            -1 => CryptoError::NotSupported,
            1 => CryptoError::AlreadyStarted,
            2 => CryptoError::CantConnect,
            3 => CryptoError::NotLoggedIn,
            4 => CryptoError::NotSetup,
            5 => CryptoError::UnknownKeyFormat,
            6 => CryptoError::BadPassword,
            7 => CryptoError::KeysDontMatch,
            _ => CryptoError::Unknown(code),
        }
    }

    /// Convert a pclsync crypto stop error code (non-zero) to a `CryptoError`.
    pub fn from_stop_code(code: i32) -> (r: Self)
        requires
            code != 0,
        ensures
            r == stop_code_error(code),
    {
        match code {
            -1 => CryptoError::NotSupported,
            1 => CryptoError::NotStarted,
            _ => CryptoError::Unknown(code),
        }
    }

    /// Convert a pclsync generic crypto error code (non-zero) to a `CryptoError`.
    pub fn from_generic_code(code: i32) -> (r: Self)
        requires
            code != 0,
        ensures
            r == generic_code_error(code),
    {
        match code {
            -1 => CryptoError::NotStarted,
            -2 => CryptoError::RsaError,
            -3 => CryptoError::FolderNotFound,
            -4 => CryptoError::FileNotFound,
            -5 => CryptoError::InvalidKey,
            -6 => CryptoError::CantConnect,
            -7 => CryptoError::FolderNotEncrypted,
            -8 => CryptoError::InternalError,
            _ => CryptoError::Unknown(code),
        }
    }
}

impl FilesystemError {
    /// Convert a pclsync error code to a `FilesystemError`.
    pub fn from_code(code: u32) -> (r: Self)
        ensures
            fs_code_matches(code, r),
    {
        match code {
            1 => FilesystemError::LocalFolderNotFound(String::new()),
            2 => FilesystemError::RemoteFolderNotFound(String::new()),
            3 => FilesystemError::DatabaseOpen,
            4 => FilesystemError::NoHomeDir,
            5 => FilesystemError::SslInitFailed,
            6 => FilesystemError::DatabaseError,
            7 => FilesystemError::LocalFolderAccessDenied(String::new()),
            8 => FilesystemError::RemoteFolderAccessDenied,
            9 => FilesystemError::FolderAlreadySyncing,
            10 => FilesystemError::InvalidSyncType,
            11 => FilesystemError::Offline,
            12 => FilesystemError::InvalidSyncId,
            13 => FilesystemError::ParentOrSubfolderAlreadySyncing,
            14 => FilesystemError::LocalIsOnPDrive,
            _ => FilesystemError::Unknown(code as i32),
        }
    }
}

// ---------------------------------------------------------------------------
// Messages
// ---------------------------------------------------------------------------

/// The text `FfiError::message` gives for `e`.
pub open spec fn ffi_message(e: FfiError) -> Seq<char> {
    match e {
        FfiError::InitFailed{ code, message } => "Failed to initialize pclsync library: "@ + message@ + " (error code: "@ + dec(code as nat) + ")"@,
        FfiError::NullPointer{ context } => "Null pointer returned from C function: "@ + context@,
        FfiError::InvalidUtf8(_d) => "Invalid UTF-8 in string from C library"@,
        FfiError::CStringError(d) => "C string conversion error: "@ + d@,
        FfiError::CError{ code, message } => "C function returned error code "@ + dec_int(code as int) + ": "@ + message@,
        FfiError::CallbackRegistration(m) => "Failed to register callback: "@ + m@,
        FfiError::NotInitialized => "pclsync library not initialized"@,
        FfiError::AlreadyInitialized => "pclsync library already initialized"@,
    }
}

impl FfiError {
    /// The error's human-readable text.
    pub fn to_string(&self) -> (r: String)
        ensures
            r@ == ffi_message(*self),
    {
        let mut s = String::new();
        match self {
            FfiError::InitFailed{ code, message } => {
                push_str(&mut s, "Failed to initialize pclsync library: ");
                push_str(&mut s, message.as_str());
                push_str(&mut s, " (error code: ");
                push_u64(&mut s, *code as u64);
                push_str(&mut s, ")");
            },
            FfiError::NullPointer{ context } => {
                push_str(&mut s, "Null pointer returned from C function: ");
                push_str(&mut s, context.as_str());
            },
            FfiError::InvalidUtf8(_d) => {
                push_str(&mut s, "Invalid UTF-8 in string from C library");
            },
            FfiError::CStringError(d) => {
                push_str(&mut s, "C string conversion error: ");
                push_str(&mut s, d.as_str());
            },
            FfiError::CError{ code, message } => {
                push_str(&mut s, "C function returned error code ");
                push_i64(&mut s, *code as i64);
                push_str(&mut s, ": ");
                push_str(&mut s, message.as_str());
            },
            FfiError::CallbackRegistration(m) => {
                push_str(&mut s, "Failed to register callback: ");
                push_str(&mut s, m.as_str());
            },
            FfiError::NotInitialized => {
                push_str(&mut s, "pclsync library not initialized");
            },
            FfiError::AlreadyInitialized => {
                push_str(&mut s, "pclsync library already initialized");
            },
        }
        s
    }
}

/// The text `AuthError::message` gives for `e`.
pub open spec fn auth_message(e: AuthError) -> Seq<char> {
    match e {
        AuthError::LoginRequired => "Login required"@,
        AuthError::BadCredentials => "Invalid credentials"@,
        AuthError::BadToken => "Invalid or expired authentication token"@,
        AuthError::AccountFull => "Account storage is full"@,
        AuthError::UserMismatch => "User mismatch: cannot login as different user without unlinking first"@,
        AuthError::RegistrationFailed(m) => "Registration failed: "@ + m@,
        AuthError::EmailVerificationRequired => "Email verification required"@,
        AuthError::NetworkError => "Network error during authentication"@,
        AuthError::Other(m) => "Authentication error: "@ + m@,
    }
}

impl AuthError {
    /// The error's human-readable text.
    pub fn to_string(&self) -> (r: String)
        ensures
            r@ == auth_message(*self),
    {
        let mut s = String::new();
        match self {
            AuthError::LoginRequired => {
                push_str(&mut s, "Login required");
            },
            AuthError::BadCredentials => {
                push_str(&mut s, "Invalid credentials");
            },
            AuthError::BadToken => {
                push_str(&mut s, "Invalid or expired authentication token");
            },
            AuthError::AccountFull => {
                push_str(&mut s, "Account storage is full");
            },
            AuthError::UserMismatch => {
                push_str(&mut s, "User mismatch: cannot login as different user without unlinking first");
            },
            AuthError::RegistrationFailed(m) => {
                push_str(&mut s, "Registration failed: ");
                push_str(&mut s, m.as_str());
            },
            AuthError::EmailVerificationRequired => {
                push_str(&mut s, "Email verification required");
            },
            AuthError::NetworkError => {
                push_str(&mut s, "Network error during authentication");
            },
            AuthError::Other(m) => {
                push_str(&mut s, "Authentication error: ");
                push_str(&mut s, m.as_str());
            },
        }
        s
    }
}

/// The text `CryptoError::message` gives for `e`.
pub open spec fn crypto_message(e: CryptoError) -> Seq<char> {
    match e {
        CryptoError::NotSupported => "Crypto not supported"@,
        CryptoError::KeyGenFailed => "Key generation failed during crypto setup"@,
        CryptoError::CantConnect => "Cannot connect to server for crypto operation"@,
        CryptoError::NotLoggedIn => "Not logged in - crypto operations require authentication"@,
        CryptoError::AlreadySetup => "Crypto already set up"@,
        CryptoError::NotSetup => "Crypto not set up - run crypto setup first"@,
        CryptoError::AlreadyStarted => "Crypto already started"@,
        CryptoError::NotStarted => "Crypto not started"@,
        CryptoError::UnknownKeyFormat => "Unknown key format"@,
        CryptoError::BadPassword => "Bad crypto password"@,
        CryptoError::KeysDontMatch => "Crypto keys don't match"@,
        CryptoError::RsaError => "RSA operation failed"@,
        CryptoError::FolderNotFound => "Folder not found"@,
        CryptoError::FileNotFound => "File not found"@,
        CryptoError::InvalidKey => "Invalid encryption key"@,
        CryptoError::FolderNotEncrypted => "Folder is not encrypted"@,
        CryptoError::InternalError => "Internal crypto error"@,
        CryptoError::Unknown(c) => "Unknown crypto error (code: "@ + dec_int(c as int) + ")"@,
    }
}

impl CryptoError {
    /// The error's human-readable text.
    pub fn to_string(&self) -> (r: String)
        ensures
            r@ == crypto_message(*self),
    {
        let mut s = String::new();
        match self {
            CryptoError::NotSupported => {
                push_str(&mut s, "Crypto not supported");
            },
            CryptoError::KeyGenFailed => {
                push_str(&mut s, "Key generation failed during crypto setup");
            },
            CryptoError::CantConnect => {
                push_str(&mut s, "Cannot connect to server for crypto operation");
            },
            CryptoError::NotLoggedIn => {
                push_str(&mut s, "Not logged in - crypto operations require authentication");
            },
            CryptoError::AlreadySetup => {
                push_str(&mut s, "Crypto already set up");
            },
            CryptoError::NotSetup => {
                push_str(&mut s, "Crypto not set up - run crypto setup first");
            },
            CryptoError::AlreadyStarted => {
                push_str(&mut s, "Crypto already started");
            },
            CryptoError::NotStarted => {
                push_str(&mut s, "Crypto not started");
            },
            CryptoError::UnknownKeyFormat => {
                push_str(&mut s, "Unknown key format");
            },
            CryptoError::BadPassword => {
                push_str(&mut s, "Bad crypto password");
            },
            CryptoError::KeysDontMatch => {
                push_str(&mut s, "Crypto keys don't match");
            },
            CryptoError::RsaError => {
                push_str(&mut s, "RSA operation failed");
            },
            CryptoError::FolderNotFound => {
                push_str(&mut s, "Folder not found");
            },
            CryptoError::FileNotFound => {
                push_str(&mut s, "File not found");
            },
            CryptoError::InvalidKey => {
                push_str(&mut s, "Invalid encryption key");
            },
            CryptoError::FolderNotEncrypted => {
                push_str(&mut s, "Folder is not encrypted");
            },
            CryptoError::InternalError => {
                push_str(&mut s, "Internal crypto error");
            },
            CryptoError::Unknown(c) => {
                push_str(&mut s, "Unknown crypto error (code: ");
                push_i64(&mut s, *c as i64);
                push_str(&mut s, ")");
            },
        }
        s
    }
}

/// The text `FilesystemError::message` gives for `e`.
pub open spec fn fs_message(e: FilesystemError) -> Seq<char> {
    match e {
        FilesystemError::LocalFolderNotFound(p) => "Local folder not found: "@ + p@,
        FilesystemError::RemoteFolderNotFound(p) => "Remote folder not found: "@ + p@,
        FilesystemError::DatabaseOpen => "Failed to open database"@,
        FilesystemError::NoHomeDir => "No home directory found"@,
        FilesystemError::SslInitFailed => "SSL initialization failed"@,
        FilesystemError::DatabaseError => "Database error"@,
        FilesystemError::LocalFolderAccessDenied(p) => "Access denied to local folder: "@ + p@,
        FilesystemError::RemoteFolderAccessDenied => "Access denied to remote folder"@,
        FilesystemError::FolderAlreadySyncing => "Folder already syncing"@,
        FilesystemError::InvalidSyncType => "Invalid sync type"@,
        FilesystemError::Offline => "Device is offline"@,
        FilesystemError::InvalidSyncId => "Invalid sync ID"@,
        FilesystemError::ParentOrSubfolderAlreadySyncing => "Parent or subfolder already syncing"@,
        FilesystemError::LocalIsOnPDrive => "Local path is on pCloud Drive - not allowed"@,
        FilesystemError::MountPoint(m) => "Mount point error: "@ + m@,
        FilesystemError::Fuse(m) => "FUSE error: "@ + m@,
        FilesystemError::MountpointNotFound(p) => "Mountpoint not found: "@ + p@,
        FilesystemError::NotADirectory(p) => "Not a directory: "@ + p@,
        FilesystemError::AlreadyMounted => "Filesystem already mounted"@,
        FilesystemError::NotMounted => "Filesystem not mounted"@,
        FilesystemError::MountFailed(c) => "Mount failed with error code: "@ + dec_int(c as int),
        FilesystemError::UnmountFailed(c) => "Unmount failed with error code: "@ + dec_int(c as int),
        FilesystemError::InvalidPath => "Invalid mountpoint path"@,
        FilesystemError::Unknown(c) => "Unknown filesystem error (code: "@ + dec_int(c as int) + ")"@,
    }
}

impl FilesystemError {
    /// The error's human-readable text.
    pub fn to_string(&self) -> (r: String)
        ensures
            r@ == fs_message(*self),
    {
        let mut s = String::new();
        match self {
            FilesystemError::LocalFolderNotFound(p) => {
                push_str(&mut s, "Local folder not found: ");
                push_str(&mut s, p.as_str());
            },
            FilesystemError::RemoteFolderNotFound(p) => {
                push_str(&mut s, "Remote folder not found: ");
                push_str(&mut s, p.as_str());
            },
            FilesystemError::DatabaseOpen => {
                push_str(&mut s, "Failed to open database");
            },
            FilesystemError::NoHomeDir => {
                push_str(&mut s, "No home directory found");
            },
            FilesystemError::SslInitFailed => {
                push_str(&mut s, "SSL initialization failed");
            },
            FilesystemError::DatabaseError => {
                push_str(&mut s, "Database error");
            },
            FilesystemError::LocalFolderAccessDenied(p) => {
                push_str(&mut s, "Access denied to local folder: ");
                push_str(&mut s, p.as_str());
            },
            FilesystemError::RemoteFolderAccessDenied => {
                push_str(&mut s, "Access denied to remote folder");
            },
            FilesystemError::FolderAlreadySyncing => {
                push_str(&mut s, "Folder already syncing");
            },
            FilesystemError::InvalidSyncType => {
                push_str(&mut s, "Invalid sync type");
            },
            FilesystemError::Offline => {
                push_str(&mut s, "Device is offline");
            },
            FilesystemError::InvalidSyncId => {
                push_str(&mut s, "Invalid sync ID");
            },
            FilesystemError::ParentOrSubfolderAlreadySyncing => {
                push_str(&mut s, "Parent or subfolder already syncing");
            },
            FilesystemError::LocalIsOnPDrive => {
                push_str(&mut s, "Local path is on pCloud Drive - not allowed");
            },
            FilesystemError::MountPoint(m) => {
                push_str(&mut s, "Mount point error: ");
                push_str(&mut s, m.as_str());
            },
            FilesystemError::Fuse(m) => {
                push_str(&mut s, "FUSE error: ");
                push_str(&mut s, m.as_str());
            },
            FilesystemError::MountpointNotFound(p) => {
                push_str(&mut s, "Mountpoint not found: ");
                push_str(&mut s, p.as_str());
            },
            FilesystemError::NotADirectory(p) => {
                push_str(&mut s, "Not a directory: ");
                push_str(&mut s, p.as_str());
            },
            FilesystemError::AlreadyMounted => {
                push_str(&mut s, "Filesystem already mounted");
            },
            FilesystemError::NotMounted => {
                push_str(&mut s, "Filesystem not mounted");
            },
            FilesystemError::MountFailed(c) => {
                push_str(&mut s, "Mount failed with error code: ");
                push_i64(&mut s, *c as i64);
            },
            FilesystemError::UnmountFailed(c) => {
                push_str(&mut s, "Unmount failed with error code: ");
                push_i64(&mut s, *c as i64);
            },
            FilesystemError::InvalidPath => {
                push_str(&mut s, "Invalid mountpoint path");
            },
            FilesystemError::Unknown(c) => {
                push_str(&mut s, "Unknown filesystem error (code: ");
                push_i64(&mut s, *c as i64);
                push_str(&mut s, ")");
            },
        }
        s
    }
}

/// The text `DaemonError::message` gives for `e`.
pub open spec fn daemon_message(e: DaemonError) -> Seq<char> {
    match e {
        DaemonError::DaemonizeFailed(m) => "Failed to daemonize: "@ + m@,
        DaemonError::PidFile(m) => "PID file error: "@ + m@,
        DaemonError::Socket(m) => "IPC socket error: "@ + m@,
        DaemonError::Ipc(m) => "IPC error: "@ + m@,
        DaemonError::ConnectionFailed => "Failed to connect to daemon - is it running?"@,
        DaemonError::NotRunning => "Daemon is not running"@,
        DaemonError::AlreadyRunning => "Daemon is already running"@,
        DaemonError::InvalidCommand(m) => "Invalid daemon command: "@ + m@,
        DaemonError::CommandFailed(m) => "Command failed: "@ + m@,
        DaemonError::Serialization(m) => "Serialization error: "@ + m@,
        DaemonError::Signal(m) => "Signal handling error: "@ + m@,
    }
}

impl DaemonError {
    /// The error's human-readable text.
    pub fn to_string(&self) -> (r: String)
        ensures
            r@ == daemon_message(*self),
    {
        let mut s = String::new();
        match self {
            DaemonError::DaemonizeFailed(m) => {
                push_str(&mut s, "Failed to daemonize: ");
                push_str(&mut s, m.as_str());
            },
            DaemonError::PidFile(m) => {
                push_str(&mut s, "PID file error: ");
                push_str(&mut s, m.as_str());
            },
            DaemonError::Socket(m) => {
                push_str(&mut s, "IPC socket error: ");
                push_str(&mut s, m.as_str());
            },
            DaemonError::Ipc(m) => {
                push_str(&mut s, "IPC error: ");
                push_str(&mut s, m.as_str());
            },
            DaemonError::ConnectionFailed => {
                push_str(&mut s, "Failed to connect to daemon - is it running?");
            },
            DaemonError::NotRunning => {
                push_str(&mut s, "Daemon is not running");
            },
            DaemonError::AlreadyRunning => {
                push_str(&mut s, "Daemon is already running");
            },
            DaemonError::InvalidCommand(m) => {
                push_str(&mut s, "Invalid daemon command: ");
                push_str(&mut s, m.as_str());
            },
            DaemonError::CommandFailed(m) => {
                push_str(&mut s, "Command failed: ");
                push_str(&mut s, m.as_str());
            },
            DaemonError::Serialization(m) => {
                push_str(&mut s, "Serialization error: ");
                push_str(&mut s, m.as_str());
            },
            DaemonError::Signal(m) => {
                push_str(&mut s, "Signal handling error: ");
                push_str(&mut s, m.as_str());
            },
        }
        s
    }
}

/// The text `PCloudError::message` gives for `e`.
pub open spec fn pcloud_message(e: PCloudError) -> Seq<char> {
    match e {
        PCloudError::Ffi(e) => "FFI error: "@ + ffi_message(e),
        PCloudError::Auth(e) => "Authentication error: "@ + auth_message(e),
        PCloudError::Crypto(e) => "Crypto error: "@ + crypto_message(e),
        PCloudError::Filesystem(e) => "Filesystem error: "@ + fs_message(e),
        PCloudError::Daemon(e) => "Daemon error: "@ + daemon_message(e),
        PCloudError::Config(m) => "Configuration error: "@ + m@,
        PCloudError::Io(m) => "I/O error: "@ + m@,
        PCloudError::InvalidArgument(m) => "Invalid argument: "@ + m@,
        PCloudError::NotSupported(m) => "Not supported: "@ + m@,
        PCloudError::CString(m) => "C string error: "@ + m@,
        PCloudError::Service(m) => "Service error: "@ + m@,
    }
}

impl PCloudError {
    /// The error's human-readable text.
    pub fn to_string(&self) -> (r: String)
        ensures
            r@ == pcloud_message(*self),
    {
        let mut s = String::new();
        match self {
            PCloudError::Ffi(e) => {
                push_str(&mut s, "FFI error: ");
                let inner = e.to_string();
                push_str(&mut s, inner.as_str());
            },
            PCloudError::Auth(e) => {
                push_str(&mut s, "Authentication error: ");
                let inner = e.to_string();
                push_str(&mut s, inner.as_str());
            },
            PCloudError::Crypto(e) => {
                push_str(&mut s, "Crypto error: ");
                let inner = e.to_string();
                push_str(&mut s, inner.as_str());
            },
            PCloudError::Filesystem(e) => {
                push_str(&mut s, "Filesystem error: ");
                let inner = e.to_string();
                push_str(&mut s, inner.as_str());
            },
            PCloudError::Daemon(e) => {
                push_str(&mut s, "Daemon error: ");
                let inner = e.to_string();
                push_str(&mut s, inner.as_str());
            },
            PCloudError::Config(m) => {
                push_str(&mut s, "Configuration error: ");
                push_str(&mut s, m.as_str());
            },
            PCloudError::Io(m) => {
                push_str(&mut s, "I/O error: ");
                push_str(&mut s, m.as_str());
            },
            PCloudError::InvalidArgument(m) => {
                push_str(&mut s, "Invalid argument: ");
                push_str(&mut s, m.as_str());
            },
            PCloudError::NotSupported(m) => {
                push_str(&mut s, "Not supported: ");
                push_str(&mut s, m.as_str());
            },
            PCloudError::CString(m) => {
                push_str(&mut s, "C string error: ");
                push_str(&mut s, m.as_str());
            },
            PCloudError::Service(m) => {
                push_str(&mut s, "Service error: ");
                push_str(&mut s, m.as_str());
            },
        }
        s
    }
}


impl From<FfiError> for PCloudError {
    /// Wraps the error as `PCloudError::Ffi`.
    fn from(e: FfiError) -> (r: Self) {
        PCloudError::Ffi(e)
    }
}

impl vstd::std_specs::convert::FromSpecImpl<FfiError> for PCloudError {
    open spec fn obeys_from_spec() -> bool {
        true
    }

    open spec fn from_spec(e: FfiError) -> PCloudError {
        PCloudError::Ffi(e)
    }
}

impl From<AuthError> for PCloudError {
    /// Wraps the error as `PCloudError::Auth`.
    fn from(e: AuthError) -> (r: Self) {
        PCloudError::Auth(e)
    }
}

impl vstd::std_specs::convert::FromSpecImpl<AuthError> for PCloudError {
    open spec fn obeys_from_spec() -> bool {
        true
    }

    open spec fn from_spec(e: AuthError) -> PCloudError {
        PCloudError::Auth(e)
    }
}

impl From<CryptoError> for PCloudError {
    /// Wraps the error as `PCloudError::Crypto`.
    fn from(e: CryptoError) -> (r: Self) {
        PCloudError::Crypto(e)
    }
}

impl vstd::std_specs::convert::FromSpecImpl<CryptoError> for PCloudError {
    open spec fn obeys_from_spec() -> bool {
        true
    }

    open spec fn from_spec(e: CryptoError) -> PCloudError {
        PCloudError::Crypto(e)
    }
}

impl From<FilesystemError> for PCloudError {
    /// Wraps the error as `PCloudError::Filesystem`.
    fn from(e: FilesystemError) -> (r: Self) {
        PCloudError::Filesystem(e)
    }
}

impl vstd::std_specs::convert::FromSpecImpl<FilesystemError> for PCloudError {
    open spec fn obeys_from_spec() -> bool {
        true
    }

    open spec fn from_spec(e: FilesystemError) -> PCloudError {
        PCloudError::Filesystem(e)
    }
}

impl From<DaemonError> for PCloudError {
    /// Wraps the error as `PCloudError::Daemon`.
    fn from(e: DaemonError) -> (r: Self) {
        PCloudError::Daemon(e)
    }
}

impl vstd::std_specs::convert::FromSpecImpl<DaemonError> for PCloudError {
    open spec fn obeys_from_spec() -> bool {
        true
    }

    open spec fn from_spec(e: DaemonError) -> PCloudError {
        PCloudError::Daemon(e)
    }
}

} // verus!
