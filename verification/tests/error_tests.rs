use console_client::error::{AuthError, CryptoError, DaemonError, FfiError, FilesystemError, PCloudError};

#[test]
fn test_pcloud_error_display() {
    let err = PCloudError::Auth(AuthError::LoginRequired);
    assert!(err.to_string().contains("Login required"));

    let err = PCloudError::Config("bad config".to_string());
    assert!(err.to_string().contains("bad config"));

    let err = PCloudError::InvalidArgument("invalid".to_string());
    assert!(err.to_string().contains("invalid"));
}

#[test]
fn test_ffi_error_display() {
    let err = FfiError::init_failed(5);
    assert!(err.to_string().contains("initialize"));
    assert!(err.to_string().contains("SSL"));
    assert!(err.to_string().contains("5"));

    let err = FfiError::NullPointer { context: "test".to_string() };
    assert!(err.to_string().contains("Null pointer"));
    assert!(err.to_string().contains("test"));

    let err = FfiError::CError { code: -1, message: "fail".to_string() };
    assert!(err.to_string().contains("-1"));
    assert!(err.to_string().contains("fail"));
}

#[test]
fn test_ffi_error_not_initialized() {
    assert!(FfiError::NotInitialized.to_string().contains("not initialized"));
}

#[test]
fn test_ffi_error_already_initialized() {
    assert!(FfiError::AlreadyInitialized.to_string().contains("already initialized"));
}

#[test]
fn test_ffi_error_init_failed_codes() {
    assert!(FfiError::init_failed(3).to_string().contains("database"));
    assert!(FfiError::init_failed(4).to_string().contains("home directory"));
    assert!(FfiError::init_failed(5).to_string().contains("SSL"));
    assert!(FfiError::init_failed(6).to_string().contains("Database error"));
    let err = FfiError::init_failed(999);
    assert!(err.to_string().contains("999"));
    assert!(err.to_string().contains("Unknown"));
}

#[test]
fn test_auth_error_variants() {
    assert!(AuthError::LoginRequired.to_string().contains("Login"));
    assert!(AuthError::BadCredentials.to_string().contains("credential"));
    assert!(AuthError::BadToken.to_string().contains("token"));
    assert!(AuthError::AccountFull.to_string().contains("full"));
    assert!(AuthError::UserMismatch.to_string().contains("mismatch"));
    assert!(AuthError::NetworkError.to_string().contains("Network"));
    assert!(AuthError::EmailVerificationRequired.to_string().contains("verification"));
}

#[test]
fn test_auth_error_registration_failed() {
    let err = AuthError::RegistrationFailed("email exists".to_string());
    let msg = err.to_string();
    assert!(msg.contains("Registration"));
    assert!(msg.contains("email exists"));
}

#[test]
fn test_auth_error_other() {
    let err = AuthError::Other("custom error".to_string());
    assert!(err.to_string().contains("custom error"));
}

#[test]
fn test_crypto_error_from_setup_code() {
    assert!(matches!(CryptoError::from_setup_code(-1), CryptoError::NotSupported));
    assert!(matches!(CryptoError::from_setup_code(1), CryptoError::KeyGenFailed));
    assert!(matches!(CryptoError::from_setup_code(2), CryptoError::CantConnect));
    assert!(matches!(CryptoError::from_setup_code(3), CryptoError::NotLoggedIn));
    assert!(matches!(CryptoError::from_setup_code(4), CryptoError::AlreadySetup));
    assert!(matches!(CryptoError::from_setup_code(99), CryptoError::Unknown(99)));
}

#[test]
fn test_crypto_error_from_start_code() {
    assert!(matches!(CryptoError::from_start_code(-1), CryptoError::NotSupported));
    assert!(matches!(CryptoError::from_start_code(1), CryptoError::AlreadyStarted));
    assert!(matches!(CryptoError::from_start_code(2), CryptoError::CantConnect));
    assert!(matches!(CryptoError::from_start_code(3), CryptoError::NotLoggedIn));
    assert!(matches!(CryptoError::from_start_code(4), CryptoError::NotSetup));
    assert!(matches!(CryptoError::from_start_code(5), CryptoError::UnknownKeyFormat));
    assert!(matches!(CryptoError::from_start_code(6), CryptoError::BadPassword));
    assert!(matches!(CryptoError::from_start_code(7), CryptoError::KeysDontMatch));
}

#[test]
fn test_crypto_error_from_stop_code() {
    assert!(matches!(CryptoError::from_stop_code(-1), CryptoError::NotSupported));
    assert!(matches!(CryptoError::from_stop_code(1), CryptoError::NotStarted));
    assert!(matches!(CryptoError::from_stop_code(99), CryptoError::Unknown(99)));
}

#[test]
fn test_crypto_error_from_generic_code() {
    assert!(matches!(CryptoError::from_generic_code(-1), CryptoError::NotStarted));
    assert!(matches!(CryptoError::from_generic_code(-2), CryptoError::RsaError));
    assert!(matches!(CryptoError::from_generic_code(-3), CryptoError::FolderNotFound));
    assert!(matches!(CryptoError::from_generic_code(-4), CryptoError::FileNotFound));
    assert!(matches!(CryptoError::from_generic_code(-5), CryptoError::InvalidKey));
    assert!(matches!(CryptoError::from_generic_code(-6), CryptoError::CantConnect));
    assert!(matches!(CryptoError::from_generic_code(-7), CryptoError::FolderNotEncrypted));
    assert!(matches!(CryptoError::from_generic_code(-8), CryptoError::InternalError));
}

#[test]
fn test_crypto_error_display() {
    assert!(CryptoError::NotSupported.to_string().contains("not supported"));
    assert!(CryptoError::BadPassword.to_string().contains("password"));
    assert!(CryptoError::NotStarted.to_string().contains("not started"));
    assert!(CryptoError::AlreadyStarted.to_string().contains("already started"));
}

#[test]
fn test_filesystem_error_from_code() {
    assert!(matches!(FilesystemError::from_code(1), FilesystemError::LocalFolderNotFound(_)));
    assert!(matches!(FilesystemError::from_code(2), FilesystemError::RemoteFolderNotFound(_)));
    assert!(matches!(FilesystemError::from_code(3), FilesystemError::DatabaseOpen));
    assert!(matches!(FilesystemError::from_code(4), FilesystemError::NoHomeDir));
    assert!(matches!(FilesystemError::from_code(5), FilesystemError::SslInitFailed));
    assert!(matches!(FilesystemError::from_code(6), FilesystemError::DatabaseError));
    assert!(matches!(FilesystemError::from_code(7), FilesystemError::LocalFolderAccessDenied(_)));
    assert!(matches!(FilesystemError::from_code(8), FilesystemError::RemoteFolderAccessDenied));
    assert!(matches!(FilesystemError::from_code(9), FilesystemError::FolderAlreadySyncing));
    assert!(matches!(FilesystemError::from_code(10), FilesystemError::InvalidSyncType));
    assert!(matches!(FilesystemError::from_code(11), FilesystemError::Offline));
    assert!(matches!(FilesystemError::from_code(12), FilesystemError::InvalidSyncId));
    assert!(matches!(
        FilesystemError::from_code(13),
        FilesystemError::ParentOrSubfolderAlreadySyncing
    ));
    assert!(matches!(FilesystemError::from_code(14), FilesystemError::LocalIsOnPDrive));
    assert!(matches!(FilesystemError::from_code(999), FilesystemError::Unknown(999)));
}

#[test]
fn test_filesystem_error_display() {
    let err = FilesystemError::LocalFolderNotFound("/tmp/test".to_string());
    assert!(err.to_string().contains("/tmp/test"));
    let err = FilesystemError::MountPoint("error".to_string());
    assert!(err.to_string().contains("error"));
    let err = FilesystemError::MountpointNotFound("/mnt/test".to_string());
    assert!(err.to_string().contains("/mnt/test"));
    let err = FilesystemError::NotADirectory("/tmp/file.txt".to_string());
    assert!(err.to_string().contains("/tmp/file.txt"));
}

#[test]
fn test_daemon_error_variants() {
    assert!(DaemonError::NotRunning.to_string().contains("not running"));
    assert!(DaemonError::AlreadyRunning.to_string().contains("already running"));
    assert!(DaemonError::ConnectionFailed.to_string().contains("connect"));
}

#[test]
fn test_daemon_error_with_message() {
    assert!(DaemonError::DaemonizeFailed("fork failed".to_string()).to_string().contains("fork failed"));
    assert!(DaemonError::PidFile("permission denied".to_string()).to_string().contains("permission denied"));
    assert!(DaemonError::Socket("bind failed".to_string()).to_string().contains("bind failed"));
    assert!(DaemonError::Ipc("connection reset".to_string()).to_string().contains("connection reset"));
    assert!(DaemonError::InvalidCommand("unknown".to_string()).to_string().contains("unknown"));
    assert!(DaemonError::CommandFailed("timeout".to_string()).to_string().contains("timeout"));
    assert!(DaemonError::Serialization("bad format".to_string()).to_string().contains("bad format"));
    assert!(DaemonError::Signal("SIGKILL".to_string()).to_string().contains("SIGKILL"));
}

#[test]
fn unmapped_codes_are_unknown() {
    assert_eq!(CryptoError::from_setup_code(5), CryptoError::Unknown(5));
    assert_eq!(FilesystemError::from_code(0), FilesystemError::Unknown(0));
}

#[test]
fn test_pcloud_error_from_ffi() {
    let ffi_err = FfiError::init_failed(5);
    let pcloud_err: PCloudError = ffi_err.into();
    assert!(matches!(pcloud_err, PCloudError::Ffi(_)));
}

#[test]
fn test_pcloud_error_from_auth() {
    let auth_err = AuthError::BadCredentials;
    let pcloud_err: PCloudError = auth_err.into();
    assert!(matches!(pcloud_err, PCloudError::Auth(_)));
}

#[test]
fn test_pcloud_error_from_crypto() {
    let crypto_err = CryptoError::NotStarted;
    let pcloud_err: PCloudError = crypto_err.into();
    assert!(matches!(pcloud_err, PCloudError::Crypto(_)));
}

#[test]
fn test_pcloud_error_from_filesystem() {
    let fs_err = FilesystemError::NotMounted;
    let pcloud_err: PCloudError = fs_err.into();
    assert!(matches!(pcloud_err, PCloudError::Filesystem(_)));
}

#[test]
fn test_pcloud_error_from_daemon() {
    let daemon_err = DaemonError::NotRunning;
    let pcloud_err: PCloudError = daemon_err.into();
    assert!(matches!(pcloud_err, PCloudError::Daemon(_)));
}

fn assert_send_sync<T: Send + Sync>() {}

#[test]
fn test_error_is_send_sync() {
    assert_send_sync::<PCloudError>();
    assert_send_sync::<FfiError>();
    assert_send_sync::<AuthError>();
    assert_send_sync::<CryptoError>();
    assert_send_sync::<FilesystemError>();
    assert_send_sync::<DaemonError>();
}

#[test]
fn test_error_debug_impl() {
    let err = PCloudError::Config("test".to_string());
    let debug = format!("{:?}", err);
    assert!(debug.contains("Config"));
}

fn result_ok() -> console_client::error::Result<i32> {
    Ok(42)
}

fn result_err() -> console_client::error::Result<i32> {
    Err(PCloudError::Config("test".to_string()))
}

#[test]
fn test_result_type_alias() {
    assert_eq!(result_ok().unwrap(), 42);
    assert!(result_err().is_err());
}

#[test]
fn test_error_module_accessible() {
    let _err: Option<PCloudError> = None;
}
