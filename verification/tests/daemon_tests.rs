use console_client::daemon::activity::{ActivityLog, MAX_ACTIVITY};
use console_client::daemon::init;
use console_client::daemon::ipc::{
    command_request, command_response, encode_frame, header_len, read_frame, too_large_error, u32_from_le,
    u32_to_le, DaemonClient, DaemonCommand, DaemonResponse, EngineOutcome, EngineRequest,
    FrameRead, MAX_MESSAGE_SIZE,
};
use console_client::daemon::process::{parse_pid, DaemonConfig};
use console_client::daemon::signals::SignalFlags;
use console_client::error::DaemonError;
use std::time::Duration;

#[test]
fn test_daemon_command_display() {
    assert_eq!(DaemonCommand::Ping.to_string(), "Ping");
    assert_eq!(DaemonCommand::Status.to_string(), "Status");
    assert_eq!(DaemonCommand::Quit.to_string(), "Quit");
    assert_eq!(DaemonCommand::Finalize.to_string(), "Finalize");
    assert_eq!(DaemonCommand::StopCrypto.to_string(), "StopCrypto");
    assert_eq!(
        DaemonCommand::StartCrypto { password: Some("test".to_string()) }.to_string(),
        "StartCrypto"
    );
    assert_eq!(DaemonCommand::Logout.to_string(), "Logout");
    assert_eq!(DaemonCommand::Unlink.to_string(), "Unlink");
}

#[test]
fn test_daemon_command_debug_redacts_password() {
    let cmd = DaemonCommand::StartCrypto { password: Some("super_secret_password".to_string()) };
    let debug_str = cmd.debug_string();
    assert!(!debug_str.contains("super_secret_password"));
    assert!(debug_str.contains("REDACTED"));
}

#[test]
fn test_daemon_command_debug_shows_none_password() {
    let cmd = DaemonCommand::StartCrypto { password: None };
    let debug_str = cmd.debug_string();
    assert!(debug_str.contains("None"));
}

#[test]
fn test_daemon_response_display() {
    assert_eq!(DaemonResponse::Success.to_string(), "OK");
    assert_eq!(DaemonResponse::OkWithMessage("done".to_string()).to_string(), "done");
    assert_eq!(DaemonResponse::Error("failed".to_string()).to_string(), "Error: failed");
    assert_eq!(DaemonResponse::Pong.to_string(), "Pong");

    let status = DaemonResponse::Status {
        authenticated: true,
        crypto_started: false,
        mounted: true,
        mountpoint: Some("/home/user/pCloud".to_string()),
    };
    let status_str = status.to_string();
    assert!(status_str.contains("authenticated=true"));
    assert!(status_str.contains("crypto=false"));
    assert!(status_str.contains("mounted=true"));
    assert!(status_str.contains("/home/user/pCloud"));
}

#[test]
fn test_daemon_client_new() {
    let client = DaemonClient::new("/tmp/test.sock");
    assert_eq!(client.socket_path(), "/tmp/test.sock");
    assert_eq!(client.timeout(), Duration::from_secs(30));
}

#[test]
fn test_daemon_client_with_timeout() {
    let client = DaemonClient::with_timeout("/tmp/test.sock", Duration::from_secs(10));
    assert_eq!(client.socket_path(), "/tmp/test.sock");
    assert_eq!(client.timeout(), Duration::from_secs(10));
}

#[test]
fn test_length_prefix_format() {
    let payload = b"hello";
    let frame = encode_frame(payload);
    assert_eq!(&frame[..4], &(payload.len() as u32).to_le_bytes());
    assert_eq!(&frame[4..], payload);
}

#[test]
fn le_bytes_round_trip() {
    assert_eq!(u32_to_le(0x0403_0201), [1, 2, 3, 4]);
    assert_eq!(u32_from_le([1, 2, 3, 4]), 0x0403_0201);
    assert_eq!(u32_from_le(u32_to_le(1_048_576)), 1_048_576);
}

#[test]
fn frame_written_is_read_back_with_trailing_bytes() {
    let payload = vec![9u8, 8, 7];
    let mut buf = encode_frame(&payload);
    buf.extend_from_slice(&[1, 2]);
    match read_frame(&buf, MAX_MESSAGE_SIZE) {
        FrameRead::Complete(p, used) => {
            assert_eq!(p, payload);
            assert_eq!(used, 7);
        }
        other => panic!("unexpected {:?}", other),
    }
}

#[test]
fn short_or_oversized_frames() {
    assert_eq!(read_frame(&[1, 0], MAX_MESSAGE_SIZE), FrameRead::Incomplete);
    assert_eq!(read_frame(&[3, 0, 0, 0, 1], MAX_MESSAGE_SIZE), FrameRead::Incomplete);
    assert_eq!(read_frame(&[0, 0, 0x20, 0], MAX_MESSAGE_SIZE), FrameRead::TooLarge(0x20_0000));
}

#[test]
fn too_large_error_message() {
    assert_eq!(
        too_large_error("Command", 2_000_000),
        DaemonError::Ipc("Command too large: 2000000 bytes".to_string())
    );
}

#[test]
fn command_processing_replies() {
    let quit = DaemonCommand::Quit;
    assert!(matches!(command_request(quit.clone()), EngineRequest::Nothing));
    let (r, shutdown) = command_response(&quit, EngineOutcome::NotNeeded);
    assert_eq!(r, DaemonResponse::OkWithMessage("Quit requested - daemon shutting down".to_string()));
    assert!(shutdown);

    let (r, shutdown) = command_response(&DaemonCommand::Ping, EngineOutcome::NotNeeded);
    assert_eq!(r, DaemonResponse::Pong);
    assert!(!shutdown);

    let start = DaemonCommand::StartCrypto { password: None };
    let (r, shutdown) = command_response(&start, EngineOutcome::NotNeeded);
    assert_eq!(
        r,
        DaemonResponse::Error("Password required for crypto start (daemon cannot prompt)".to_string())
    );
    assert!(!shutdown);

    let (r, _) = command_response(&DaemonCommand::StopCrypto, EngineOutcome::LockFailed("poisoned".to_string()));
    assert_eq!(r, DaemonResponse::Error("Failed to acquire client lock: poisoned".to_string()));

    let (r, shutdown) = command_response(&DaemonCommand::Logout, EngineOutcome::Done);
    assert_eq!(
        r,
        DaemonResponse::OkWithMessage("Logged out and credentials cleared. Daemon shutting down.".to_string())
    );
    assert!(shutdown);
}

#[test]
fn test_exports_work() {
    let config = DaemonConfig::for_user(1000, "/tmp");
    assert_eq!(config.pid_file, "/tmp/pcloud-cli-1000.pid");
    assert_eq!(config.socket_path(1000), "/tmp/pcloud-cli-1000.sock");
    let mut flags = SignalFlags::new();
    assert!(!flags.is_shutdown_requested());
    assert!(!flags.is_reload_requested());
    flags.request_shutdown();
    assert!(flags.is_shutdown_requested());
}

#[test]
fn test_ipc_exports_work() {
    let _cmd = DaemonCommand::Ping;
    let _resp = DaemonResponse::Pong;
    let _client = DaemonClient::new(std::path::PathBuf::from("/tmp/x.sock").to_str().unwrap());
}

#[test]
fn test_init_does_not_panic() {
    init();
}

#[test]
fn test_daemon_config_with_pid_file() {
    let config = DaemonConfig::with_pid_file("/tmp/test.pid", "/tmp");
    assert_eq!(config.pid_file, "/tmp/test.pid");
}

#[test]
fn test_daemon_config_builder_methods() {
    let config = DaemonConfig::for_user(1000, "/tmp")
        .user("testuser")
        .group("testgroup")
        .working_directory("/var/tmp");
    assert_eq!(config.user, Some("testuser".to_string()));
    assert_eq!(config.group, Some("testgroup".to_string()));
    assert_eq!(config.working_directory, "/var/tmp");
}

#[test]
fn pid_file_contents_parse() {
    assert_eq!(parse_pid("1234\n"), Some(1234));
    assert_eq!(parse_pid("  -7 "), Some(-7));
    assert_eq!(parse_pid("abc"), None);
    assert_eq!(parse_pid(""), None);
    assert_eq!(parse_pid("99999999999"), None);
}

#[test]
fn signals_test_shutdown_flag_default() {
    let mut flags = SignalFlags::new();
    flags.reset_signal_flags();
    assert!(!flags.is_shutdown_requested());
}

#[test]
fn signals_test_shutdown_flag_set() {
    let mut flags = SignalFlags::new();
    flags.reset_signal_flags();
    flags.request_shutdown();
    assert!(flags.is_shutdown_requested());
    flags.reset_signal_flags();
}

#[test]
fn test_reload_flag_clears_on_read() {
    let mut flags = SignalFlags::new();
    flags.reset_signal_flags();
    flags.request_reload();
    assert!(flags.is_reload_requested());
    assert!(!flags.is_reload_requested());
    flags.reset_signal_flags();
}

#[test]
fn test_request_shutdown() {
    let mut flags = SignalFlags::new();
    flags.reset_signal_flags();
    assert!(!flags.is_shutdown_requested());
    flags.request_shutdown();
    assert!(flags.is_shutdown_requested());
    flags.reset_signal_flags();
}

#[test]
fn since_returns_only_newer_entries() {
    let mut log = ActivityLog::new();
    log.push("00:00:01".into(), "a".into(), false);
    log.push("00:00:02".into(), "b".into(), false);

    let (all, cursor) = log.since(0);
    assert_eq!(all.len(), 2);
    assert_eq!(cursor, 2);

    log.push("00:00:03".into(), "c".into(), true);
    let (newer, cursor2) = log.since(cursor);
    assert_eq!(newer.len(), 1);
    assert_eq!(newer[0].description, "c");
    assert!(newer[0].is_error);
    assert_eq!(cursor2, 3);

    let (none, cursor3) = log.since(cursor2);
    assert!(none.is_empty());
    assert_eq!(cursor3, cursor2);
}

#[test]
fn ring_buffer_is_bounded() {
    let mut log = ActivityLog::new();
    for i in 0..(MAX_ACTIVITY + 50) {
        log.push("t".into(), format!("e{i}"), false);
    }
    let (all, _) = log.since(0);
    assert_eq!(all.len(), MAX_ACTIVITY);
    assert_eq!(all.last().unwrap().description, format!("e{}", MAX_ACTIVITY + 49));
}

#[test]
fn main_test_shutdown_flag_default() {
    let flags = SignalFlags::new();
    assert!(!flags.is_shutdown_requested());
}

#[test]
fn main_test_shutdown_flag_set() {
    let mut flags = SignalFlags::new();
    flags.request_shutdown();
    assert!(flags.is_shutdown_requested());
    flags.reset_signal_flags();
    assert!(!flags.is_shutdown_requested());
}

use console_client::daemon::ipc::{crypto_state_line, outcome_fits_command, response_report};

#[test]
fn cli_reports_of_replies() {
    assert_eq!(response_report(&DaemonResponse::Success), ("OK\n".to_string(), false));
    assert_eq!(response_report(&DaemonResponse::Error("x".into())), ("Error: x\n".to_string(), true));
    let status = DaemonResponse::Status {
        authenticated: true,
        crypto_started: false,
        mounted: true,
        mountpoint: Some("/m".into()),
    };
    assert_eq!(
        response_report(&status).0,
        "\n--- Daemon Status ---\nAuthenticated: true\nCrypto started: false\nMounted: true\nMountpoint: /m\n---------------------\n\n"
    );
    assert_eq!(crypto_state_line(true), "Crypto: started (encrypted folders unlocked)");
}

#[test]
fn engine_outcomes_that_fit() {
    assert!(outcome_fits_command(&DaemonCommand::Ping, &EngineOutcome::NotNeeded));
    assert!(!outcome_fits_command(&DaemonCommand::Ping, &EngineOutcome::Done));
    assert!(outcome_fits_command(&DaemonCommand::Logout, &EngineOutcome::Done));
    assert!(!outcome_fits_command(&DaemonCommand::Logout, &EngineOutcome::Failed("x".into())));
    assert!(outcome_fits_command(
        &DaemonCommand::StartCrypto { password: Some("p".into()) },
        &EngineOutcome::Failed("bad".into())
    ));
}

#[test]
fn pid_written_in_decimal_reads_back() {
    for pid in [0i32, 7, 42, 31337, i32::MAX, -1, -250, i32::MIN] {
        assert_eq!(parse_pid(&format!("{}\n", pid)), Some(pid));
        assert_eq!(parse_pid(&pid.to_string()), Some(pid));
    }
}

#[test]
fn socket_paths_of_different_users_differ() {
    let config = DaemonConfig::for_user(1000, "/tmp");
    assert_ne!(config.socket_path(1000), config.socket_path(10000));
    assert_ne!(config.socket_path(1), config.socket_path(10));
}

#[test]
fn header_len_refuses_oversized_frames() {
    assert_eq!(header_len([5, 0, 0, 0], MAX_MESSAGE_SIZE, "Command"), Ok(5));
    assert_eq!(header_len(1_048_576u32.to_le_bytes(), MAX_MESSAGE_SIZE, "Command"), Ok(1_048_576));
    assert_eq!(
        header_len(1_048_577u32.to_le_bytes(), MAX_MESSAGE_SIZE, "Response"),
        Err(DaemonError::Ipc("Response too large: 1048577 bytes".to_string()))
    );
}

#[test]
fn test_daemon_config_default() {
    let uid = 1000;
    let config = DaemonConfig::for_user(uid, "/tmp");
    assert_eq!(config.pid_file, format!("/tmp/pcloud-cli-{}.pid", uid));
    assert!(config.user.is_none());
    assert!(config.group.is_none());
}

#[test]
fn test_daemon_config_socket_path() {
    let uid = 1000;
    let config = DaemonConfig::for_user(uid, "/tmp");
    assert_eq!(config.socket_path(uid), format!("/tmp/pcloud-cli-{}.sock", uid));
}

#[test]
fn test_daemon_config_accessible() {
    let config = DaemonConfig::for_user(0, "/tmp");
    assert!(!config.pid_file.is_empty());
}

#[test]
fn many_pushes_keep_the_newest_entries_in_order() {
    let mut log = ActivityLog::new();
    for i in 0..(MAX_ACTIVITY + 50) {
        log.push("00:00:00".to_string(), format!("event {}", i), false);
    }
    let (entries, cursor) = log.since(0);
    assert_eq!(entries.len(), MAX_ACTIVITY);
    assert_eq!(entries[0].description, "event 50");
    assert_eq!(entries[MAX_ACTIVITY - 1].description, format!("event {}", MAX_ACTIVITY + 49));
    assert!(entries.windows(2).all(|w| w[0].seq + 1 == w[1].seq));
    assert_eq!(cursor, (MAX_ACTIVITY + 50) as u64);
}

#[test]
fn fresh_log_numbers_pushes_from_one() {
    let mut log = ActivityLog::new();
    for i in 0..250u64 {
        log.push(format!("t{}", i), format!("e{}", i), i % 2 == 0);
    }
    let (last, cursor) = log.since(249);
    assert_eq!(last.len(), 1);
    assert_eq!(last[0].seq, 250);
    assert_eq!(last[0].description, "e249");
    assert_eq!(cursor, 250);
    let (all, _) = log.since(0);
    assert_eq!(all.len(), MAX_ACTIVITY);
    assert_eq!(all.iter().map(|e| e.seq).collect::<Vec<_>>(), (51..=250).collect::<Vec<u64>>());
    assert!(log.since(250).0.is_empty());

    let mut small = ActivityLog::new();
    for i in 0..3 {
        small.push("00:00:00".to_string(), format!("s{}", i), false);
    }
    assert_eq!(small.since(0).0.iter().map(|e| e.seq).collect::<Vec<_>>(), vec![1, 2, 3]);
}
