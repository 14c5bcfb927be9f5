use console_client::utils::doctor::{
    detail_line, dev_fuse_check, doctor_result, fuse_group_check, fusermount_candidates,
    fusermount_check, library_label, library_path_in_maps, required_libs,
};
use console_client::utils::mount::{
    mountpoint_step, stale_mount_answer, unmount_command, unmount_result, MountpointProbe,
    MountpointStep, UnmountOutcome,
};
use console_client::error::{FilesystemError, PCloudError};
use console_client::utils::browser::{
    has_display, launch_verdict, open_result, opener_commands, validate_url, LaunchOutcome,
};
use console_client::utils::deps::{
    detect_distro, distro_from_os_release, get_install_hint, init_error_hint, parse_os_release,
    Distro,
};
use console_client::utils::qrcode::{
    can_display_qr, generate_qr_code, generate_qr_code_ascii, render_qr_ascii, QrCodeError,
};
use console_client::utils::terminal::{
    centered_line, format_boxed, horizontal_line, supports_unicode, StatusIndicator,
};

#[test]
fn test_status_indicator_ascii() {
    assert_eq!(StatusIndicator::Info.as_ascii(), "[*]");
    assert_eq!(StatusIndicator::Success.as_ascii(), "[+]");
    assert_eq!(StatusIndicator::Error.as_ascii(), "[-]");
    assert_eq!(StatusIndicator::Warning.as_ascii(), "[!]");
    assert_eq!(StatusIndicator::Progress.as_ascii(), "[~]");
}

#[test]
fn status_indicator_unicode_forms() {
    assert_eq!(StatusIndicator::Success.as_unicode(), "[\u{2713}]");
    assert_eq!(StatusIndicator::Error.as_str(true), "[\u{2717}]");
    assert_eq!(StatusIndicator::Error.as_str(false), "[-]");
    assert!(supports_unicode(Some("en_US.UTF-8"), None, None));
    assert!(supports_unicode(None, None, Some("C.utf8")));
    assert!(!supports_unicode(Some("C"), Some("POSIX"), None));
}

#[test]
fn test_format_boxed_empty() {
    let result = format_boxed(&[], 80, false);
    assert!(result.is_empty());
}

#[test]
fn test_format_boxed_single_line() {
    let result = format_boxed(&["Hello"], 80, false);
    assert!(result.contains("Hello"));
    assert!(result.lines().count() >= 3);
    assert_eq!(result, "+---------+\n|  Hello  |\n+---------+\n");
}

#[test]
fn test_format_boxed_multiple_lines() {
    let result = format_boxed(&["Line 1", "Line 2", "Line 3"], 80, false);
    assert!(result.contains("Line 1"));
    assert!(result.contains("Line 2"));
    assert!(result.contains("Line 3"));
}

#[test]
fn format_boxed_lines_share_one_width_and_cut_long_lines() {
    let result = format_boxed(&["short", "a much longer line of text", ""], 14, true);
    let widths: Vec<usize> = result.lines().map(|l| l.chars().count()).collect();
    assert!(widths.iter().all(|w| *w == widths[0]));
    assert!(result.contains("a much ..."));
    assert!(result.starts_with('\u{256D}'));
}

#[test]
fn test_status_indicator_equality() {
    assert_eq!(StatusIndicator::Info, StatusIndicator::Info);
    assert_ne!(StatusIndicator::Info, StatusIndicator::Error);
}

#[test]
fn test_status_indicator_copy() {
    let indicator = StatusIndicator::Success;
    let copy = indicator;
    assert_eq!(indicator, copy);
}

#[test]
fn test_parse_ubuntu() {
    let content = r#"
ID=ubuntu
ID_LIKE=debian
VERSION_ID="22.04"
"#;
    assert_eq!(distro_from_os_release(content), Distro::Ubuntu);
}

#[test]
fn test_parse_debian() {
    assert_eq!(distro_from_os_release("ID=debian\nVERSION_ID=\"12\"\n"), Distro::Debian);
}

#[test]
fn test_parse_fedora() {
    assert_eq!(distro_from_os_release("ID=fedora\nVERSION_ID=\"39\"\n"), Distro::Fedora);
}

#[test]
fn test_parse_rhel() {
    assert_eq!(distro_from_os_release("ID=rhel\nVERSION_ID=\"9.3\"\n"), Distro::Rhel);
}

#[test]
fn test_parse_almalinux() {
    let content = "ID=almalinux\nID_LIKE=\"rhel centos fedora\"\nVERSION_ID=\"9.3\"\n";
    assert_eq!(distro_from_os_release(content), Distro::Rhel);
}

#[test]
fn test_parse_rocky() {
    let content = "ID=rocky\nID_LIKE=\"rhel centos fedora\"\nVERSION_ID=\"9.3\"\n";
    assert_eq!(distro_from_os_release(content), Distro::Rhel);
}

#[test]
fn test_parse_arch() {
    assert_eq!(distro_from_os_release("ID=arch\n"), Distro::Arch);
}

#[test]
fn test_parse_manjaro_falls_back_to_arch() {
    assert_eq!(distro_from_os_release("ID=manjaro\n"), Distro::Arch);
}

#[test]
fn test_parse_mint_falls_back_to_debian() {
    let content = "ID=linuxmint\nID_LIKE=\"ubuntu debian\"\n";
    assert_eq!(distro_from_os_release(content), Distro::Debian);
}

#[test]
fn deps_test_parse_unknown() {
    assert_eq!(distro_from_os_release("ID=nixos\n"), Distro::Unknown("nixos".into()));
}

#[test]
fn test_parse_empty() {
    assert_eq!(distro_from_os_release(""), Distro::Unknown("unknown".into()));
}

#[test]
fn test_parse_quoted_values() {
    assert_eq!(distro_from_os_release("ID=\"ubuntu\"\nVERSION_ID=\"22.04\"\n"), Distro::Ubuntu);
}

#[test]
fn os_release_fields_last_one_wins() {
    let (id, like, ver) = parse_os_release("  ID=\"Fedora\" \r\nID_LIKE=RHEL\nVERSION_ID=\"39\"\nID=debian\n");
    assert_eq!(id, "debian");
    assert_eq!(like, "rhel");
    assert_eq!(ver, "39");
}

#[test]
fn distro_detection_without_file() {
    assert_eq!(detect_distro(true, Some("ID=ubuntu")), Distro::MacOs);
    assert_eq!(detect_distro(false, None), Distro::Unknown("unknown".into()));
    assert_eq!(detect_distro(false, Some("ID=arch")), Distro::Arch);
}

#[test]
fn test_install_hint_ubuntu() {
    let hint = get_install_hint(&Distro::Ubuntu, &["libssl.so.3"]);
    assert!(hint.contains("sudo apt install"));
    assert!(hint.contains("libssl3"));
}

#[test]
fn test_install_hint_fedora() {
    let hint = get_install_hint(&Distro::Fedora, &["libfuse.so.2"]);
    assert!(hint.contains("sudo dnf install"));
    assert!(hint.contains("fuse-libs"));
}

#[test]
fn test_install_hint_arch() {
    let hint = get_install_hint(&Distro::Arch, &["libfuse.so.2"]);
    assert!(hint.contains("sudo pacman -S"));
    assert!(hint.contains("fuse2"));
}

#[test]
fn test_install_hint_multiple() {
    let hint = get_install_hint(&Distro::Ubuntu, &["libssl.so.3", "libfuse.so.2"]);
    assert!(hint.contains("libssl3"));
    assert!(hint.contains("libfuse2t64"));
    assert_eq!(hint, "  sudo apt install libssl3 libfuse2t64");
}

#[test]
fn test_install_hint_empty() {
    let hint = get_install_hint(&Distro::Ubuntu, &[]);
    assert!(hint.is_empty());
}

#[test]
fn test_install_hint_deduplicates_packages() {
    let hint = get_install_hint(&Distro::Ubuntu, &["libssl.so.3", "libcrypto.so.3"]);
    let count = hint.matches("libssl3").count();
    assert_eq!(count, 1, "libssl3 should appear exactly once, got: {}", hint);
}

#[test]
fn install_hint_unknown_library_and_distro() {
    assert_eq!(get_install_hint(&Distro::Ubuntu, &["libfoo.so"]), "");
    assert_eq!(
        get_install_hint(&Distro::Unknown("nixos".into()), &["libz.so.1"]),
        "  Install packages: zlib1g"
    );
}

#[test]
fn test_init_error_hint_ssl() {
    let hint = init_error_hint(5, &Distro::Ubuntu);
    assert!(hint.is_some());
    let msg = hint.unwrap();
    assert!(msg.contains("OpenSSL"));
    assert!(msg.contains("--doctor"));
    assert!(msg.contains("\n  sudo apt install libssl3\n"));
}

#[test]
fn test_init_error_hint_database() {
    let hint = init_error_hint(3, &Distro::Fedora);
    assert!(hint.is_some());
    let msg = hint.unwrap();
    assert!(msg.contains("SQLite"));
    assert!(msg.contains("--doctor"));
}

#[test]
fn test_init_error_hint_unknown_code() {
    assert!(init_error_hint(99, &Distro::Ubuntu).is_none());
}

#[test]
fn test_distro_display() {
    assert_eq!(Distro::Ubuntu.to_string(), "Ubuntu");
    assert_eq!(Distro::Fedora.to_string(), "Fedora");
    assert_eq!(Distro::Unknown("nixos".into()).to_string(), "nixos");
}

#[test]
fn test_generate_qr_code() {
    let result = generate_qr_code("https://pcloud.com");
    assert!(result.is_ok());
    let qr = result.unwrap();
    assert!(!qr.is_empty());
}

#[test]
fn test_generate_qr_code_long_url() {
    let long_url = "https://my.pcloud.com/webview/authentication?view=login&request_id=12345678&device=test";
    let result = generate_qr_code(long_url);
    assert!(result.is_ok());
}

#[test]
fn test_generate_qr_code_ascii() {
    let result = generate_qr_code_ascii("test");
    assert!(result.is_ok());
    let qr = result.unwrap();
    assert!(!qr.is_empty());
    // A version-1 code is 21 modules wide, plus two blank modules each side.
    let first = qr.lines().next().unwrap();
    assert_eq!(first.chars().count(), 2 * (21 + 4));
    assert_eq!(qr.lines().count(), 21 + 4);
}

#[test]
fn qr_generation_fails_for_oversized_data() {
    let data = "x".repeat(8000);
    assert!(matches!(generate_qr_code(&data), Err(QrCodeError::EncodingError(_))));
    assert!(matches!(generate_qr_code_ascii(&data), Err(QrCodeError::EncodingError(_))));
}

#[test]
fn qr_ascii_rendering_of_given_modules() {
    let s = render_qr_ascii(1, &[true]);
    assert_eq!(
        s,
        "          \n          \n    ##    \n          \n          \n"
    );
}

#[test]
fn test_qr_code_error_display() {
    let err = QrCodeError::EncodingError("test error".to_string());
    assert!(err.to_string().contains("test error"));
    let err = QrCodeError::TooLarge;
    assert!(err.to_string().contains("too large"));
    let err = QrCodeError::NotSupported;
    assert!(err.to_string().contains("support"));
}

#[test]
fn qr_display_needs_size_unicode_and_tty() {
    assert!(can_display_qr(80, 24, true, true));
    assert!(!can_display_qr(39, 24, true, true));
    assert!(!can_display_qr(80, 19, true, true));
    assert!(!can_display_qr(80, 24, false, true));
    assert!(!can_display_qr(80, 24, true, false));
}

#[test]
fn test_open_url_invalid_url() {
    let result = validate_url("not-a-url");
    assert!(result.is_err());
}

#[test]
fn test_open_url_ftp_url() {
    let result = validate_url("ftp://example.com");
    assert!(result.is_err());
}

#[test]
fn web_urls_are_accepted_and_openers_ordered() {
    assert!(validate_url("https://pcloud.com").is_ok());
    assert!(validate_url("http://x").is_ok());
    let cmds = opener_commands();
    assert_eq!(cmds[0], "xdg-open");
    assert_eq!(cmds.len(), 7);
    assert_eq!(launch_verdict(LaunchOutcome::Started), Some(Ok(true)));
    assert_eq!(launch_verdict(LaunchOutcome::NotFound), None);
    assert_eq!(launch_verdict(LaunchOutcome::Failed("boom".into())), Some(Err("boom".to_string())));
}

#[test]
fn test_has_display_returns_bool() {
    assert!(has_display(true, false, false, false, None));
    assert!(has_display(false, true, false, false, None));
    assert!(has_display(false, false, true, false, None));
    assert!(has_display(false, false, false, true, Some("tty")));
    assert!(has_display(false, false, false, false, Some("x11")));
    assert!(!has_display(false, false, false, false, Some("tty")));
    assert!(!has_display(false, false, false, false, None));
}

#[test]
fn centered_line_pads_with_half_the_free_columns() {
    assert_eq!(centered_line("abc", 10), "   abc");
    assert_eq!(centered_line("abcd", 9), "  abcd");
    assert_eq!(centered_line("", 4), "  ");
}

#[test]
fn centered_line_leaves_text_that_fills_the_width() {
    assert_eq!(centered_line("abcdef", 6), "abcdef");
    assert_eq!(centered_line("abcdefgh", 3), "abcdefgh");
    assert_eq!(centered_line("\u{e9}t\u{e9}", 5), " \u{e9}t\u{e9}");
}

#[test]
fn horizontal_line_spans_the_width() {
    assert_eq!(horizontal_line(5, false), "-----");
    assert_eq!(horizontal_line(3, true), "\u{2500}\u{2500}\u{2500}");
    assert_eq!(horizontal_line(0, true), "");
}

#[test]
fn mountpoint_step_follows_the_probe() {
    assert!(matches!(mountpoint_step("/m", MountpointProbe::Directory), MountpointStep::Ready));
    assert!(matches!(mountpoint_step("/m", MountpointProbe::Missing), MountpointStep::Create));
    assert!(matches!(
        mountpoint_step("/m", MountpointProbe::StaleMount),
        MountpointStep::AskUnmount
    ));
    match mountpoint_step("/m", MountpointProbe::Failed("denied".to_string())) {
        MountpointStep::Fail(PCloudError::Io(m)) => assert_eq!(m, "denied"),
        other => panic!("unexpected {:?}", other),
    }
}

#[test]
fn mountpoint_on_a_file_is_not_a_directory() {
    match mountpoint_step("/tmp/regular_file", MountpointProbe::NotADirectory) {
        MountpointStep::Fail(PCloudError::Filesystem(e)) => {
            assert_eq!(e, FilesystemError::NotADirectory("/tmp/regular_file".to_string()));
            assert!(e.to_string().contains("Not a directory"));
        }
        other => panic!("unexpected {:?}", other),
    }
}

#[test]
fn declining_to_unmount_explains_the_manual_way() {
    assert!(stale_mount_answer("/m", true).is_ok());
    match stale_mount_answer("/home/u/pCloud", false) {
        Err(PCloudError::Filesystem(FilesystemError::MountPoint(m))) => assert_eq!(
            m,
            "Stale mount at /home/u/pCloud must be removed before continuing.\nRun manually: fusermount -u /home/u/pCloud (or: sudo umount -l /home/u/pCloud)"
        ),
        other => panic!("unexpected {:?}", other),
    }
}

#[test]
fn unmount_command_per_platform() {
    assert_eq!(unmount_command("/m", false), vec!["fusermount", "-u", "/m"]);
    assert_eq!(unmount_command("/m", true), vec!["umount", "/m"]);
}

#[test]
fn unmount_result_reports_failures() {
    let ok = UnmountOutcome::Exited { success: true, stderr: "noise".to_string() };
    assert!(unmount_result("/m", false, ok).is_ok());
    let failed = UnmountOutcome::Exited { success: false, stderr: "  busy\n".to_string() };
    match unmount_result("/m", false, failed) {
        Err(PCloudError::Filesystem(FilesystemError::MountPoint(m))) => assert_eq!(
            m,
            "Unmount failed: busy\nTry manually: fusermount -u /m (or: sudo umount -l /m)"
        ),
        other => panic!("unexpected {:?}", other),
    }
    match unmount_result("/m", true, UnmountOutcome::SpawnFailed("no such file".to_string())) {
        Err(PCloudError::Filesystem(FilesystemError::MountPoint(m))) => {
            assert_eq!(m, "Failed to run umount: no such file")
        }
        other => panic!("unexpected {:?}", other),
    }
}

#[test]
fn required_libraries_are_listed_in_order() {
    let libs = required_libs();
    assert_eq!(libs.len(), 6);
    assert_eq!(libs[0], ("FUSE", "libfuse.so.2"));
    assert_eq!(libs[5], ("libudev", "libudev.so.1"));
}

#[test]
fn library_path_is_read_from_the_maps() {
    let maps = "7f00-7f01 r--p 00000000 08:01 1 /usr/lib/libc.so.6\n\
                7f02-7f03 r--p 00000000 00:00 0 libfuse.so.2 (deleted)\n\
                7f04-7f05 r-xp 00001000 08:01 2 /usr/lib/x86_64-linux-gnu/libfuse.so.2.9.9\n";
    assert_eq!(
        library_path_in_maps(maps, "libfuse.so.2"),
        Some("/usr/lib/x86_64-linux-gnu/libfuse.so.2.9.9".to_string())
    );
    assert_eq!(library_path_in_maps(maps, "libz.so.1"), None);
    assert_eq!(library_path_in_maps("", "libz.so.1"), None);
}

#[test]
fn environment_checks_read_the_probes() {
    let c = dev_fuse_check(false, None);
    assert_eq!((c.name.as_str(), c.ok), ("/dev/fuse", false));
    assert_eq!(c.detail, "not found (is the fuse kernel module loaded?)");
    assert_eq!(dev_fuse_check(true, None).detail, "accessible");
    let c = dev_fuse_check(true, Some("Permission denied (os error 13)"));
    assert_eq!(c.detail, "permission denied (Permission denied (os error 13))");
    assert!(!c.ok);

    assert_eq!(fusermount_candidates(), ["fusermount3", "fusermount"]);
    let c = fusermount_check(Some("/usr/bin/fusermount3\n"));
    assert_eq!((c.detail.as_str(), c.ok), ("/usr/bin/fusermount3", true));
    assert_eq!(fusermount_check(None).detail, "not found in PATH");
}

#[test]
fn fuse_group_check_cases() {
    let c = fuse_group_check(None, Some(5), 1000, "ann");
    assert_eq!((c.detail.as_str(), c.ok), ("could not query groups", false));
    let c = fuse_group_check(Some(&[1, 2]), None, 1000, "ann");
    assert_eq!(c.detail, "no 'fuse' group on this system (OK on most distros)");
    assert!(c.ok);
    let c = fuse_group_check(Some(&[1, 2]), Some(5), 0, "root");
    assert_eq!((c.detail.as_str(), c.ok), ("running as root", true));
    let c = fuse_group_check(Some(&[1, 5]), Some(5), 1000, "ann");
    assert_eq!((c.detail.as_str(), c.ok), ("member", true));
    let c = fuse_group_check(Some(&[1, 2]), Some(5), 1000, "ann");
    assert_eq!(c.detail, "not a member (add with: sudo usermod -aG fuse ann)");
    assert!(!c.ok);
    assert_eq!(c.name, "fuse group");
}

#[test]
fn report_lines_and_verdict() {
    assert_eq!(
        detail_line(&library_label("zlib", "libz.so.1"), "/lib/libz.so.1"),
        "zlib (libz.so.1)             /lib/libz.so.1"
    );
    let long = "x".repeat(30);
    assert_eq!(detail_line(&long, "d"), format!("{} d", long));
    assert!(doctor_result(false).is_ok());
    match doctor_result(true) {
        Err(PCloudError::Config(m)) => {
            assert_eq!(m, "Some dependency checks failed \u{2014} see above for details.")
        }
        other => panic!("unexpected {:?}", other),
    }
}

#[test]
fn opening_a_url_takes_the_first_decisive_launch() {
    assert_eq!(open_result(&[]), Ok(false));
    assert_eq!(open_result(&[LaunchOutcome::NotFound, LaunchOutcome::NotFound]), Ok(false));
    assert_eq!(open_result(&[LaunchOutcome::NotFound, LaunchOutcome::Started]), Ok(true));
    assert_eq!(
        open_result(&[
            LaunchOutcome::NotFound,
            LaunchOutcome::Failed("denied".to_string()),
            LaunchOutcome::Started
        ]),
        Err("denied".to_string())
    );
}
