use console_client::error::PCloudError;
use console_client::service::fallback::{
    cron_install_body, cron_installed, cron_line, cron_status_line, cron_uninstall_body,
    desktop_path, strip_managed, xdg_status_line, CronBackend, XdgAutostartBackend, CRON_TAG,
};
use console_client::service::launchd::{domain, plist_path, service_target, LaunchdBackend};
use console_client::service::openrc::OpenRcBackend;
use console_client::service::quote::{desktop_quote, sh_quote, systemd_quote, xml_escape};
use console_client::service::runit::RunitBackend;
use console_client::service::systemd::{sctl, unit_path, SystemdBackend};
use console_client::service::{
    detect_init, fallback_status_line, foreground_args, is_user_fallback, operation_target,
    select_backend, BackendKind, InitProbe, InitSystem, OperationTarget, Scope, ServiceBackend,
    ServiceConfig, Trigger,
};

fn cfg(scope: Scope, trigger: Trigger) -> ServiceConfig {
    ServiceConfig {
        scope,
        trigger,
        mountpoint: "/home/u/pCloud".to_string(),
        exe: "/usr/bin/pcloud-cli".to_string(),
        start_now: true,
    }
}

#[test]
fn foreground_args_shape() {
    let a = foreground_args(&cfg(Scope::User, Trigger::Login));
    assert_eq!(a, vec!["start", "--foreground", "/home/u/pCloud"]);
}

#[test]
fn select_backend_user_always_resolves() {
    for init in [
        InitSystem::Systemd,
        InitSystem::OpenRc,
        InitSystem::Runit,
        InitSystem::Launchd,
        InitSystem::Unknown,
    ] {
        for trig in [Trigger::Login, Trigger::Boot] {
            assert!(select_backend(&cfg(Scope::User, trig), init).is_ok());
        }
    }
}

#[test]
fn select_backend_table() {
    let sys = cfg(Scope::System, Trigger::Login);
    assert_eq!(select_backend(&sys, InitSystem::OpenRc).unwrap(), BackendKind::OpenRc);
    assert_eq!(select_backend(&sys, InitSystem::Runit).unwrap(), BackendKind::Runit);
    assert_eq!(select_backend(&sys, InitSystem::Systemd).unwrap(), BackendKind::Systemd);
    assert_eq!(select_backend(&sys, InitSystem::Launchd).unwrap(), BackendKind::Launchd);
    match select_backend(&sys, InitSystem::Unknown) {
        Err(PCloudError::NotSupported(m)) => assert!(m.contains("--user")),
        other => panic!("unexpected {:?}", other),
    }
    let boot = cfg(Scope::User, Trigger::Boot);
    assert_eq!(select_backend(&boot, InitSystem::Runit).unwrap(), BackendKind::Cron);
    assert_eq!(BackendKind::Cron.describe(), "cron @reboot (boot)");
    assert_eq!(BackendKind::XdgAutostart.describe(), "XDG autostart (login)");
}

#[test]
fn init_detection_order() {
    let none = InitProbe {
        macos: false,
        systemd_runtime_dir: false,
        openrc_runtime: false,
        openrc_run_on_path: false,
        runit_runtime: false,
        runit_config: false,
    };
    assert_eq!(detect_init(&none), InitSystem::Unknown);
    assert_eq!(detect_init(&InitProbe { runit_config: true, ..none }), InitSystem::Runit);
    assert_eq!(
        detect_init(&InitProbe { openrc_run_on_path: true, runit_config: true, ..none }),
        InitSystem::OpenRc
    );
    assert_eq!(detect_init(&InitProbe { systemd_runtime_dir: true, openrc_runtime: true, ..none }), InitSystem::Systemd);
    assert_eq!(detect_init(&InitProbe { macos: true, systemd_runtime_dir: true, ..none }), InitSystem::Launchd);
}

#[test]
fn operations_target_the_fallback_pair_for_user_scope() {
    let user = cfg(Scope::User, Trigger::Login);
    assert!(is_user_fallback(&user, InitSystem::Unknown));
    assert!(!is_user_fallback(&user, InitSystem::Systemd));
    assert_eq!(operation_target(&user, InitSystem::Runit).unwrap(), OperationTarget::UserFallback);
    assert_eq!(
        operation_target(&user, InitSystem::Systemd).unwrap(),
        OperationTarget::Backend(BackendKind::Systemd)
    );
    assert!(operation_target(&cfg(Scope::System, Trigger::Login), InitSystem::Unknown).is_err());
    assert_eq!(fallback_status_line("a", "b"), "a; b");
}

#[test]
fn sh_quote_leaves_safe_strings_bare() {
    assert_eq!(sh_quote("/home/u/pCloud"), "/home/u/pCloud");
    assert_eq!(sh_quote("--foreground"), "--foreground");
    assert_eq!(sh_quote(""), "''");
}

#[test]
fn sh_quote_wraps_and_escapes() {
    assert_eq!(sh_quote("/home/u/My Cloud"), "'/home/u/My Cloud'");
    assert_eq!(sh_quote("a'b"), "'a'\\''b'");
    assert_eq!(sh_quote("$(rm -rf)"), "'$(rm -rf)'");
}

#[test]
fn systemd_quote_doubles_percent_and_groups() {
    assert_eq!(systemd_quote("/home/u/pCloud"), "/home/u/pCloud");
    assert_eq!(systemd_quote("/a%b"), "'/a%%b'");
    assert_eq!(systemd_quote("/home/u/My Cloud"), "'/home/u/My Cloud'");
}

#[test]
fn desktop_quote_escapes_reserved_chars() {
    assert_eq!(desktop_quote("/home/u/pCloud"), "/home/u/pCloud");
    assert_eq!(desktop_quote("/home/u/My Cloud"), "\"/home/u/My Cloud\"");
    assert_eq!(desktop_quote("a$b`c"), "\"a\\$b\\`c\"");
}

#[test]
fn xml_escape_handles_markup() {
    assert_eq!(xml_escape("/Users/u/pCloud"), "/Users/u/pCloud");
    assert_eq!(xml_escape("a&b<c>d"), "a&amp;b&lt;c&gt;d");
}

#[test]
fn user_unit_has_no_user_directive_and_default_target() {
    let u = SystemdBackend.render(&cfg(Scope::User, Trigger::Login), "alice");
    assert!(u.contains("ExecStart=/usr/bin/pcloud-cli start --foreground /home/u/pCloud"));
    assert!(u.contains("ExecStop=/usr/bin/pcloud-cli stop"));
    assert!(u.contains("WantedBy=default.target"));
    assert!(!u.contains("User="));
    assert!(u.contains("Type=simple"));
    assert!(u.contains("Restart=on-failure"));
}

#[test]
fn system_unit_has_user_directive_and_multiuser_target() {
    let u = SystemdBackend.render(&cfg(Scope::System, Trigger::Login), "alice");
    assert!(u.contains("User=alice\n"));
    assert!(u.contains("WantedBy=multi-user.target"));
    assert_eq!(SystemdBackend.describe(), "systemd");
}

#[test]
fn systemd_paths_and_args() {
    assert_eq!(unit_path(Scope::System, None).unwrap(), "/etc/systemd/system/pcloud-cli.service");
    assert_eq!(
        unit_path(Scope::User, Some("/home/u")).unwrap(),
        "/home/u/.config/systemd/user/pcloud-cli.service"
    );
    assert!(matches!(unit_path(Scope::User, None), Err(PCloudError::Service(_))));
    assert_eq!(sctl(Scope::User, &["restart", "pcloud-cli"]), vec!["--user", "restart", "pcloud-cli"]);
    assert_eq!(sctl(Scope::System, &["daemon-reload"]), vec!["daemon-reload"]);
}

#[test]
fn script_has_command_and_user() {
    let s = OpenRcBackend.render(&cfg(Scope::System, Trigger::Boot), "alice");
    assert!(s.starts_with("#!/sbin/openrc-run"));
    assert!(s.contains("command=\"/usr/bin/pcloud-cli\""));
    assert!(s.contains("command_args=\"start --foreground /home/u/pCloud\""));
    assert!(s.contains("command_user="));
    assert!(s.contains("supervise-daemon"));
    assert!(s.contains("depend() {\n  need net\n}\n"));
}

#[test]
fn run_script_uses_chpst_and_foreground() {
    let s = RunitBackend.render(&cfg(Scope::System, Trigger::Boot), "alice");
    assert!(s.starts_with("#!/bin/sh"));
    assert!(s.contains("exec chpst -u "));
    assert!(s.contains("/usr/bin/pcloud-cli start --foreground /home/u/pCloud"));
}

#[test]
fn mountpoint_with_spaces_is_quoted_in_run_script() {
    let mut c = cfg(Scope::System, Trigger::Boot);
    c.mountpoint = "/home/u/My Cloud".to_string();
    let s = RunitBackend.render(&c, "alice");
    assert!(s.contains("start --foreground '/home/u/My Cloud'"), "{s}");
}

#[test]
fn agent_plist_has_program_args_and_runatload() {
    let mut c = cfg(Scope::User, Trigger::Login);
    c.mountpoint = "/Users/u/pCloud".to_string();
    c.exe = "/usr/local/bin/pcloud-cli".to_string();
    let p = LaunchdBackend.render(&c, "alice");
    assert!(p.contains("<string>com.pcloud.cli</string>"));
    assert!(p.contains("<string>/usr/local/bin/pcloud-cli</string>"));
    assert!(p.contains("<string>--foreground</string>"));
    assert!(p.contains("<string>/Users/u/pCloud</string>"));
    assert!(p.contains("<key>RunAtLoad</key>"));
    assert!(p.contains("<key>KeepAlive</key>"));
    assert!(!p.contains("<key>UserName</key>"));
}

#[test]
fn daemon_plist_pins_username() {
    let p = LaunchdBackend.render(&cfg(Scope::System, Trigger::Login), "alice");
    assert!(p.contains("<key>UserName</key>\n  <string>alice</string>"));
}

#[test]
fn launchd_targets() {
    assert_eq!(domain(Scope::User, 501), "gui/501");
    assert_eq!(domain(Scope::System, 501), "system");
    assert_eq!(service_target(Scope::User, 501), "gui/501/com.pcloud.cli");
    assert_eq!(
        plist_path(Scope::User, Some("/Users/u/")).unwrap(),
        "/Users/u/Library/LaunchAgents/com.pcloud.cli.plist"
    );
}

#[test]
fn desktop_entry_uses_plain_start() {
    let d = XdgAutostartBackend.render(&cfg(Scope::User, Trigger::Login));
    assert!(d.contains("[Desktop Entry]"));
    assert!(d.contains("Exec=/usr/bin/pcloud-cli start /home/u/pCloud"));
    assert!(!d.contains("--foreground"));
    assert_eq!(
        desktop_path(Some("/home/u")).unwrap(),
        "/home/u/.config/autostart/pcloud-cli.desktop"
    );
}

#[test]
fn cron_line_is_reboot_tagged() {
    let l = cron_line(&cfg(Scope::User, Trigger::Boot));
    assert!(l.starts_with("@reboot /usr/bin/pcloud-cli start /home/u/pCloud"));
    assert!(l.ends_with(CRON_TAG));
    assert_eq!(CronBackend.describe(), "cron @reboot (boot)");
}

#[test]
fn strip_managed_removes_only_tagged_lines() {
    let before = format!("0 5 * * * echo hi\n{}\n", cron_line(&cfg(Scope::User, Trigger::Boot)));
    let after = strip_managed(&before);
    assert!(after.contains("echo hi"));
    assert!(!after.contains(CRON_TAG));
    assert_eq!(after, "0 5 * * * echo hi");
}

#[test]
fn cron_install_and_uninstall_bodies() {
    let c = cfg(Scope::User, Trigger::Boot);
    let line = cron_line(&c);
    let installed = cron_install_body("0 5 * * * echo hi\n", &c);
    assert_eq!(installed, format!("0 5 * * * echo hi\n{}\n", line));
    // Installing again replaces the managed line instead of adding a second.
    assert_eq!(cron_install_body(&installed, &c), installed);
    assert!(cron_installed(&installed));
    assert_eq!(cron_uninstall_body(&installed), "0 5 * * * echo hi\n");
    assert_eq!(cron_uninstall_body(&format!("{}\n", line)), "");
    assert_eq!(cron_install_body("", &c), format!("{}\n", line));
}

#[test]
fn fallback_status_lines() {
    assert_eq!(xdg_status_line(true, false), "autostart entry=true, daemon not running");
    assert_eq!(cron_status_line(false, true), "@reboot entry=false, daemon running");
}

use console_client::service::{done_message, install_message, status_message};

#[test]
fn service_messages() {
    assert_eq!(
        install_message("systemd", &cfg(Scope::User, Trigger::Boot)),
        "Installed systemd user service (mount /home/u/pCloud, starts on boot)."
    );
    assert_eq!(done_message("Removed", "runit"), "Removed runit service.");
    assert_eq!(status_message("launchd", "running"), "launchd service: running");
}

use console_client::service::plan::{install_plan, restart_plan, uninstall_plan, ServiceStep};
use console_client::service::systemd::status_line as systemd_status_line;

fn run_step(program: &str, args: &[&str], best_effort: bool) -> ServiceStep {
    ServiceStep::Run {
        program: program.to_string(),
        args: args.iter().map(|a| a.to_string()).collect(),
        best_effort,
    }
}

#[test]
fn systemd_user_boot_install_enables_linger() {
    let c = cfg(Scope::User, Trigger::Boot);
    let plan = install_plan(BackendKind::Systemd, &c, "ann", Some("/home/ann"), 1000, "");
    assert_eq!(plan.len(), 4);
    assert_eq!(
        plan[0],
        ServiceStep::WriteFile {
            path: "/home/ann/.config/systemd/user/pcloud-cli.service".to_string(),
            content: SystemdBackend.render(&c, "ann"),
            executable: false,
        }
    );
    assert_eq!(plan[1], run_step("systemctl", &["--user", "daemon-reload"], false));
    assert_eq!(plan[2], run_step("loginctl", &["enable-linger", "ann"], false));
    assert_eq!(plan[3], run_step("systemctl", &["--user", "enable", "--now", "pcloud-cli"], false));
}

#[test]
fn systemd_system_install_without_start() {
    let mut c = cfg(Scope::System, Trigger::Boot);
    c.start_now = false;
    let plan = install_plan(BackendKind::Systemd, &c, "root", None, 0, "");
    assert_eq!(plan.len(), 3);
    assert_eq!(plan[2], run_step("systemctl", &["enable", "pcloud-cli"], false));
}

#[test]
fn user_install_without_home_fails() {
    let c = cfg(Scope::User, Trigger::Login);
    let plan = install_plan(BackendKind::XdgAutostart, &c, "ann", None, 1000, "");
    assert_eq!(plan, vec![ServiceStep::Fail("HOME is not set".to_string())]);
}

#[test]
fn runit_install_keeps_service_down_when_not_starting() {
    let mut c = cfg(Scope::System, Trigger::Boot);
    c.start_now = false;
    let plan = install_plan(BackendKind::Runit, &c, "ann", None, 0, "");
    assert_eq!(
        plan[1],
        ServiceStep::WriteFile {
            path: "/etc/sv/pcloud-cli/down".to_string(),
            content: String::new(),
            executable: false,
        }
    );
    assert_eq!(
        plan[2],
        ServiceStep::LinkIfMissing {
            target: "/etc/sv/pcloud-cli".to_string(),
            link: "/var/service/pcloud-cli".to_string(),
        }
    );
}

#[test]
fn launchd_system_install_warns_and_bootstraps() {
    let c = cfg(Scope::System, Trigger::Boot);
    let plan = install_plan(BackendKind::Launchd, &c, "root", None, 0, "");
    assert!(matches!(&plan[0], ServiceStep::Warn(m) if m.starts_with("Warning: macFUSE")));
    assert_eq!(plan[2], run_step("launchctl", &["bootout", "system/com.pcloud.cli"], true));
    assert_eq!(
        plan[3],
        run_step(
            "launchctl",
            &["bootstrap", "system", "/Library/LaunchDaemons/com.pcloud.cli.plist"],
            false
        )
    );
}

#[test]
fn cron_install_and_uninstall_edit_the_crontab() {
    let c = cfg(Scope::User, Trigger::Boot);
    let plan = install_plan(BackendKind::Cron, &c, "ann", Some("/home/ann"), 1000, "0 * * * * job");
    assert_eq!(
        plan,
        vec![
            ServiceStep::WriteCrontab(cron_install_body("0 * * * * job", &c)),
            ServiceStep::SpawnStart
        ]
    );
    let installed = cron_install_body("0 * * * * job", &c);
    let plan = uninstall_plan(BackendKind::Cron, &c, Some("/home/ann"), 1000, &installed);
    assert_eq!(
        plan,
        vec![ServiceStep::WriteCrontab("0 * * * * job\n".to_string()), ServiceStep::StopDaemon]
    );
}

#[test]
fn uninstall_removes_what_install_wrote() {
    for kind in [BackendKind::Systemd, BackendKind::OpenRc, BackendKind::Launchd, BackendKind::XdgAutostart] {
        let c = cfg(if kind == BackendKind::OpenRc { Scope::System } else { Scope::User }, Trigger::Login);
        let written: Vec<String> = install_plan(kind, &c, "ann", Some("/home/ann"), 1000, "")
            .into_iter()
            .filter_map(|s| match s {
                ServiceStep::WriteFile { path, .. } => Some(path),
                _ => None,
            })
            .collect();
        assert!(!written.is_empty());
        let removal = uninstall_plan(kind, &c, Some("/home/ann"), 1000, "");
        for path in written {
            assert!(removal.contains(&ServiceStep::RemoveFile(path)));
        }
    }
}

#[test]
fn restart_plans() {
    let c = cfg(Scope::User, Trigger::Login);
    assert_eq!(
        restart_plan(BackendKind::Systemd, &c, 1000),
        vec![run_step("systemctl", &["--user", "restart", "pcloud-cli"], false)]
    );
    assert_eq!(
        restart_plan(BackendKind::Launchd, &c, 501),
        vec![run_step("launchctl", &["kickstart", "-k", "gui/501/com.pcloud.cli"], false)]
    );
    assert_eq!(
        restart_plan(BackendKind::Cron, &c, 1000),
        vec![ServiceStep::StopDaemon, ServiceStep::SpawnStart]
    );
    assert_eq!(systemd_status_line("active", "enabled"), "active=active, enabled=enabled");
}

use console_client::service::{needs_linger, offers_linger_removal};

#[test]
fn linger_decisions() {
    assert!(needs_linger(&cfg(Scope::User, Trigger::Boot)));
    assert!(!needs_linger(&cfg(Scope::User, Trigger::Login)));
    assert!(!needs_linger(&cfg(Scope::System, Trigger::Boot)));
    assert!(offers_linger_removal(Scope::User, InitSystem::Systemd));
    assert!(!offers_linger_removal(Scope::System, InitSystem::Systemd));
    assert!(!offers_linger_removal(Scope::User, InitSystem::OpenRc));
}

fn spaced_cfg(scope: Scope) -> ServiceConfig {
    ServiceConfig {
        scope,
        trigger: Trigger::Login,
        mountpoint: "/home/u/My Cloud & <x>".to_string(),
        exe: "/opt/p cloud/pcloud-cli".to_string(),
        start_now: true,
    }
}

#[test]
fn renderers_quote_paths_for_their_format() {
    let c = spaced_cfg(Scope::System);
    let unit = SystemdBackend.render(&c, "root");
    assert!(unit.contains(
        "ExecStart='/opt/p cloud/pcloud-cli' start --foreground '/home/u/My Cloud & <x>'\n"
    ));
    assert!(unit.contains("ExecStop='/opt/p cloud/pcloud-cli' stop\n"));

    let script = OpenRcBackend.render(&c, "root");
    assert!(script.contains("command=\"/opt/p cloud/pcloud-cli\"\n"));
    assert!(script.contains("command_args=\"start --foreground '/home/u/My Cloud & <x>'\"\n"));

    let plist = LaunchdBackend.render(&c, "root");
    assert!(plist.contains("    <string>/opt/p cloud/pcloud-cli</string>\n    <string>start</string>\n    <string>--foreground</string>\n    <string>/home/u/My Cloud &amp; &lt;x&gt;</string>\n"));

    let entry = XdgAutostartBackend.render(&spaced_cfg(Scope::User));
    assert!(entry.contains("Exec=\"/opt/p cloud/pcloud-cli\" start \"/home/u/My Cloud & <x>\"\n"));

    let line = cron_line(&spaced_cfg(Scope::User));
    assert!(line.starts_with("@reboot '/opt/p cloud/pcloud-cli' start '/home/u/My Cloud & <x>' "));
}

#[test]
fn systemd_quote_doubles_percent_in_units() {
    let mut c = spaced_cfg(Scope::User);
    c.mountpoint = "/mnt/100%".to_string();
    assert!(SystemdBackend.render(&c, "u").contains("start --foreground '/mnt/100%%'\n"));
}
