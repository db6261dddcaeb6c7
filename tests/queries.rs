use systemctl::{Captured, CtlError, Invocation, SystemCtl, SYSTEMCTL_PATH};

/// Unit files of the simulated host: name, state, preset.
const UNIT_FILES: [(&str, &str, &str); 6] = [
    ("console-getty.service", "disabled", "disabled"),
    ("cron.service", "enabled", "enabled"),
    ("example@.service", "static", "-"),
    ("ssh.service", "enabled", "enabled"),
    ("sshd.service", "alias", "-"),
    ("tmp.mount", "static", "-"),
];

/// Loaded units of the simulated host: name, load, active, sub, description.
const LOADED: [(&str, &str, &str, &str, &str); 3] = [
    ("cron.service", "loaded", "active", "running", "Regular background program processing daemon"),
    ("ssh.service", "loaded", "active", "running", "OpenBSD Secure Shell server"),
    ("ntpd.service", "loaded", "failed", "failed", "Network Time Service"),
];

fn ok(code: i32, text: &str) -> Result<Captured, CtlError> {
    Ok(Captured { code: Some(code), stdout: text.as_bytes().to_vec() })
}

fn matches_glob(unit: &str, glob: &str) -> bool {
    unit == glob || unit == format!("{}.service", glob)
}

fn status_text(unit: &str) -> Option<&'static str> {
    match unit {
        "cron" | "cron.service" => Some(
            "\u{25cf} cron.service - Regular background program processing daemon\n     Loaded: loaded (/lib/systemd/system/cron.service; enabled; vendor preset: enabled)\n     Active: active (running) since Mon 2024-01-01 00:00:00 UTC; 1h ago\n       Docs: man:cron(8)\n   Main PID: 612 (cron)\n      Tasks: 1 (limit: 4915)\n     Memory: 1.2M\n        CPU: 45ms\n     CGroup: /system.slice/cron.service\n             \u{2514}\u{2500}612 /usr/sbin/cron -f\n",
        ),
        "ssh" | "ssh.service" | "sshd" | "sshd.service" => Some(
            "\u{25cf} ssh.service - OpenBSD Secure Shell server\n     Loaded: loaded (/lib/systemd/system/ssh.service; enabled; vendor preset: enabled)\n     Active: active (running)\n       Docs: man:sshd(8)\n             man:sshd_config(5)\n   Main PID: 700 (sshd)\n",
        ),
        "console-getty" | "console-getty.service" => Some(
            "\u{25cb} console-getty.service - Console Getty\n     Loaded: loaded (/lib/systemd/system/console-getty.service; disabled; vendor preset: disabled)\n     Active: inactive (dead)\n       Docs: man:agetty(8)\n",
        ),
        "tmp" | "tmp.mount" => Some(
            "\u{25cf} tmp.mount - Temporary Directory /tmp\n     Loaded: loaded (/lib/systemd/system/tmp.mount; static)\n     Active: active (mounted)\n      Where: /tmp\n       What: tmpfs\n       Docs: https://systemd.io/TEMPORARY_DIRECTORIES\n             man:file-hierarchy(7)\n",
        ),
        _ => None,
    }
}

/// Answers as the control program of a small host would.
fn host(inv: Invocation) -> Result<Captured, CtlError> {
    if inv.program != SYSTEMCTL_PATH {
        return Err(CtlError::SpawnFailed);
    }
    let args: Vec<&str> = inv.args.iter().map(|s| s.as_str()).collect();
    let mut type_filter = None;
    let mut state_filter = None;
    let mut glob = None;
    let mut i = 1;
    while i < args.len() {
        match args[i] {
            "--type" => {
                type_filter = Some(args[i + 1]);
                i += 2;
            },
            "--state" => {
                state_filter = Some(args[i + 1]);
                i += 2;
            },
            g => {
                glob = Some(g);
                i += 1;
            },
        }
    }
    match args[0] {
        "list-unit-files" => {
            let mut out = String::from("UNIT FILE                              STATE    PRESET\n");
            let mut n = 0;
            for (unit, state, preset) in UNIT_FILES {
                let t_ok = type_filter.map_or(true, |t| unit.ends_with(&format!(".{}", t)));
                let s_ok = state_filter.map_or(true, |s| s == state);
                let g_ok = glob.map_or(true, |g| matches_glob(unit, g));
                if t_ok && s_ok && g_ok {
                    out.push_str(&format!("{:<38} {:<8} {}\n", unit, state, preset));
                    n += 1;
                }
            }
            out.push_str(&format!("\n{} unit files listed.\n", n));
            ok(if n > 0 { 0 } else { 1 }, &out)
        },
        "list-units" => {
            let mut out = String::from("  UNIT                 LOAD   ACTIVE SUB     DESCRIPTION\n");
            let mut n = 0;
            for (unit, load, active, sub, desc) in LOADED {
                let t_ok = type_filter.map_or(true, |t| unit.ends_with(&format!(".{}", t)));
                let s_ok = state_filter.map_or(true, |s| s == active || s == sub);
                if t_ok && s_ok {
                    out.push_str(&format!("  {} {} {} {} {}\n", unit, load, active, sub, desc));
                    n += 1;
                }
            }
            out.push_str(&format!("\n{} loaded units listed.\n", n));
            ok(0, &out)
        },
        "status" => match status_text(args[1]) {
            Some(text) => ok(0, text),
            None => ok(4, ""),
        },
        "cat" => match status_text(args[1]) {
            Some(_) => ok(
                0,
                "# /lib/systemd/system/unit\n[Unit]\nAfter=network.target\n\n[Service]\nExecStart=/usr/sbin/daemon -f\nRestart=on-failure\n\n[Install]\nWantedBy=multi-user.target\n",
            ),
            None => ok(1, ""),
        },
        "is-active" => match args[1] {
            "console-getty" | "console-getty.service" | "dropbear" | "ntpd" => ok(3, "inactive\n"),
            _ => ok(0, "active\n"),
        },
        _ => ok(1, ""),
    }
}

fn ctl() -> SystemCtl {
    SystemCtl::default()
}

#[test]
fn test_status_success() {
    let status = ctl().status("cron", &host);
    println!("cron status: {:#?}", status);
    assert!(status.is_ok());
}

#[test]
fn test_status_failure() {
    let status = ctl().status("not-existing", &host);
    println!("not-existing status: {:#?}", status);
    assert!(status.is_err());
    let result = status.map_err(|e| e);
    let expected = Err(CtlError::PermissionDenied);
    assert_eq!(expected, result);
}

#[test]
fn test_is_active() {
    let units = ["sshd", "dropbear", "ntpd"];
    let ctl = ctl();
    for u in units {
        let active = ctl.is_active(u, &host);
        println!("{} is-active: {:#?}", u, active);
        assert!(active.is_ok());
    }
}

#[test]
fn test_service_exists() {
    let units = ["sshd", "dropbear", "ntpd", "example", "non-existing", "dummy"];
    let ctl = ctl();
    for u in units {
        let ex = ctl.unit_exists(u, &host);
        println!("{} exists: {:#?}", u, ex);
        assert!(ex.is_ok());
    }
}

#[test]
fn test_disabled_services() {
    let services = ctl().list_disabled_services(&host).unwrap();
    println!("disabled services: {:#?}", services)
}

#[test]
fn test_enabled_services() {
    let services = ctl().list_enabled_services(&host).unwrap();
    println!("enabled services: {:#?}", services)
}

#[test]
fn test_failed_services() {
    let services = ctl().list_failed_services(&host).unwrap();
    println!("failed services: {:#?}", services)
}

#[test]
fn test_running_services() {
    let services = ctl().list_running_services(&host).unwrap();
    println!("running services: {:#?}", services)
}

#[test]
fn test_non_existing_unit() {
    let unit = ctl().create_unit("non-existing", &host);
    assert!(unit.is_err());
    let result = unit.map_err(|e| e);
    let expected = Err(CtlError::NotFound);
    assert_eq!(expected, result);
}

#[test]
fn test_systemctl_exitcode_success() {
    let u = ctl().create_unit("cron.service", &host);
    println!("{:#?}", u);
    assert!(u.is_ok());
}

#[test]
fn test_systemctl_exitcode_not_found() {
    let u = ctl().create_unit("cran.service", &host);
    println!("{:#?}", u);
    assert!(u.is_err());
    let result = u.map_err(|e| e);
    let expected = Err(CtlError::NotFound);
    assert_eq!(expected, result);
}

#[test]
fn test_service_unit_construction() {
    let ctl = ctl();
    let units = ctl.list_unit_files(None, None, None, &host).unwrap(); // all units
    for unit in units {
        let unit = unit.as_str();
        if unit.contains('@') {
            // not testing this one
            // would require @x service # identification / enumeration
            continue;
        }
        let c0 = unit.chars().next().unwrap();
        if c0.is_alphanumeric() {
            // valid unit name --> run test
            let u = ctl.create_unit(unit, &host).unwrap();
            println!("####################################");
            println!("Unit: {:#?}", u);
            println!("active: {}", u.active);
            println!("preset: {}", u.preset);
            println!("auto_start (enabled): {:#?}", u.auto_start);
            println!("config script : {}", u.script);
            println!("pid: {:?}", u.pid);
            println!("Running task(s): {:?}", u.tasks);
            println!("Memory consumption: {:?}", u.memory);
            println!("####################################")
        }
    }
}

#[test]
fn test_list_units_full() {
    let units = ctl().list_unit_files_full(None, None, None, &host).unwrap(); // all units
    for unit in units {
        println!("####################################");
        println!("Unit: {}", unit.unit_file);
        println!("State: {}", unit.state);
        println!("Vendor Preset: {:?}", unit.vendor_preset);
        println!("####################################");
    }
}

#[test]
fn queries_report_what_the_host_lists() {
    let ctl = ctl();
    assert_eq!(
        ctl.list_disabled_services(&host).unwrap(),
        vec!["console-getty.service".to_string()]
    );
    assert_eq!(
        ctl.list_enabled_services(&host).unwrap(),
        vec!["cron.service".to_string(), "ssh.service".to_string()]
    );
    assert_eq!(ctl.list_failed_services(&host).unwrap(), vec!["ntpd.service".to_string()]);
    assert_eq!(
        ctl.list_running_services(&host).unwrap(),
        vec!["cron.service".to_string(), "ssh.service".to_string()]
    );
    assert_eq!(ctl.unit_exists("sshd", &host), Ok(true));
    assert_eq!(ctl.unit_exists("dummy", &host), Ok(false));
    assert_eq!(ctl.is_active("sshd", &host), Ok(true));
    assert_eq!(ctl.is_active("ntpd", &host), Ok(false));
}

#[test]
fn built_mount_unit_reads_mount_fields() {
    let u = ctl().create_unit("tmp.mount", &host).unwrap();
    assert_eq!(u.name, "tmp");
    assert_eq!(u.utype, systemctl::Type::Mount);
    assert_eq!(u.mountpoint.as_deref(), Some("/tmp"));
    assert_eq!(u.mounted.as_deref(), Some("tmpfs"));
    assert_eq!(u.auto_start, systemctl::AutoStartStatus::Static);
    assert!(!u.preset);
    assert_eq!(
        u.docs,
        Some(vec![
            systemctl::Doc::Url("https://systemd.io/TEMPORARY_DIRECTORIES".to_string()),
            systemctl::Doc::Man("file-hierarchy".to_string()),
        ])
    );
    assert_eq!(u.after, Some(vec!["network.target".to_string()]));
    assert_eq!(u.wanted_by, Some(vec!["multi-user.target".to_string()]));
    assert_eq!(u.restart_policy.as_deref(), Some("on-failure"));
}

#[test]
fn unknown_program_path_fails_to_start() {
    let ctl = SystemCtl::new(vec![], Some("/nowhere/systemctl".to_string()));
    assert_eq!(ctl.status("cron", &host), Err(CtlError::SpawnFailed));
}
