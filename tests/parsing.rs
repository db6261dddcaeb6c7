use std::cell::RefCell;

use systemctl::{
    apply_directives, capture_text, parse_status, parse_unit_files, parse_units, AutoStartStatus,
    Captured, CtlError, Doc, Invocation, ServiceProperty, State, SystemCtl, Type, Unit, UnitBuild,
};

fn out(code: Option<i32>, text: &str) -> Result<Captured, CtlError> {
    Ok(Captured { code, stdout: text.as_bytes().to_vec() })
}

const DEMO_STATUS: &str = "\u{25cf} demo.service - Demo\n   Loaded: loaded (/etc/systemd/system/demo.service; enabled; vendor preset: enabled)\n   Active: active (running)\n   Docs: man:demo(1)\n   Main PID: 42 (demo)\n";

#[test]
fn descriptor_man_page() {
    assert_eq!(Doc::from_descriptor("man:sshd(8)"), Ok(Doc::Man("sshd".to_string())));
}

#[test]
fn descriptor_url() {
    assert_eq!(
        Doc::from_descriptor("https://example.com/x"),
        Ok(Doc::Url("https://example.com/x".to_string()))
    );
    assert_eq!(
        Doc::from_descriptor("http: //example.com/y "),
        Ok(Doc::Url("http://example.com/y".to_string()))
    );
}

#[test]
fn descriptor_without_single_colon_is_malformed() {
    assert_eq!(Doc::from_descriptor("sshd"), Err(CtlError::MalformedDescriptor));
    assert_eq!(Doc::from_descriptor(""), Err(CtlError::MalformedDescriptor));
}

#[test]
fn descriptor_splits_at_first_colon_only() {
    assert_eq!(
        Doc::from_descriptor("http://host:80/x"),
        Ok(Doc::Url("http://host:80/x".to_string()))
    );
    assert_eq!(
        Doc::from_descriptor("https://example.com:8080/x"),
        Ok(Doc::Url("https://example.com:8080/x".to_string()))
    );
    assert_eq!(Doc::from_descriptor("man:a:b(1)"), Ok(Doc::Man("a:b".to_string())));
}

#[test]
fn descriptor_of_unknown_kind() {
    assert_eq!(Doc::from_descriptor("info:coreutils"), Err(CtlError::UnknownDocKind));
}

#[test]
fn doc_accessors() {
    let m = Doc::Man("cron".to_string());
    let u = Doc::Url("https://a/b".to_string());
    assert_eq!(m.as_man(), Some("cron"));
    assert_eq!(m.as_url(), None);
    assert_eq!(u.as_url(), Some("https://a/b"));
    assert_eq!(u.as_man(), None);
}

#[test]
fn demo_unit_end_to_end() {
    let calls = RefCell::new(Vec::new());
    let run = |inv: Invocation| {
        calls.borrow_mut().push(inv.args.clone());
        match inv.args[0].as_str() {
            "list-unit-files" => out(Some(0), "UNIT FILE STATE PRESET\ndemo.service enabled enabled\n\n1 unit files listed.\n"),
            "status" => out(Some(0), DEMO_STATUS),
            "cat" => out(Some(0), "Wants=network.target\nExecStart=/usr/bin/demo\n"),
            "is-active" => out(Some(0), "active"),
            _ => out(Some(1), ""),
        }
    };
    let u = SystemCtl::default().create_unit("demo.service", &run).unwrap();
    assert_eq!(u.name, "demo");
    assert_eq!(u.utype, Type::Service);
    assert_eq!(u.description.as_deref(), Some("Demo"));
    assert_eq!(u.state, State::Loaded);
    assert_eq!(u.script, "/etc/systemd/system/demo.service");
    assert_eq!(u.auto_start, AutoStartStatus::Enabled);
    assert!(u.preset);
    assert_eq!(u.docs, Some(vec![Doc::Man("demo".to_string())]));
    assert_eq!(u.pid, Some(42));
    assert_eq!(u.process.as_deref(), Some("demo"));
    assert_eq!(u.wants, Some(vec!["network.target".to_string()]));
    assert_eq!(u.exec_start.as_deref(), Some("/usr/bin/demo"));
    assert!(u.active);
    let calls = calls.borrow();
    assert_eq!(calls.len(), 4);
    assert_eq!(calls[0], vec!["list-unit-files".to_string(), "demo.service".to_string()]);
    assert_eq!(calls[1], vec!["status".to_string(), "demo.service".to_string()]);
    assert_eq!(calls[2], vec!["cat".to_string(), "demo".to_string()]);
    assert_eq!(calls[3], vec!["is-active".to_string(), "demo".to_string()]);
}

#[test]
fn missing_unit_never_queries_status() {
    let calls = RefCell::new(Vec::new());
    let run = |inv: Invocation| {
        calls.borrow_mut().push(inv.args[0].clone());
        match inv.args[0].as_str() {
            "list-unit-files" => out(Some(1), "UNIT FILE STATE PRESET\n\n0 unit files listed.\n"),
            _ => out(Some(0), DEMO_STATUS),
        }
    };
    let r = SystemCtl::default().create_unit("ghost.service", &run);
    assert_eq!(r, Err(CtlError::NotFound));
    assert_eq!(*calls.borrow(), vec!["list-unit-files".to_string()]);
}

#[test]
fn build_steps_one_at_a_time() {
    let ctl = SystemCtl::default();
    let b = UnitBuild::start("x.service");
    let inv = b.request(&ctl).unwrap();
    assert_eq!(inv.args, vec!["list-unit-files".to_string(), "x.service".to_string()]);
    let b = b.advance(out(Some(1), "0 unit files listed.\n"));
    assert!(b.request(&ctl).is_none());
    assert_eq!(b.outcome(), Some(Err(CtlError::NotFound)));
}

#[test]
fn failed_directive_dump_leaves_fields_unset() {
    let run = |inv: Invocation| match inv.args[0].as_str() {
        "list-unit-files" => out(Some(0), "demo.service enabled enabled\n"),
        "status" => out(Some(0), DEMO_STATUS),
        "cat" => out(Some(4), ""),
        _ => out(Some(3), "inactive\n"),
    };
    let u = SystemCtl::default().create_unit("demo", &run).unwrap();
    assert_eq!(u.wants, None);
    assert_eq!(u.exec_start, None);
    assert!(!u.active);
}

#[test]
fn failed_status_query_fails_the_build() {
    let run = |inv: Invocation| match inv.args[0].as_str() {
        "list-unit-files" => out(Some(0), "demo.service enabled enabled\n"),
        _ => out(Some(4), ""),
    };
    assert_eq!(SystemCtl::default().create_unit("demo", &run), Err(CtlError::PermissionDenied));
}

#[test]
fn repeated_directives() {
    let mut u = Unit::default();
    apply_directives(&mut u, "Wants=a\nWants=b\nExecStart=x\nExecStart=y\n");
    assert_eq!(u.wants, Some(vec!["a".to_string(), "b".to_string()]));
    assert_eq!(u.exec_start.as_deref(), Some("y"));
}

#[test]
fn directive_values_are_trimmed_and_other_keys_ignored() {
    let mut u = Unit::default();
    apply_directives(
        &mut u,
        "[Unit]\nBefore = shutdown.target \nAlso=b.socket\nWantedBy=multi-user.target\nAfter=a\nExecReload=/bin/kill -HUP $MAINPID\nKillMode=process\nRestart=always\nDescription=x\n",
    );
    assert_eq!(u.before, None);
    assert_eq!(u.also, Some(vec!["b.socket".to_string()]));
    assert_eq!(u.wanted_by, Some(vec!["multi-user.target".to_string()]));
    assert_eq!(u.after, Some(vec!["a".to_string()]));
    assert_eq!(u.exec_reload.as_deref(), Some("/bin/kill -HUP $MAINPID"));
    assert_eq!(u.kill_mode.as_deref(), Some("process"));
    assert_eq!(u.restart_policy.as_deref(), Some("always"));
    assert_eq!(u.wants, None);
    assert_eq!(u.description, None);
}

#[test]
fn exit_code_four_is_permission_denied() {
    assert_eq!(capture_text(out(Some(4), "text")), Err(CtlError::PermissionDenied));
}

#[test]
fn other_exit_codes_are_process_failures() {
    assert_eq!(capture_text(out(Some(137), "text")), Err(CtlError::ProcessFailed(137)));
    assert_eq!(capture_text(out(Some(2), "")), Err(CtlError::ProcessFailed(2)));
}

#[test]
fn signal_is_interruption() {
    assert_eq!(capture_text(out(None, "text")), Err(CtlError::ProcessInterrupted));
}

#[test]
fn successful_codes_give_the_text() {
    assert_eq!(capture_text(out(Some(0), "a\n")), Ok("a\n".to_string()));
    assert_eq!(capture_text(out(Some(1), "b")), Ok("b".to_string()));
    assert_eq!(capture_text(out(Some(3), "\u{25cf} c")), Ok("\u{25cf} c".to_string()));
}

#[test]
fn empty_output_and_bad_encoding() {
    assert_eq!(capture_text(out(Some(0), "")), Err(CtlError::EmptyOutput));
    let bad = Ok(Captured { code: Some(0), stdout: vec![0x66, 0xff, 0x67] });
    assert_eq!(capture_text(bad), Err(CtlError::InvalidOutputEncoding));
    assert_eq!(capture_text(Err(CtlError::SpawnFailed)), Err(CtlError::SpawnFailed));
}

#[test]
fn vendor_preset_column() {
    let text = "UNIT FILE STATE PRESET\na.service enabled -\nb.service enabled enabled\nc.service disabled disabled\nd.service static other\n\n4 unit files listed.\n";
    let list = parse_unit_files(text).unwrap();
    assert_eq!(list.len(), 4);
    assert_eq!(list[0].unit_file, "a.service");
    assert_eq!(list[0].state, "enabled");
    assert_eq!(list[0].vendor_preset, None);
    assert_eq!(list[1].vendor_preset, Some(true));
    assert_eq!(list[2].vendor_preset, Some(false));
    assert_eq!(list[3].vendor_preset, None);
}

#[test]
fn short_listing_line_fails() {
    assert_eq!(parse_unit_files("a.service enabled\n"), Err(CtlError::MalformedRecord));
    assert_eq!(parse_units("a.service loaded active\n"), Err(CtlError::MalformedRecord));
}

#[test]
fn loaded_unit_listing() {
    let list = parse_units("UNIT LOAD ACTIVE SUB DESCRIPTION\ncron.service loaded active running Regular  daemon\nx.socket loaded active listening\n").unwrap();
    assert_eq!(list.len(), 2);
    assert_eq!(list[0].unit_name, "cron.service");
    assert_eq!(list[0].loaded, "loaded");
    assert_eq!(list[0].state, "active");
    assert_eq!(list[0].sub_state, "running");
    assert_eq!(list[0].description, " Regular daemon");
    assert_eq!(list[1].description, "");
}

#[test]
fn loaded_line_fields() {
    let u = parse_status("\u{25cf} a.service\n Loaded: loaded ( /x/a.service ; enabled-runtime ; vendor preset: enabled )\n").unwrap();
    assert_eq!(u.state, State::Loaded);
    assert_eq!(u.script, "/x/a.service");
    assert_eq!(u.auto_start, AutoStartStatus::EnabledRuntime);
    assert!(u.preset);
    assert_eq!(u.description, None);
}

#[test]
fn unknown_policy_is_disabled() {
    let u = parse_status("\u{25cf} a.service\nLoaded: loaded (/x; bad-token; vendor preset: disabled)\n").unwrap();
    assert_eq!(u.auto_start, AutoStartStatus::Disabled);
    assert!(!u.preset);
    let u = parse_status("\u{25cf} a.service\nLoaded: loaded (/x)\n").unwrap();
    assert_eq!(u.auto_start, AutoStartStatus::Disabled);
    assert_eq!(u.script, "/x");
}

#[test]
fn masked_unit() {
    let u = parse_status("\u{25cf} a.service\n   Loaded: masked (Reason: Unit a.service is masked.)\n").unwrap();
    assert_eq!(u.state, State::Masked);
    assert_eq!(u.script, "");
}

#[test]
fn header_errors() {
    assert_eq!(parse_status("ab"), Err(CtlError::MalformedRecord));
    assert_eq!(parse_status("\n"), Err(CtlError::MalformedRecord));
    assert_eq!(parse_status("\u{25cf} nodot\n"), Err(CtlError::MalformedRecord));
    assert_eq!(parse_status("\u{25cf}   \n"), Err(CtlError::MalformedRecord));
    assert_eq!(parse_status("\u{25cf} a.bogus\n"), Err(CtlError::UnknownUnitType));
}

#[test]
fn header_description_and_dotted_names() {
    let u = parse_status("\u{25cf} dev-disk.by.x.device.mount -  Some   long text\n").unwrap();
    assert_eq!(u.name, "dev-disk.by.x.device");
    assert_eq!(u.utype, Type::Mount);
    assert_eq!(u.description.as_deref(), Some("Some long text"));
    let u = parse_status("   b.timer x y\n").unwrap();
    assert_eq!(u.utype, Type::Timer);
    assert_eq!(u.description, None);
}

#[test]
fn docs_block_ends_at_next_known_prefix() {
    let text = "\u{25cf} a.service\n  Docs: man:a(1)\n        https://a.example/doc\n        not-a-doc\n  CGroup: /system.slice/a.service\n        man:b(2)\n";
    let u = parse_status(text).unwrap();
    assert_eq!(
        u.docs,
        Some(vec![Doc::Man("a".to_string()), Doc::Url("https://a.example/doc".to_string())])
    );
}

#[test]
fn no_docs_means_none() {
    let u = parse_status("\u{25cf} a.service\n  Docs: nonsense\n").unwrap();
    assert_eq!(u.docs, None);
}

#[test]
fn process_lines() {
    let u = parse_status("\u{25cf} a.service\n  Main PID: 10 (a)\n  Cntrl PID: 11 (b)\n").unwrap();
    assert_eq!(u.pid, Some(11));
    assert_eq!(u.process.as_deref(), Some("b"));
    let u = parse_status("\u{25cf} a.service\n  Main PID: x1 ((a))\n").unwrap();
    assert_eq!(u.pid, Some(0));
    assert_eq!(u.process.as_deref(), Some("a"));
    let u = parse_status("\u{25cf} a.service\n  Main PID: 18446744073709551616 (a)\n").unwrap();
    assert_eq!(u.pid, Some(0));
    let u = parse_status("\u{25cf} a.service\n  Main PID: +18446744073709551615 (a)\n").unwrap();
    assert_eq!(u.pid, Some(18446744073709551615));
    let u = parse_status("\u{25cf} a.service\n  Main PID: 12\n").unwrap();
    assert_eq!(u.pid, None);
}

#[test]
fn usage_transient_and_mount_lines() {
    let text = "\u{25cf} a.mount\n  Transient: yes\n  Memory:  1.5M \n  CPU: 3ms\n  What: /dev/sda1\n  Where: /mnt \n  Tasks: 3\n";
    let u = parse_status(text).unwrap();
    assert!(u.transient);
    assert_eq!(u.memory.as_deref(), Some("1.5M"));
    assert_eq!(u.cpu.as_deref(), Some("3ms"));
    assert_eq!(u.mounted.as_deref(), Some("/dev/sda1"));
    assert_eq!(u.mountpoint.as_deref(), Some("/mnt "));
    assert_eq!(u.tasks, None);
    let u = parse_status("\u{25cf} a.service\n  Transient: no\n").unwrap();
    assert!(!u.transient);
}

#[test]
fn vocabulary_round_trips() {
    for t in [Type::AutoMount, Type::Mount, Type::Service, Type::Scope, Type::Socket, Type::Slice, Type::Timer, Type::Path, Type::Target] {
        assert_eq!(Type::from_name(t.as_str()), Some(t));
    }
    for a in [AutoStartStatus::Static, AutoStartStatus::Enabled, AutoStartStatus::EnabledRuntime, AutoStartStatus::Disabled, AutoStartStatus::Generated, AutoStartStatus::Indirect, AutoStartStatus::Transient] {
        assert_eq!(AutoStartStatus::from_name(a.as_str()), Some(a));
    }
    assert_eq!(State::from_name("loaded"), Some(State::Loaded));
    assert_eq!(State::from_name(State::Masked.as_str()), Some(State::Masked));
    assert_eq!(Type::from_name("Service"), None);
    assert_eq!(Type::from_name("automount"), Some(Type::AutoMount));
    assert_eq!(AutoStartStatus::from_name("enabled-runtime"), Some(AutoStartStatus::EnabledRuntime));
    assert_eq!(Type::default(), Type::Service);
    assert_eq!(State::default(), State::Masked);
    assert_eq!(AutoStartStatus::default(), AutoStartStatus::Disabled);
}

#[test]
fn invocations_carry_path_and_global_arguments() {
    let ctl = SystemCtl::default();
    assert_eq!(ctl.get_path(), "/usr/bin/systemctl");
    let inv = ctl.invocation(&vec!["status".to_string(), "x".to_string()]);
    assert_eq!(inv.program, "/usr/bin/systemctl");
    assert_eq!(inv.args, vec!["status".to_string(), "x".to_string()]);
    let ctl = SystemCtl::new(vec!["--user".to_string()], Some("/opt/bin/systemctl".to_string()));
    assert_eq!(ctl.get_path(), "/opt/bin/systemctl");
    let seen = RefCell::new(Vec::new());
    let run = |inv: Invocation| {
        seen.borrow_mut().push((inv.program.clone(), inv.args.clone()));
        out(Some(0), "a.service enabled enabled\n")
    };
    let names = ctl.list_unit_files(Some("service"), Some("enabled"), Some("a*"), &run).unwrap();
    assert_eq!(names, vec!["a.service".to_string()]);
    let seen = seen.borrow();
    assert_eq!(seen[0].0, "/opt/bin/systemctl");
    assert_eq!(
        seen[0].1,
        vec!["--user", "list-unit-files", "--type", "service", "--state", "enabled", "a*"]
            .into_iter()
            .map(String::from)
            .collect::<Vec<_>>()
    );
}

#[test]
fn activity_answer_is_trimmed() {
    let ctl = SystemCtl::default();
    assert_eq!(ctl.is_active("a", &|_i: Invocation| out(Some(0), "  active \n")), Ok(true));
    assert_eq!(ctl.is_active("a", &|_i: Invocation| out(Some(3), "inactive\n")), Ok(false));
    assert_eq!(ctl.is_active("a", &|_i: Invocation| out(Some(0), "")), Err(CtlError::EmptyOutput));
    assert_eq!(ctl.cat("a", &|_i: Invocation| out(Some(0), "X=1\n")), Ok("X=1\n".to_string()));
}

#[test]
fn service_property_names() {
    assert_eq!(ServiceProperty::from_name("MainPID"), Some(ServiceProperty::MainPID));
    assert_eq!(ServiceProperty::from_name("CollectMode"), Some(ServiceProperty::CollectMode));
    assert_eq!(ServiceProperty::Type.as_str(), "Type");
    assert_eq!(ServiceProperty::LimitNOFILESoft.as_str(), "LimitNOFILESoft");
    assert_eq!(ServiceProperty::from_name(ServiceProperty::ExecStart.as_str()), Some(ServiceProperty::ExecStart));
    assert_eq!(ServiceProperty::from_name("mainpid"), None);
}

#[test]
fn docs_line_with_port_is_kept() {
    let u = parse_status("\u{25cf} a.service\n  Docs: https://h.example:8443/doc\n").unwrap();
    assert_eq!(u.docs, Some(vec![Doc::Url("https://h.example:8443/doc".to_string())]));
}

#[test]
fn crlf_lines_read_like_lf_lines() {
    let u = parse_status("\u{25cf} a.service\r\n  Loaded: loaded (/x; enabled; vendor preset: enabled)\r\n  Transient: yes\r\n").unwrap();
    assert!(u.transient);
    assert!(u.preset);
    assert_eq!(u.script, "/x");
    let mut d = Unit::default();
    apply_directives(&mut d, "KillMode=mixed\r\nWants=a\r\n");
    assert_eq!(d.kill_mode.as_deref(), Some("mixed"));
    assert_eq!(d.wants, Some(vec!["a".to_string()]));
}
