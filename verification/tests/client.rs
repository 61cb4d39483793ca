use atlas_client::atlas::first_result;
use atlas_client::atlas::list_output;
use atlas_client::atlas::single_result;
use atlas_client::atlas::unit_output;
use atlas_client::atlas::Client;
use atlas_client::atlas::Probe;
use atlas_client::atlas_models::File;
use atlas_client::atlas_models::MigrateApply;
use atlas_client::error::ConfigFault;
use atlas_client::error::Error;
use atlas_client::error::OutputStream;
use atlas_client::error::ValidationFault;
use atlas_client::params::LoginParams;
use atlas_client::params::MigrateApplyParams;
use atlas_client::params::MigrateDownParams;
use atlas_client::params::MigratePushParams;
use atlas_client::params::SchemaApplyParams;
use atlas_client::params::SchemaInspectParams;
use atlas_client::process::command_output;
use atlas_client::process::read_stream;
use atlas_client::process::Invocation;
use atlas_client::process::ProcessOutput;
use atlas_client::timestamp::Timestamp;
use atlas_client::util::NonEmptyString;
use atlas_client::vars::Vars;

fn probe() -> Probe {
    Probe {
        resolved_path: Some("/usr/bin/atlas".to_string()),
        working_dir_exists: true,
        notifier_defined: false,
    }
}

fn client() -> Client {
    Client::new(None, "atlas", probe()).unwrap()
}

fn ok(stdout: &str) -> Result<ProcessOutput, String> {
    Ok(ProcessOutput { exit_code: Some(0), stdout: stdout.as_bytes().to_vec(), stderr: Vec::new() })
}

fn failed(code: Option<i32>, stderr: &str) -> Result<ProcessOutput, String> {
    Ok(ProcessOutput { exit_code: code, stdout: b"ignored".to_vec(), stderr: stderr.as_bytes().to_vec() })
}

fn apply_params() -> MigrateApplyParams {
    MigrateApplyParams {
        env: Some(NonEmptyString::new("prod").unwrap()),
        config_url: None,
        context: None,
        dir_url: None,
        allow_dirty: false,
        url: None,
        revisions_schema: None,
        baseline_version: None,
        tx_mode: None,
        exec_order: None,
        amount: 5,
        dry_run: true,
        vars: Vars::new(),
    }
}

fn down_params() -> MigrateDownParams {
    MigrateDownParams {
        env: None,
        config_url: None,
        dev_url: None,
        context: None,
        dir_url: None,
        url: None,
        revisions_schema: None,
        amount: 1,
        to_version: None,
        to_tag: None,
        vars: Vars::new(),
    }
}

fn schema_params() -> SchemaApplyParams {
    SchemaApplyParams {
        env: None,
        config_url: None,
        dev_url: None,
        dry_run: true,
        tx_mode: None,
        exclude: Vec::new(),
        schema: Vec::new(),
        to: None,
        url: None,
        vars: Vars::new(),
    }
}

#[test]
fn migrate_apply_end_to_end() {
    let mut seen: Vec<String> = Vec::new();
    let result = client().migrate_apply(apply_params(), |inv: &Invocation| {
        seen = inv.args.clone();
        ok("[{\"Current\":\"v1\",\"Target\":\"v2\",\"Applied\":[]}]\n")
    });
    assert_eq!(
        seen,
        vec!["migrate", "apply", "--format", "{{ json . }}", "--env", "prod", "--dry-run", "5"]
    );
    let applied = result.unwrap();
    assert_eq!(applied.current, "v1");
    assert_eq!(applied.target, "v2");
    assert!(applied.applied.is_empty());
    assert!(applied.pending.is_empty());
    assert_eq!(applied.error, "");
    assert_eq!(
        applied.start,
        Timestamp { year: 1, month: 1, day: 1, hour: 0, minute: 0, second: 0, nanosecond: 0 }
    );
    assert_eq!(applied.end, applied.start);
}

#[test]
fn empty_exec_path_fails_construction() {
    let r = Client::new(None, "", probe());
    assert!(matches!(r, Err(Error::Config(ConfigFault::EmptyExecPath))));
    let nothing_found = Probe { resolved_path: None, working_dir_exists: false, notifier_defined: true };
    let r = Client::new(Some(""), "", nothing_found);
    assert!(matches!(r, Err(Error::Config(ConfigFault::EmptyExecPath))));
}

#[test]
fn construction_errors_in_order() {
    let not_found = || Probe { resolved_path: None, working_dir_exists: false, notifier_defined: false };
    assert!(matches!(Client::new(Some(""), "atlas", not_found()), Err(Error::ExecutableNotFound)));
    assert!(matches!(
        Client::new(Some(""), "atlas", probe()),
        Err(Error::Config(ConfigFault::EmptyWorkingDir))
    ));
    let no_dir = Probe {
        resolved_path: Some("/bin/atlas".to_string()),
        working_dir_exists: false,
        notifier_defined: false,
    };
    assert!(matches!(Client::new(Some("/nowhere"), "atlas", no_dir), Err(Error::InvalidWorkingDir)));
    let no_dir = Probe {
        resolved_path: Some("/bin/atlas".to_string()),
        working_dir_exists: false,
        notifier_defined: false,
    };
    assert!(Client::new(None, "atlas", no_dir).is_ok());
    let empty_path =
        Probe { resolved_path: Some(String::new()), working_dir_exists: true, notifier_defined: false };
    assert!(matches!(
        Client::new(None, "atlas", empty_path),
        Err(Error::Validation(ValidationFault::EmptyText))
    ));
}

#[test]
fn construction_keeps_what_was_found() {
    let c = Client::new(Some("/work"), "atlas", probe()).unwrap();
    assert_eq!(c.exec_path(), "/usr/bin/atlas");
    assert_eq!(c.working_dir(), Some("/work"));
    let inv = c.invocation(vec!["logout".to_string()]);
    assert_eq!(inv.program, "/usr/bin/atlas");
    assert_eq!(inv.args, vec!["logout"]);
    assert_eq!(inv.working_dir, Some("/work".to_string()));
    assert_eq!(inv.env, vec![("ATLAS_NO_UPDATE_NOTIFIER".to_string(), "1".to_string())]);

    let defined = Probe {
        resolved_path: Some("/usr/bin/atlas".to_string()),
        working_dir_exists: true,
        notifier_defined: true,
    };
    let c = Client::new(None, "atlas", defined).unwrap();
    let inv = c.invocation(Vec::new());
    assert_eq!(inv.working_dir, None);
    assert!(inv.env.is_empty());
    assert!(inv.args.is_empty());
}

#[test]
fn with_work_dir_restores_the_directory() {
    let mut c = Client::new(Some("/first"), "atlas", probe()).unwrap();
    let r = c.with_work_dir(Some("/second"), |inner: &Client| {
        assert_eq!(inner.working_dir(), Some("/second"));
        assert_eq!(inner.exec_path(), "/usr/bin/atlas");
        Ok(())
    });
    assert!(r.is_ok());
    assert_eq!(c.working_dir(), Some("/first"));

    let r = c.with_work_dir(None, |inner: &Client| {
        assert_eq!(inner.working_dir(), None);
        Err(Error::InvalidWorkingDir)
    });
    assert!(matches!(r, Err(Error::InvalidWorkingDir)));
    assert_eq!(c.working_dir(), Some("/first"));
}

#[test]
fn with_work_dir_runs_in_the_scoped_directory() {
    let mut c = client();
    let mut dirs: Vec<Option<String>> = Vec::new();
    let r = c.with_work_dir(Some("/tmp/project"), |inner: &Client| {
        inner.logout(|inv: &Invocation| {
            dirs.push(inv.working_dir.clone());
            ok("")
        })
    });
    assert!(r.is_ok());
    assert_eq!(dirs, vec![Some("/tmp/project".to_string())]);
    assert_eq!(c.working_dir(), None);
}

#[test]
fn login_refuses_an_empty_token_before_running() {
    let mut calls = 0;
    let r = client().login(LoginParams { token: String::new() }, |_inv: &Invocation| {
        calls += 1;
        ok("")
    });
    assert!(matches!(r, Err(Error::Validation(ValidationFault::EmptyToken))));
    assert_eq!(calls, 0);
}

#[test]
fn login_and_logout_run_once() {
    let mut seen: Vec<Vec<String>> = Vec::new();
    let r = client().login(LoginParams { token: "t0k".to_string() }, |inv: &Invocation| {
        seen.push(inv.args.clone());
        ok("You are now connected\n")
    });
    assert!(r.is_ok());
    let r = client().logout(|inv: &Invocation| {
        seen.push(inv.args.clone());
        ok("")
    });
    assert!(r.is_ok());
    assert_eq!(seen, vec![vec!["login", "--token", "t0k"], vec!["logout"]]);
}

#[test]
fn failed_command_carries_status_and_trimmed_stderr() {
    let r = client().logout(|_inv: &Invocation| failed(Some(1), "  Error: not logged in \n\n"));
    match r {
        Err(Error::CommandFailed { exit_status, stderr }) => {
            assert_eq!(exit_status, Some(1));
            assert_eq!(stderr, "Error: not logged in");
        }
        other => panic!("unexpected: {:?}", other),
    }
    let r = command_output(failed(None, "killed"));
    assert!(matches!(
        r,
        Err(Error::CommandFailed { exit_status: None, stderr }) if stderr == "killed"
    ));
    let r = command_output(failed(Some(-1), ""));
    assert!(matches!(
        r,
        Err(Error::CommandFailed { exit_status: Some(-1), stderr }) if stderr.is_empty()
    ));
}

#[test]
fn spawn_failure_is_reported() {
    let r = client().migrate_push(
        MigratePushParams {
            name: "app".to_string(),
            tag: None,
            dev_url: None,
            dir_url: None,
            dir_format: None,
            lock_timeout: None,
            context: None,
            config_url: None,
            env: None,
            vars: Vars::new(),
        },
        |_inv: &Invocation| Err("no such file".to_string()),
    );
    assert!(matches!(r, Err(Error::ProcessExecution { message }) if message == "no such file"));
    assert!(matches!(
        unit_output(Err("x".to_string())),
        Err(Error::ProcessExecution { message }) if message == "x"
    ));
}

#[test]
fn streams_must_be_utf8() {
    let bad_stdout = Ok(ProcessOutput { exit_code: Some(0), stdout: vec![0xff, 0xfe], stderr: Vec::new() });
    assert!(matches!(command_output(bad_stdout), Err(Error::Encoding(OutputStream::Stdout))));
    let bad_stderr = Ok(ProcessOutput { exit_code: Some(2), stdout: Vec::new(), stderr: vec![0xc3, 0x28] });
    assert!(matches!(command_output(bad_stderr), Err(Error::Encoding(OutputStream::Stderr))));
    let unread = Ok(ProcessOutput { exit_code: Some(0), stdout: b"fine".to_vec(), stderr: vec![0xff] });
    assert_eq!(command_output(unread).unwrap(), "fine");
    let unread = Ok(ProcessOutput { exit_code: Some(3), stdout: vec![0xff], stderr: b"e".to_vec() });
    assert!(matches!(command_output(unread), Err(Error::CommandFailed { .. })));
}

#[test]
fn output_is_trimmed() {
    assert_eq!(command_output(ok(" \t schema \"main\" {}\r\n\n")).unwrap(), "schema \"main\" {}");
    assert_eq!(command_output(ok("")).unwrap(), "");
    assert_eq!(command_output(ok(" \n ")).unwrap(), "");
    assert_eq!(read_stream("  héllo\u{a0}".as_bytes().to_vec()), Some("héllo".to_string()));
    assert_eq!(read_stream(vec![0x80]), None);
}

#[test]
fn schema_inspect_returns_raw_text() {
    let mut seen: Vec<String> = Vec::new();
    let r = client().schema_inspect(
        SchemaInspectParams {
            env: None,
            config_url: None,
            dev_url: None,
            exclude: Vec::new(),
            format: Some(NonEmptyString::new("sql").unwrap()),
            schema: Vec::new(),
            url: Some(NonEmptyString::new("sqlite://db").unwrap()),
            vars: Vars::new(),
        },
        |inv: &Invocation| {
            seen = inv.args.clone();
            ok("CREATE TABLE t (id int);\n")
        },
    );
    assert_eq!(r.unwrap(), "CREATE TABLE t (id int);");
    assert_eq!(seen, vec!["schema", "inspect", "--url", "sqlite://db", "format", "{{ sql .}}"]);
}

#[test]
fn shape_mismatch_keeps_the_raw_output() {
    let r = client().migrate_apply_slice(apply_params(), |_inv: &Invocation| ok(" {\"Current\":\"v1\"} "));
    assert!(matches!(
        r,
        Err(Error::Deserialization { raw_output }) if raw_output == "{\"Current\":\"v1\"}"
    ));
    let r = client().migrate_apply(apply_params(), |_inv: &Invocation| ok("Error: oops"));
    assert!(matches!(r, Err(Error::Deserialization { raw_output }) if raw_output == "Error: oops"));
    let r = list_output::<MigrateApply>(ok("[{\"Current\":1}]"));
    assert!(matches!(r, Err(Error::Deserialization { raw_output }) if raw_output == "[{\"Current\":1}]"));
}

#[test]
fn slice_returns_every_entry_in_order() {
    let r = client()
        .migrate_apply_slice(apply_params(), |_inv: &Invocation| {
            ok("[{\"Current\":\"a\"},{\"Current\":\"b\"},{\"Current\":\"c\"}]")
        })
        .unwrap();
    let current: Vec<&str> = r.iter().map(|m| m.current.as_str()).collect();
    assert_eq!(current, vec!["a", "b", "c"]);
    let r = client().schema_apply_slice(schema_params(), |_inv: &Invocation| ok("[]")).unwrap();
    assert!(r.is_empty());
}

#[test]
fn single_result_needs_exactly_one_entry() {
    let r = client().migrate_apply(apply_params(), |_inv: &Invocation| ok("[]"));
    assert!(matches!(r, Err(Error::AmbiguousResult { count: 0 })));
    let r = client().migrate_apply(apply_params(), |_inv: &Invocation| ok("[{},{}]"));
    assert!(matches!(r, Err(Error::AmbiguousResult { count: 2 })));
    let r = client().migrate_down(down_params(), |_inv: &Invocation| ok("[{},{},{}]"));
    assert!(matches!(r, Err(Error::AmbiguousResult { count: 3 })));
    let r = client().migrate_down(down_params(), |_inv: &Invocation| ok("[{\"Status\":\"PENDING\"}]"));
    assert_eq!(r.unwrap().status, "PENDING");
    let r = client().schema_apply(schema_params(), |_inv: &Invocation| ok("[{\"Driver\":\"mysql\"}]"));
    assert_eq!(r.unwrap().env.driver, "mysql");
    let r = client().schema_apply(schema_params(), |_inv: &Invocation| ok("[]"));
    assert!(matches!(r, Err(Error::AmbiguousResult { count: 0 })));
}

#[test]
fn first_result_reduction() {
    assert_eq!(first_result(Ok(vec![7])).unwrap(), 7);
    assert!(matches!(first_result::<u8>(Ok(Vec::new())), Err(Error::AmbiguousResult { count: 0 })));
    assert!(matches!(first_result(Ok(vec![1, 2])), Err(Error::AmbiguousResult { count: 2 })));
    assert!(matches!(
        first_result::<u8>(Err(Error::ExecutableNotFound)),
        Err(Error::ExecutableNotFound)
    ));
    let file = File { name: "n".to_string(), version: String::new(), description: String::new() };
    assert_eq!(single_result(Ok(vec![file.clone()])).unwrap(), file);
    assert!(matches!(
        single_result(Ok(vec![file.clone(), file])),
        Err(Error::AmbiguousResult { count: 2 })
    ));
}

#[test]
fn failing_command_wins_over_decoding() {
    let r = client().migrate_down(down_params(), |_inv: &Invocation| failed(Some(1), "boom"));
    assert!(matches!(r, Err(Error::CommandFailed { exit_status: Some(1), stderr }) if stderr == "boom"));
    let r = client().schema_apply(schema_params(), |_inv: &Invocation| Err("spawn".to_string()));
    assert!(matches!(r, Err(Error::ProcessExecution { .. })));
}
