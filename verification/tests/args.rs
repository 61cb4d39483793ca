use atlas_client::args::build_login_args;
use atlas_client::args::build_logout_args;
use atlas_client::args::build_migrate_apply_args;
use atlas_client::args::build_migrate_down_args;
use atlas_client::args::build_migrate_push_args;
use atlas_client::args::build_schema_apply_args;
use atlas_client::args::build_schema_inspect_args;
use atlas_client::args::join;
use atlas_client::context::DeployRunContext;
use atlas_client::context::MigrateExecOrder;
use atlas_client::context::RunContext;
use atlas_client::context::TriggerType;
use atlas_client::params::LoginParams;
use atlas_client::params::MigrateApplyParams;
use atlas_client::params::MigrateDownParams;
use atlas_client::params::MigratePushParams;
use atlas_client::params::SchemaApplyParams;
use atlas_client::params::SchemaInspectParams;
use atlas_client::text::decimal;
use atlas_client::util::NonEmptyString;
use atlas_client::vars::Vars;

fn nes(s: &str) -> Option<NonEmptyString> {
    Some(NonEmptyString::new(s).unwrap())
}

fn list(items: &[&str]) -> Vec<NonEmptyString> {
    items.iter().map(|s| NonEmptyString::new(s).unwrap()).collect()
}

fn empty_apply() -> MigrateApplyParams {
    MigrateApplyParams {
        env: None,
        config_url: None,
        context: None,
        dir_url: None,
        allow_dirty: false,
        url: None,
        revisions_schema: None,
        baseline_version: None,
        tx_mode: None,
        exec_order: None,
        amount: 0,
        dry_run: false,
        vars: Vars::new(),
    }
}

fn empty_down() -> MigrateDownParams {
    MigrateDownParams {
        env: None,
        config_url: None,
        dev_url: None,
        context: None,
        dir_url: None,
        url: None,
        revisions_schema: None,
        amount: 0,
        to_version: None,
        to_tag: None,
        vars: Vars::new(),
    }
}

fn empty_schema_apply() -> SchemaApplyParams {
    SchemaApplyParams {
        env: None,
        config_url: None,
        dev_url: None,
        dry_run: false,
        tx_mode: None,
        exclude: Vec::new(),
        schema: Vec::new(),
        to: None,
        url: None,
        vars: Vars::new(),
    }
}

fn empty_inspect() -> SchemaInspectParams {
    SchemaInspectParams {
        env: None,
        config_url: None,
        dev_url: None,
        exclude: Vec::new(),
        format: None,
        schema: Vec::new(),
        url: None,
        vars: Vars::new(),
    }
}

fn empty_push(name: &str) -> MigratePushParams {
    MigratePushParams {
        name: name.to_string(),
        tag: None,
        dev_url: None,
        dir_url: None,
        dir_format: None,
        lock_timeout: None,
        context: None,
        config_url: None,
        env: None,
        vars: Vars::new(),
    }
}

#[test]
fn login_and_logout_args() {
    let p = LoginParams { token: "secret".to_string() };
    assert_eq!(build_login_args(&p), vec!["login", "--token", "secret"]);
    assert_eq!(build_logout_args(), vec!["logout"]);
}

#[test]
fn migrate_apply_base_args() {
    assert_eq!(
        build_migrate_apply_args(&empty_apply()),
        vec!["migrate", "apply", "--format", "{{ json . }}"]
    );
}

#[test]
fn migrate_apply_example_args() {
    let mut p = empty_apply();
    p.env = nes("prod");
    p.amount = 5;
    p.dry_run = true;
    assert_eq!(
        build_migrate_apply_args(&p),
        vec!["migrate", "apply", "--format", "{{ json . }}", "--env", "prod", "--dry-run", "5"]
    );
}

#[test]
fn migrate_apply_all_flags_in_order() {
    let mut vars = Vars::new();
    vars.insert("a".to_string(), "1".to_string());
    vars.insert("b".to_string(), "x=y".to_string());
    let p = MigrateApplyParams {
        env: nes("e"),
        config_url: nes("file://atlas.hcl"),
        context: Some(DeployRunContext {
            trigger_type: TriggerType::GithubAction,
            trigger_version: "v\"1".to_string(),
        }),
        dir_url: nes("file://migrations"),
        allow_dirty: true,
        url: nes("sqlite://db"),
        revisions_schema: nes("rev"),
        baseline_version: nes("20240101"),
        tx_mode: nes("file"),
        exec_order: Some(MigrateExecOrder::LinearSkip),
        amount: 120,
        dry_run: true,
        vars,
    };
    assert_eq!(
        build_migrate_apply_args(&p),
        vec![
            "migrate",
            "apply",
            "--format",
            "{{ json . }}",
            "--env",
            "e",
            "--config",
            "file://atlas.hcl",
            "--context",
            "{\"trigger_type\":\"GITHUB_ACTION\",\"trigger_version\":\"v\\\"1\"}",
            "--url",
            "sqlite://db",
            "--dir",
            "file://migrations",
            "--allow-dirty",
            "--dry-run",
            "--revisions-schema",
            "rev",
            "baseline",
            "20240101",
            "--tx-mode",
            "file",
            "--exec-order",
            "linear-skip",
            "120",
            "--var",
            "a=1",
            "--var",
            "b=x=y",
        ]
    );
}

#[test]
fn migrate_apply_args_are_deterministic() {
    let build = || {
        let mut p = empty_apply();
        p.url = nes("sqlite://db");
        p.exec_order = Some(MigrateExecOrder::NonLinear);
        p.amount = 7;
        p.vars.insert("k".to_string(), "v".to_string());
        build_migrate_apply_args(&p)
    };
    assert_eq!(build(), build());
    assert_eq!(
        build(),
        vec![
            "migrate",
            "apply",
            "--format",
            "{{ json . }}",
            "--url",
            "sqlite://db",
            "--exec-order",
            "non-linear",
            "7",
            "--var",
            "k=v"
        ]
    );
}

#[test]
fn migrate_down_args_in_order() {
    assert_eq!(
        build_migrate_down_args(&empty_down()),
        vec!["migrate", "down", "--format", "{{ json .}}"]
    );
    let mut vars = Vars::new();
    vars.insert("n".to_string(), "v".to_string());
    let p = MigrateDownParams {
        env: nes("e"),
        config_url: nes("c"),
        dev_url: nes("d"),
        context: Some(DeployRunContext {
            trigger_type: TriggerType::Cli,
            trigger_version: "1.0".to_string(),
        }),
        dir_url: nes("dir"),
        url: nes("u"),
        revisions_schema: nes("r"),
        amount: 2,
        to_version: nes("tv"),
        to_tag: nes("tt"),
        vars,
    };
    assert_eq!(
        build_migrate_down_args(&p),
        vec![
            "migrate",
            "down",
            "--format",
            "{{ json .}}",
            "--env",
            "e",
            "--config",
            "c",
            "--dev-url",
            "d",
            "--context",
            "{\"trigger_type\":\"CLI\",\"trigger_version\":\"1.0\"}",
            "--url",
            "u",
            "--dir",
            "dir",
            "--revisions-schema",
            "r",
            "--to-version",
            "tv",
            "--to-tag",
            "tt",
            "2",
            "--var",
            "n=v",
        ]
    );
}

#[test]
fn schema_apply_always_has_one_approval_flag() {
    assert_eq!(
        build_schema_apply_args(&empty_schema_apply()),
        vec!["schema", "apply", "--format", "{{ json .}}", "--auto-approve"]
    );
    let mut p = empty_schema_apply();
    p.dry_run = true;
    assert_eq!(
        build_schema_apply_args(&p),
        vec!["schema", "apply", "--format", "{{ json .}}", "--dry-run"]
    );
}

#[test]
fn schema_apply_args_in_order() {
    let mut vars = Vars::new();
    vars.insert("x".to_string(), "1".to_string());
    let p = SchemaApplyParams {
        env: nes("e"),
        config_url: nes("c"),
        dev_url: nes("d"),
        dry_run: false,
        tx_mode: nes("none"),
        exclude: list(&["t1", "t2"]),
        schema: list(&["public"]),
        to: nes("file://schema.hcl"),
        url: nes("u"),
        vars,
    };
    assert_eq!(
        build_schema_apply_args(&p),
        vec![
            "schema",
            "apply",
            "--format",
            "{{ json .}}",
            "--env",
            "e",
            "--config",
            "c",
            "--url",
            "u",
            "--to",
            "file://schema.hcl",
            "--auto-approve",
            "--tx-mode",
            "none",
            "--dev-url",
            "d",
            "--schema",
            "public",
            "--exclude",
            "t1,t2",
            "--var",
            "x=1",
        ]
    );
}

#[test]
fn schema_inspect_format_flag() {
    assert_eq!(build_schema_inspect_args(&empty_inspect()), vec!["schema", "inspect"]);
    let mut p = empty_inspect();
    p.format = nes("sql");
    assert_eq!(
        build_schema_inspect_args(&p),
        vec!["schema", "inspect", "format", "{{ sql .}}"]
    );
    let mut p = empty_inspect();
    p.format = nes("{{ json . }}");
    assert_eq!(
        build_schema_inspect_args(&p),
        vec!["schema", "inspect", "--format", "{{ json . }}"]
    );
}

#[test]
fn schema_inspect_args_in_order() {
    let mut vars = Vars::new();
    vars.insert("ignored".to_string(), "1".to_string());
    let p = SchemaInspectParams {
        env: nes("e"),
        config_url: nes("c"),
        dev_url: nes("d"),
        exclude: list(&["a", "b", "c"]),
        format: nes("hcl"),
        schema: list(&["s1", "s2"]),
        url: nes("u"),
        vars,
    };
    assert_eq!(
        build_schema_inspect_args(&p),
        vec![
            "schema",
            "inspect",
            "--env",
            "e",
            "--config",
            "c",
            "--url",
            "u",
            "--dev-url",
            "d",
            "--format",
            "hcl",
            "--schema",
            "s1,s2",
            "--exclude",
            "a,b,c",
        ]
    );
}

#[test]
fn migrate_push_target() {
    assert_eq!(build_migrate_push_args(&empty_push("app")), vec!["migrate", "push", "app"]);
    let mut p = empty_push("app");
    p.tag = Some("v2".to_string());
    assert_eq!(build_migrate_push_args(&p), vec!["migrate", "push", "app:v2"]);
    let mut p = empty_push("app");
    p.tag = Some(String::new());
    assert_eq!(build_migrate_push_args(&p), vec!["migrate", "push", "app:"]);
}

#[test]
fn migrate_push_args_in_order() {
    let p = MigratePushParams {
        name: "app".to_string(),
        tag: Some("latest".to_string()),
        dev_url: nes("dev"),
        dir_url: nes("dir"),
        dir_format: nes("atlas"),
        lock_timeout: nes("10s"),
        context: Some(RunContext {
            repo: "r".to_string(),
            path: "p".to_string(),
            branch: "b".to_string(),
            commit: "c".to_string(),
            url: "u".to_string(),
            username: "n".to_string(),
            user_id: "i".to_string(),
            scm_type: "GITHUB".to_string(),
        }),
        config_url: nes("cfg"),
        env: nes("e"),
        vars: Vars::new(),
    };
    assert_eq!(
        build_migrate_push_args(&p),
        vec![
            "migrate",
            "push",
            "--dev-url",
            "dev",
            "--dir",
            "dir",
            "--dir-format",
            "atlas",
            "--lock-timeout",
            "10s",
            "--config",
            "{\"repo\":\"r\",\"path\":\"p\",\"branch\":\"b\",\"commit\":\"c\",\"url\":\"u\",\"username\":\"n\",\"userID\":\"i\",\"scmType\":\"GITHUB\"}",
            "--config",
            "cfg",
            "--env",
            "e",
            "app:latest",
        ]
    );
}

#[test]
fn run_context_json_is_read_by_serde_json() {
    let c = RunContext {
        repo: "a\\b".to_string(),
        path: "line\nbreak".to_string(),
        branch: "tab\t".to_string(),
        commit: "\"q\"".to_string(),
        url: "https://example.com/?a=1&b=2".to_string(),
        username: "ünï".to_string(),
        user_id: String::new(),
        scm_type: "GITHUB".to_string(),
    };
    let v: serde_json::Value = serde_json::from_str(&c.to_json()).unwrap();
    assert_eq!(v["repo"], "a\\b");
    assert_eq!(v["path"], "line\nbreak");
    assert_eq!(v["branch"], "tab\t");
    assert_eq!(v["commit"], "\"q\"");
    assert_eq!(v["url"], "https://example.com/?a=1&b=2");
    assert_eq!(v["username"], "ünï");
    assert_eq!(v["userID"], "");
    assert_eq!(v["scmType"], "GITHUB");
    assert_eq!(v.as_object().unwrap().len(), 8);
}

#[test]
fn deploy_context_json_for_each_trigger() {
    let text = |t: TriggerType| {
        DeployRunContext { trigger_type: t, trigger_version: "v".to_string() }.to_json()
    };
    assert_eq!(text(TriggerType::Cli), "{\"trigger_type\":\"CLI\",\"trigger_version\":\"v\"}");
    assert_eq!(
        text(TriggerType::Kubernetes),
        "{\"trigger_type\":\"KUBERNETES\",\"trigger_version\":\"v\"}"
    );
    assert_eq!(
        text(TriggerType::Terraform),
        "{\"trigger_type\":\"TERRAFORM\",\"trigger_version\":\"v\"}"
    );
    assert_eq!(
        text(TriggerType::GithubAction),
        "{\"trigger_type\":\"GITHUB_ACTION\",\"trigger_version\":\"v\"}"
    );
    assert_eq!(
        text(TriggerType::CircleCiOrb),
        "{\"trigger_type\":\"CIRCLECI_ORB\",\"trigger_version\":\"v\"}"
    );
}

#[test]
fn enumerations_are_closed() {
    assert_eq!(MigrateExecOrder::parse("linear"), Some(MigrateExecOrder::Linear));
    assert_eq!(MigrateExecOrder::parse("linear-skip"), Some(MigrateExecOrder::LinearSkip));
    assert_eq!(MigrateExecOrder::parse("non-linear"), Some(MigrateExecOrder::NonLinear));
    assert_eq!(MigrateExecOrder::parse("Linear"), None);
    assert_eq!(MigrateExecOrder::parse(""), None);
    assert_eq!(MigrateExecOrder::NonLinear.as_str(), "non-linear");
    assert_eq!(TriggerType::parse("CLI"), Some(TriggerType::Cli));
    assert_eq!(TriggerType::parse("CIRCLECI_ORB"), Some(TriggerType::CircleCiOrb));
    assert_eq!(TriggerType::parse("cli"), None);
    assert_eq!(TriggerType::Kubernetes.as_str(), "KUBERNETES");
}

#[test]
fn join_and_decimal() {
    assert_eq!(join(&list(&[]), ","), "");
    assert_eq!(join(&list(&["a"]), ","), "a");
    assert_eq!(join(&list(&["a", "b", "c"]), ","), "a,b,c");
    assert_eq!(decimal(0), "0");
    assert_eq!(decimal(9), "9");
    assert_eq!(decimal(10), "10");
    assert_eq!(decimal(1234567890), "1234567890");
    assert_eq!(decimal(u64::MAX), "18446744073709551615");
}

#[test]
fn vars_keep_each_key_once() {
    let mut vars = Vars::new();
    assert!(vars.is_empty());
    assert_eq!(vars.insert("a".to_string(), "1".to_string()), None);
    assert_eq!(vars.insert("b".to_string(), "2".to_string()), None);
    assert_eq!(vars.insert("a".to_string(), "3".to_string()), Some("1".to_string()));
    assert_eq!(vars.len(), 2);
    assert_eq!(vars.get("a"), Some("3".to_string()));
    assert_eq!(vars.get("c"), None);
    assert_eq!(vars.as_args(), vec!["--var", "a=3", "--var", "b=2"]);
}
