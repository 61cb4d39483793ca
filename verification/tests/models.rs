use atlas_client::atlas_models::bool_is_zero;
use atlas_client::atlas_models::changes_all_zero;
use atlas_client::atlas_models::isize_is_zero;
use atlas_client::atlas_models::AppliedFile;
use atlas_client::atlas_models::Changes;
use atlas_client::atlas_models::Env;
use atlas_client::atlas_models::File;
use atlas_client::atlas_models::MigrateApply;
use atlas_client::atlas_models::MigrateApplyError;
use atlas_client::atlas_models::MigrateDown;
use atlas_client::atlas_models::RevertedFile;
use atlas_client::atlas_models::SchemaApply;
use atlas_client::atlas_models::SchemaApplyError;
use atlas_client::atlas_models::SqlError;
use atlas_client::atlas_models::StmtError;
use atlas_client::json::parse_json;
use atlas_client::json::Json;
use atlas_client::report::Diagnostic;
use atlas_client::report::FileReport;
use atlas_client::report::MigrateStatus;
use atlas_client::report::Report;
use atlas_client::report::Revision;
use atlas_client::report::StepReport;
use atlas_client::report::SuggestedFix;
use atlas_client::report::SummaryReport;
use atlas_client::report::SummaryReportSchema;
use atlas_client::report::TextEdit;
use atlas_client::report::Version;
use atlas_client::timestamp::default_time;
use atlas_client::timestamp::Duration;
use atlas_client::timestamp::Timestamp;
use atlas_client::wire::decode;
use atlas_client::wire::decode_list_text;
use atlas_client::wire::decode_text;
use atlas_client::wire::encode;

fn sentinel() -> Timestamp {
    Timestamp { year: 1, month: 1, day: 1, hour: 0, minute: 0, second: 0, nanosecond: 0 }
}

fn empty_file() -> File {
    File { name: String::new(), version: String::new(), description: String::new() }
}

fn empty_env() -> Env {
    Env { driver: String::new(), url: String::new(), dir: String::new() }
}

fn empty_changes() -> Changes {
    Changes { applied: Vec::new(), pending: Vec::new(), error: None }
}

fn member_names(j: &Json) -> Vec<String> {
    match j {
        Json::Object(m) => m.iter().map(|(k, _)| k.clone()).collect(),
        other => panic!("no object: {:?}", other),
    }
}

fn diagnostic(text: &str) -> Diagnostic {
    Diagnostic { pos: 0, text: text.to_string(), code: "C".to_string(), suggested_fixes: Vec::new() }
}

fn file_report(diagnostics: Vec<Vec<Diagnostic>>) -> FileReport {
    FileReport {
        name: "f".to_string(),
        text: String::new(),
        reports: diagnostics
            .into_iter()
            .map(|d| Report { text: "r".to_string(), diagnostics: d, suggested_fixes: Vec::new() })
            .collect(),
        error: String::new(),
    }
}

fn summary(files: Vec<FileReport>) -> SummaryReport {
    SummaryReport {
        url: String::new(),
        env: empty_env(),
        schema: SummaryReportSchema { current: String::new(), desired: String::new() },
        steps: Vec::new(),
        files,
    }
}

#[test]
fn empty_file_env_changes_round_trip() {
    let file = encode(&empty_file());
    assert!(member_names(&file).is_empty());
    assert_eq!(decode::<File>(&file), Some(empty_file()));
    assert_eq!(File::default(), empty_file());

    let env = encode(&empty_env());
    assert!(member_names(&env).is_empty());
    assert_eq!(decode::<Env>(&env), Some(empty_env()));

    let changes = encode(&empty_changes());
    assert!(member_names(&changes).is_empty());
    assert_eq!(decode::<Changes>(&changes), Some(empty_changes()));
    assert_eq!(Changes::none(), empty_changes());

    assert_eq!(decode_text::<File>("{}"), Some(empty_file()));
    assert_eq!(decode_text::<Env>("{}"), Some(empty_env()));
    assert_eq!(decode_text::<Changes>("{}"), Some(empty_changes()));
}

#[test]
fn filled_file_env_changes_round_trip() {
    let file = File { name: "n".to_string(), version: String::new(), description: "d".to_string() };
    let j = encode(&file);
    assert_eq!(member_names(&j), vec!["Name", "Description"]);
    assert_eq!(decode::<File>(&j), Some(file));

    let env = Env { driver: "sqlite3".to_string(), url: "sqlite://x".to_string(), dir: String::new() };
    let j = encode(&env);
    assert_eq!(member_names(&j), vec!["Driver", "URL"]);
    assert_eq!(decode::<Env>(&j), Some(env));

    let changes = Changes {
        applied: vec!["CREATE TABLE t (id int)".to_string()],
        pending: Vec::new(),
        error: Some(StmtError { stmt: "DROP".to_string(), text: "no".to_string() }),
    };
    let j = encode(&changes);
    assert_eq!(member_names(&j), vec!["Applied", "Error"]);
    assert_eq!(decode::<Changes>(&j), Some(changes));
}

#[test]
fn missing_timestamp_is_the_sentinel() {
    let applied = decode_text::<MigrateApply>("{\"Current\":\"v1\"}").unwrap();
    assert_eq!(applied.start, sentinel());
    assert_eq!(applied.end, sentinel());
    assert!(applied.start.is_unknown());
    assert_eq!(default_time(), sentinel());

    let down = decode_text::<MigrateDown>("{}").unwrap();
    assert_eq!(down.start, sentinel());
    assert_eq!(down.end, sentinel());
    assert_eq!(down.total, 0);
    assert_eq!(down.url, "");
}

#[test]
fn present_timestamp_is_read_by_the_time_crate() {
    let text = "{\"Start\":\"2024-01-02 03:04:05.5\",\"End\":\"2024-12-31 23:59:59.0\"}";
    let applied = decode_text::<MigrateApply>(text).unwrap();
    assert_eq!(
        applied.start,
        Timestamp { year: 2024, month: 1, day: 2, hour: 3, minute: 4, second: 5, nanosecond: 500_000_000 }
    );
    assert_eq!(
        applied.end,
        Timestamp { year: 2024, month: 12, day: 31, hour: 23, minute: 59, second: 59, nanosecond: 0 }
    );
    assert!(!applied.start.is_unknown());
    assert!(decode_text::<MigrateApply>("{\"Start\":\"yesterday\"}").is_none());
    assert!(decode_text::<MigrateApply>("{\"Start\":\"2024-02-30 00:00:00.0\"}").is_none());
    assert!(decode_text::<MigrateApply>("{\"Start\":null}").is_none());
    assert!(decode_text::<MigrateApply>("{\"Start\":5}").is_none());
}

#[test]
fn timestamp_is_written_as_text() {
    let apply = MigrateApply {
        pending: Vec::new(),
        applied: Vec::new(),
        current: String::new(),
        target: String::new(),
        start: Timestamp { year: 2024, month: 1, day: 2, hour: 3, minute: 4, second: 5, nanosecond: 0 },
        end: Timestamp { year: 2024, month: 13, day: 2, hour: 3, minute: 4, second: 5, nanosecond: 0 },
        error: String::new(),
    };
    let j = encode(&apply);
    assert_eq!(member_names(&j), vec!["Start", "End"]);
    match &j {
        Json::Object(m) => {
            assert!(matches!(&m[0].1, Json::Text(s) if s == "2024-01-02 03:04:05.0"));
            assert!(matches!(&m[1].1, Json::Null));
        }
        _ => unreachable!(),
    }
    assert!(decode::<MigrateApply>(&j).is_none());
    let mut unknown = apply.clone();
    unknown.start = sentinel();
    unknown.end = sentinel();
    match encode(&unknown) {
        Json::Object(m) => {
            assert!(matches!(&m[0].1, Json::Text(s) if s == "0001-01-01 00:00:00.0"));
            assert!(matches!(&m[1].1, Json::Text(s) if s == "0001-01-01 00:00:00.0"));
        }
        _ => unreachable!(),
    }
    let mut good = apply.clone();
    good.end = good.start;
    assert_eq!(decode::<MigrateApply>(&encode(&good)), Some(good));
}

#[test]
fn migrate_apply_full_document() {
    let text = "[{\"Pending\":[{\"Name\":\"2.sql\",\"Version\":\"2\"}],\
        \"Applied\":[{\"Name\":\"1.sql\",\"Version\":\"1\",\"Description\":\"init\",\
        \"Skipped\":0,\"Applied\":[\"CREATE TABLE t (id int)\"],\"Error\":null}],\
        \"Current\":\"\",\"Target\":\"1\",\"Error\":\"\",\"Extra\":42}]";
    let list = decode_list_text::<MigrateApply>(text).unwrap();
    assert_eq!(list.len(), 1);
    let m = &list[0];
    assert_eq!(
        m.pending,
        vec![File { name: "2.sql".to_string(), version: "2".to_string(), description: String::new() }]
    );
    assert_eq!(
        m.applied,
        vec![AppliedFile {
            file: File {
                name: "1.sql".to_string(),
                version: "1".to_string(),
                description: "init".to_string()
            },
            start: sentinel(),
            end: sentinel(),
            skipped: 0,
            applied: vec!["CREATE TABLE t (id int)".to_string()],
            error: None,
        }]
    );
    assert_eq!(m.current, "");
    assert_eq!(m.target, "1");
    assert_eq!(m.error, "");
}

#[test]
fn applied_file_needs_its_required_fields() {
    assert!(decode_text::<AppliedFile>("{\"Skipped\":1,\"Applied\":[]}").is_some());
    assert!(decode_text::<AppliedFile>("{\"Applied\":[]}").is_none());
    assert!(decode_text::<AppliedFile>("{\"Skipped\":1}").is_none());
    assert!(decode_text::<AppliedFile>("{\"Skipped\":\"1\",\"Applied\":[]}").is_none());
    assert!(decode_text::<AppliedFile>("{\"Skipped\":1.5,\"Applied\":[]}").is_none());
    assert!(decode_text::<AppliedFile>("{\"Skipped\":1,\"Applied\":[1]}").is_none());
    assert!(decode_text::<AppliedFile>("{\"Skipped\":1,\"Applied\":[],\"Name\":7}").is_none());
    let with_error = decode_text::<AppliedFile>(
        "{\"Skipped\":2,\"Applied\":[\"a\",\"b\"],\"Error\":{\"SQL\":\"s\",\"Error\":\"e\"}}",
    )
    .unwrap();
    assert_eq!(with_error.skipped, 2);
    assert_eq!(with_error.applied, vec!["a", "b"]);
    assert_eq!(with_error.error, Some(SqlError { sql: "s".to_string(), error: "e".to_string() }));
    assert!(decode_text::<AppliedFile>("{\"Skipped\":2,\"Applied\":[],\"Error\":{\"SQL\":\"s\"}}")
        .is_none());
    assert_eq!(SqlError::default(), SqlError { sql: String::new(), error: String::new() });
}

#[test]
fn migrate_down_renames_url() {
    let text = "{\"Planned\":[{\"Name\":\"1.sql\"}],\"Reverted\":[{\"Name\":\"2.sql\",\
        \"Skipped\":0,\"Applied\":[],\"Scope\":\"statement\"}],\"Current\":\"2\",\"Target\":\"1\",\
        \"Total\":1,\"URL\":\"https://x\",\"Status\":\"APPLIED\",\"Error\":\"boom\"}";
    let down = decode_text::<MigrateDown>(text).unwrap();
    assert_eq!(down.planned.len(), 1);
    assert_eq!(
        down.reverted,
        vec![RevertedFile {
            file: File { name: "2.sql".to_string(), version: String::new(), description: String::new() },
            start: sentinel(),
            end: sentinel(),
            skipped: 0,
            applied: Vec::new(),
            scope: "statement".to_string(),
            error: None,
        }]
    );
    assert_eq!(down.total, 1);
    assert_eq!(down.url, "https://x");
    assert_eq!(down.status, "APPLIED");
    assert_eq!(down.error, "boom");
    assert!(decode_text::<MigrateDown>("{\"url\":\"https://x\"}").unwrap().url.is_empty());
    let j = encode(&down);
    assert_eq!(
        member_names(&j),
        vec!["Planned", "Reverted", "Current", "Target", "Total", "Start", "End", "URL", "Status", "Error"]
    );
    assert_eq!(decode::<MigrateDown>(&j), Some(down));
}

#[test]
fn schema_apply_is_flat() {
    let text = "{\"Driver\":\"sqlite3\",\"URL\":\"sqlite://db\",\
        \"Changes\":{\"Applied\":[\"CREATE\"],\"Error\":{\"Stmt\":\"s\",\"Text\":\"t\"}},\"Error\":\"e\"}";
    let s = decode_text::<SchemaApply>(text).unwrap();
    assert_eq!(
        s.env,
        Env { driver: "sqlite3".to_string(), url: "sqlite://db".to_string(), dir: String::new() }
    );
    assert_eq!(s.changes.applied, vec!["CREATE"]);
    assert!(s.changes.pending.is_empty());
    assert_eq!(s.changes.error, Some(StmtError { stmt: "s".to_string(), text: "t".to_string() }));
    assert_eq!(s.error, "e");
    let j = encode(&s);
    assert_eq!(member_names(&j), vec!["Driver", "URL", "Changes", "Error"]);
    assert_eq!(decode::<SchemaApply>(&j), Some(s));

    let bare = decode_text::<SchemaApply>("{}").unwrap();
    assert_eq!(bare, SchemaApply { env: empty_env(), changes: empty_changes(), error: String::new() });
    assert!(member_names(&encode(&bare)).is_empty());
    assert!(decode_text::<SchemaApply>("{\"Env\":{\"Driver\":\"x\"}}").unwrap().env.driver.is_empty());
    assert!(decode_text::<SchemaApply>("{\"Changes\":null}").is_none());
    assert!(decode_text::<SchemaApply>("[]").is_none());
}

#[test]
fn omit_predicates() {
    assert!(isize_is_zero(&0));
    assert!(!isize_is_zero(&-1));
    assert!(bool_is_zero(&false));
    assert!(!bool_is_zero(&true));
    assert!(changes_all_zero(&empty_changes()));
    let mut c = empty_changes();
    c.pending.push("x".to_string());
    assert!(!changes_all_zero(&c));
    let mut c = empty_changes();
    c.error = Some(StmtError { stmt: String::new(), text: String::new() });
    assert!(!changes_all_zero(&c));
}

#[test]
fn diagnostics_count_sums_over_files_and_reports() {
    let report = summary(vec![
        file_report(vec![vec![diagnostic("d1"), diagnostic("d2")]]),
        file_report(vec![vec![diagnostic("d3")]]),
    ]);
    assert_eq!(report.diagnostics_count(), 3);
    assert_eq!(summary(Vec::new()).diagnostics_count(), 0);
    assert_eq!(summary(vec![file_report(Vec::new())]).diagnostics_count(), 0);
    let many = summary(vec![
        file_report(vec![vec![diagnostic("a")], Vec::new(), vec![diagnostic("b"), diagnostic("c")]]),
        file_report(vec![Vec::new()]),
        file_report(vec![vec![diagnostic("d")], vec![diagnostic("e")]]),
    ]);
    assert_eq!(many.diagnostics_count(), 5);
}

#[test]
fn summary_report_document() {
    let text = "{\"URL\":\"https://r\",\"Env\":{\"Driver\":\"mysql\"},\"Schema\":{\"Desired\":\"d\"},\
        \"Steps\":[{\"Name\":\"lint\",\"Result\":{\"Name\":\"1.sql\",\"Reports\":[{\"Text\":\"t\",\
        \"Diagnostics\":[{\"Pos\":3,\"Text\":\"x\",\"Code\":\"DS102\",\"SuggestedFixes\":[{\"Message\":\"m\",\
        \"TextEdit\":{\"Line\":1,\"End\":2,\"NewText\":\"n\"}}]}]}]}}],\
        \"Files\":[{\"Name\":\"1.sql\",\"Error\":\"bad\"}]}";
    let r = decode_text::<SummaryReport>(text).unwrap();
    assert_eq!(r.url, "https://r");
    assert_eq!(r.env.driver, "mysql");
    assert_eq!(r.schema, SummaryReportSchema { current: String::new(), desired: "d".to_string() });
    assert_eq!(r.steps.len(), 1);
    let step: &StepReport = &r.steps[0];
    let result = step.result.as_ref().unwrap();
    assert_eq!(
        result.reports[0].diagnostics[0],
        Diagnostic {
            pos: 3,
            text: "x".to_string(),
            code: "DS102".to_string(),
            suggested_fixes: vec![SuggestedFix {
                message: "m".to_string(),
                text_edit: Some(TextEdit { line: 1, end: 2, new_text: "n".to_string() }),
            }],
        }
    );
    assert_eq!(r.files[0].error, "bad");
    assert_eq!(r.diagnostics_count(), 0);
    let j = encode(&r);
    assert_eq!(member_names(&j), vec!["URL", "Env", "Schema", "Steps", "Files"]);
    assert_eq!(decode::<SummaryReport>(&j), Some(r));
    assert!(decode_text::<SummaryReport>("{\"Schema\":{}}").is_none());
    assert!(decode_text::<SummaryReport>("{\"Env\":{}}").is_none());
    assert!(decode_text::<SummaryReport>("{\"Env\":{},\"Schema\":{}}").is_some());
}

#[test]
fn revision_and_status_documents() {
    let text = "{\"Applied\":[{\"Version\":\"1\",\"Description\":\"init\",\"Type\":\"2\",\
        \"Applied\":1,\"Total\":1,\"ExecutionTime\":\"1.500000000\",\"OperatorVersion\":\"v0\"}],\
        \"Count\":4,\"SQL\":\"SELECT 1\"}";
    let status = decode_text::<MigrateStatus>(text).unwrap();
    assert_eq!(
        status.applied,
        vec![Revision {
            version: "1".to_string(),
            description: "init".to_string(),
            typ: "2".to_string(),
            applied: 1,
            total: 1,
            executed_at: sentinel(),
            execution_time: Duration { seconds: 1, nanoseconds: 500_000_000 },
            error: String::new(),
            error_stmt: String::new(),
            operator_version: "v0".to_string(),
        }]
    );
    assert_eq!(status.count, 4);
    assert_eq!(status.total, 0);
    assert_eq!(status.sql, "SELECT 1");
    let j = encode(&status);
    assert_eq!(member_names(&j), vec!["Applied", "Count", "SQL"]);
    let revision = match encode(&status.applied[0]) {
        Json::Object(m) => m,
        _ => unreachable!(),
    };
    assert!(matches!(&revision[6], (k, Json::Text(s)) if k == "ExecutionTime" && s == "1.500000000"));
    assert!(matches!(&revision[3], (k, Json::Number(Some(1))) if k == "Applied"));
    let mut negative = status.applied[0].clone();
    negative.execution_time = Duration { seconds: -2, nanoseconds: -5 };
    assert_eq!(decode::<Revision>(&encode(&negative)), Some(negative));
    assert_eq!(decode::<MigrateStatus>(&j), Some(status));
    assert!(decode_text::<Revision>(
        "{\"Version\":\"1\",\"Description\":\"\",\"Type\":\"\",\"Applied\":1,\"Total\":1,\"OperatorVersion\":\"\"}"
    )
    .is_none());
}

#[test]
fn version_document() {
    let v = decode_text::<Version>("{\"Version\":\"0.1\",\"SHA\":\"abc\",\"Canary\":true}").unwrap();
    assert_eq!(v, Version { version: "0.1".to_string(), sha: "abc".to_string(), canary: true });
    let plain = decode_text::<Version>("{\"Version\":\"0.1\"}").unwrap();
    assert!(!plain.canary);
    assert_eq!(member_names(&encode(&plain)), vec!["Version"]);
    assert_eq!(member_names(&encode(&v)), vec!["Version", "SHA", "Canary"]);
    assert!(decode_text::<Version>("{}").is_none());
    assert!(decode_text::<Version>("{\"Version\":\"0.1\",\"Canary\":1}").is_none());
}

#[test]
fn err_string_is_the_last_error() {
    let apply = |e: &str| MigrateApply {
        pending: Vec::new(),
        applied: Vec::new(),
        current: String::new(),
        target: String::new(),
        start: sentinel(),
        end: sentinel(),
        error: e.to_string(),
    };
    assert_eq!(MigrateApplyError::new(Vec::new()).err_string(), "");
    assert_eq!(MigrateApplyError::new(vec![apply("a"), apply("b")]).err_string(), "b");
    assert_eq!(MigrateApplyError::new(vec![apply("a"), apply("")]).err_string(), "");
    let schema = |e: &str| SchemaApply { env: empty_env(), changes: empty_changes(), error: e.to_string() };
    assert_eq!(SchemaApplyError::new(Vec::new()).err_string(), "");
    assert_eq!(SchemaApplyError::new(vec![schema("x"), schema("y")]).err_string(), "y");
    assert_eq!(SchemaApplyError::new(vec![schema("x")]).result.len(), 1);
}

#[test]
fn list_text_must_be_a_list_of_objects() {
    assert_eq!(decode_list_text::<File>("[]"), Some(Vec::new()));
    assert_eq!(decode_list_text::<File>("[{},{}]"), Some(vec![empty_file(), empty_file()]));
    assert!(decode_list_text::<File>("{}").is_none());
    assert!(decode_list_text::<File>("[{},1]").is_none());
    assert!(decode_list_text::<File>("[[]]").is_none());
    assert!(decode_list_text::<File>("not json").is_none());
    assert!(matches!(parse_json("[]"), Some(Json::List(v)) if v.is_empty()));
}
