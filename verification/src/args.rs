//! The argument vector of each operation: which flags stand in it, and in
//! which order.

use crate::context::deploy_context_json;
use crate::context::run_context_json;
use crate::params::LoginParams;
use crate::params::LoginParamsView;
use crate::params::MigrateApplyParams;
use crate::params::MigrateApplyParamsView;
use crate::params::MigrateDownParams;
use crate::params::MigrateDownParamsView;
use crate::params::MigratePushParams;
use crate::params::MigratePushParamsView;
use crate::params::SchemaApplyParams;
use crate::params::SchemaApplyParamsView;
use crate::params::SchemaInspectParams;
use crate::params::SchemaInspectParamsView;
use crate::text::decimal;
use crate::text::decimal_text;
use crate::text::joined;
use crate::text::push_str;
use crate::text::push_text;
use crate::text::same_text;
use crate::util::NonEmptyString;
use crate::vars::var_args;
use vstd::prelude::*;
use vstd::string::StringExecFns;

verus! {

/// A flag with its value, where there is a value.
pub open spec fn flag(name: Seq<char>, value: Option<Seq<char>>) -> Seq<Seq<char>> {
    match value {
        Some(v) => seq![name, v],
        None => Seq::empty(),
    }
}

/// A flag without a value, where it is switched on.
pub open spec fn switch(name: Seq<char>, on: bool) -> Seq<Seq<char>> {
    if on {
        seq![name]
    } else {
        Seq::empty()
    }
}

/// A flag whose value is a list joined by commas, where the list holds
/// anything.
pub open spec fn list_flag(name: Seq<char>, items: Seq<Seq<char>>) -> Seq<Seq<char>> {
    if items.len() == 0 {
        Seq::empty()
    } else {
        seq![name, joined(items, ","@)]
    }
}

/// The amount as a positional argument, where it is above zero.
pub open spec fn amount_args(amount: nat) -> Seq<Seq<char>> {
    if amount > 0 {
        seq![decimal_text(amount)]
    } else {
        Seq::empty()
    }
}

/// Appends all of `more` to `list`.
pub fn append_texts(list: &mut Vec<String>, more: Vec<String>)
    ensures
        final(list).deep_view() == old(list).deep_view() + more.deep_view(),
{
    let ghost before = list.deep_view();
    let ghost added = more.deep_view();
    let mut more = more;
    list.append(&mut more);
    assert(list.deep_view() =~= before + added);
}

/// Appends `name` and the text of `value`, where there is a value.
pub fn push_flag(list: &mut Vec<String>, name: &str, value: &Option<NonEmptyString>)
    ensures
        final(list).deep_view() == old(list).deep_view() + flag(name@, value.deep_view()),
{
    let ghost before = list.deep_view();
    match value {
        Some(v) => {
            push_str(list, name);
            push_str(list, v.as_str());
            assert(list.deep_view() =~= before + flag(name@, value.deep_view()));
        },
        None => {
            assert(list.deep_view() =~= before + flag(name@, value.deep_view()));
        },
    }
}

/// Appends `name` and `value`, where there is a value.
pub fn push_text_flag(list: &mut Vec<String>, name: &str, value: Option<String>)
    ensures
        final(list).deep_view() == old(list).deep_view() + flag(name@, value.deep_view()),
{
    let ghost before = list.deep_view();
    let ghost wanted = flag(name@, value.deep_view());
    match value {
        Some(v) => {
            push_str(list, name);
            push_text(list, v);
            assert(list.deep_view() =~= before + wanted);
        },
        None => {
            assert(list.deep_view() =~= before + wanted);
        },
    }
}

/// Appends `name`, where `on` holds.
pub fn push_switch(list: &mut Vec<String>, name: &str, on: bool)
    ensures
        final(list).deep_view() == old(list).deep_view() + switch(name@, on),
{
    let ghost before = list.deep_view();
    if on {
        push_str(list, name);
    }
    assert(list.deep_view() =~= before + switch(name@, on));
}

/// Joins the texts of `items` with `separator` between them.
pub fn join(items: &Vec<NonEmptyString>, separator: &str) -> (r: String)
    ensures
        r@ == joined(items.deep_view(), separator@),
{
    let mut out = String::new();
    let mut i: usize = 0;
    let ghost all = items.deep_view();
    assert(all.take(0) =~= Seq::<Seq<char>>::empty());
    while i < items.len()
        invariant
            i <= items.len(),
            all == items.deep_view(),
            out@ == joined(all.take(i as int), separator@),
        decreases items.len() - i,
    {
        proof {
            let next = all.take(i + 1);
            assert(next.drop_last() =~= all.take(i as int));
            assert(next.last() == items[i as int]@);
            if i == 0 {
                assert(out@ + items[i as int]@ =~= items[i as int]@);
            }
        }
        if i > 0 {
            out.append(separator);
        }
        out.append(items[i].as_str());
        i = i + 1;
    }
    assert(all.take(i as int) =~= all);
    out
}

/// Appends `name` and the joined list, where the list holds anything.
pub fn push_list_flag(list: &mut Vec<String>, name: &str, items: &Vec<NonEmptyString>)
    ensures
        final(list).deep_view() == old(list).deep_view() + list_flag(name@, items.deep_view()),
{
    let ghost before = list.deep_view();
    if items.len() > 0 {
        push_str(list, name);
        let value = join(items, ",");
        push_text(list, value);
    }
    assert(list.deep_view() =~= before + list_flag(name@, items.deep_view()));
}

/// Appends the amount in decimal notation, where it is above zero.
pub fn push_amount(list: &mut Vec<String>, amount: u64)
    ensures
        final(list).deep_view() == old(list).deep_view() + amount_args(amount as nat),
{
    let ghost before = list.deep_view();
    if amount > 0 {
        push_text(list, decimal(amount));
    }
    assert(list.deep_view() =~= before + amount_args(amount as nat));
}

/// The arguments of `migrate apply`.
pub open spec fn migrate_apply_args(p: MigrateApplyParamsView) -> Seq<Seq<char>> {
    seq!["migrate"@, "apply"@, "--format"@, "{{ json . }}"@] + flag("--env"@, p.env) + flag(
        "--config"@,
        p.config_url,
    ) + flag(
        "--context"@,
        match p.context {
            Some(c) => Some(deploy_context_json(c)),
            None => None,
        },
    ) + flag("--url"@, p.url) + flag("--dir"@, p.dir_url) + switch("--allow-dirty"@, p.allow_dirty)
        + switch("--dry-run"@, p.dry_run) + flag("--revisions-schema"@, p.revisions_schema) + flag(
        "baseline"@,
        p.baseline_version,
    ) + flag("--tx-mode"@, p.tx_mode) + flag(
        "--exec-order"@,
        match p.exec_order {
            Some(o) => Some(o.text()),
            None => None,
        },
    ) + amount_args(p.amount) + var_args(p.vars)
}

/// Builds the arguments of `migrate apply`.
pub fn build_migrate_apply_args(params: &MigrateApplyParams) -> (r: Vec<String>)
    ensures
        r.deep_view() == migrate_apply_args(params@),
{
    let mut args: Vec<String> = Vec::new();
    push_str(&mut args, "migrate");
    push_str(&mut args, "apply");
    push_str(&mut args, "--format");
    push_str(&mut args, "{{ json . }}");
    assert(args.deep_view() =~= seq!["migrate"@, "apply"@, "--format"@, "{{ json . }}"@]);
    push_flag(&mut args, "--env", &params.env);
    push_flag(&mut args, "--config", &params.config_url);
    let context = match &params.context {
        Some(c) => Some(c.to_json()),
        None => None,
    };
    push_text_flag(&mut args, "--context", context);
    push_flag(&mut args, "--url", &params.url);
    push_flag(&mut args, "--dir", &params.dir_url);
    push_switch(&mut args, "--allow-dirty", params.allow_dirty);
    push_switch(&mut args, "--dry-run", params.dry_run);
    push_flag(&mut args, "--revisions-schema", &params.revisions_schema);
    push_flag(&mut args, "baseline", &params.baseline_version);
    push_flag(&mut args, "--tx-mode", &params.tx_mode);
    let order = match &params.exec_order {
        Some(o) => Some(o.as_str().to_string()),
        None => None,
    };
    push_text_flag(&mut args, "--exec-order", order);
    push_amount(&mut args, params.amount);
    append_texts(&mut args, params.vars.as_args());
    args
}

/// The arguments of `migrate down`.
pub open spec fn migrate_down_args(p: MigrateDownParamsView) -> Seq<Seq<char>> {
    seq!["migrate"@, "down"@, "--format"@, "{{ json .}}"@] + flag("--env"@, p.env) + flag(
        "--config"@,
        p.config_url,
    ) + flag("--dev-url"@, p.dev_url) + flag(
        "--context"@,
        match p.context {
            Some(c) => Some(deploy_context_json(c)),
            None => None,
        },
    ) + flag("--url"@, p.url) + flag("--dir"@, p.dir_url) + flag(
        "--revisions-schema"@,
        p.revisions_schema,
    ) + flag("--to-version"@, p.to_version) + flag("--to-tag"@, p.to_tag) + amount_args(p.amount)
        + var_args(p.vars)
}

/// Builds the arguments of `migrate down`.
pub fn build_migrate_down_args(params: &MigrateDownParams) -> (r: Vec<String>)
    ensures
        r.deep_view() == migrate_down_args(params@),
{
    let mut args: Vec<String> = Vec::new();
    push_str(&mut args, "migrate");
    push_str(&mut args, "down");
    push_str(&mut args, "--format");
    push_str(&mut args, "{{ json .}}");
    assert(args.deep_view() =~= seq!["migrate"@, "down"@, "--format"@, "{{ json .}}"@]);
    push_flag(&mut args, "--env", &params.env);
    push_flag(&mut args, "--config", &params.config_url);
    push_flag(&mut args, "--dev-url", &params.dev_url);
    let context = match &params.context {
        Some(c) => Some(c.to_json()),
        None => None,
    };
    push_text_flag(&mut args, "--context", context);
    push_flag(&mut args, "--url", &params.url);
    push_flag(&mut args, "--dir", &params.dir_url);
    push_flag(&mut args, "--revisions-schema", &params.revisions_schema);
    push_flag(&mut args, "--to-version", &params.to_version);
    push_flag(&mut args, "--to-tag", &params.to_tag);
    push_amount(&mut args, params.amount);
    append_texts(&mut args, params.vars.as_args());
    args
}

/// The one flag of `schema apply` that is always there: `--dry-run` for a
/// dry run, `--auto-approve` for any other.
pub open spec fn approval(dry_run: bool) -> Seq<Seq<char>> {
    if dry_run {
        seq!["--dry-run"@]
    } else {
        seq!["--auto-approve"@]
    }
}

/// The arguments of `schema apply`.
pub open spec fn schema_apply_args(p: SchemaApplyParamsView) -> Seq<Seq<char>> {
    seq!["schema"@, "apply"@, "--format"@, "{{ json .}}"@] + flag("--env"@, p.env) + flag(
        "--config"@,
        p.config_url,
    ) + flag("--url"@, p.url) + flag("--to"@, p.to) + approval(p.dry_run) + flag(
        "--tx-mode"@,
        p.tx_mode,
    ) + flag("--dev-url"@, p.dev_url) + list_flag("--schema"@, p.schema) + list_flag(
        "--exclude"@,
        p.exclude,
    ) + var_args(p.vars)
}

/// Builds the arguments of `schema apply`.
pub fn build_schema_apply_args(params: &SchemaApplyParams) -> (r: Vec<String>)
    ensures
        r.deep_view() == schema_apply_args(params@),
{
    let mut args: Vec<String> = Vec::new();
    push_str(&mut args, "schema");
    push_str(&mut args, "apply");
    push_str(&mut args, "--format");
    push_str(&mut args, "{{ json .}}");
    assert(args.deep_view() =~= seq!["schema"@, "apply"@, "--format"@, "{{ json .}}"@]);
    push_flag(&mut args, "--env", &params.env);
    push_flag(&mut args, "--config", &params.config_url);
    push_flag(&mut args, "--url", &params.url);
    push_flag(&mut args, "--to", &params.to);
    let ghost before = args.deep_view();
    if params.dry_run {
        push_str(&mut args, "--dry-run");
    } else {
        push_str(&mut args, "--auto-approve");
    }
    assert(args.deep_view() =~= before + approval(params.dry_run));
    push_flag(&mut args, "--tx-mode", &params.tx_mode);
    push_flag(&mut args, "--dev-url", &params.dev_url);
    push_list_flag(&mut args, "--schema", &params.schema);
    push_list_flag(&mut args, "--exclude", &params.exclude);
    append_texts(&mut args, params.vars.as_args());
    args
}

/// The format flag of `schema inspect`: the word `format` and the SQL
/// template for the format `sql`, `--format` and the value for any other.
pub open spec fn format_args(format: Option<Seq<char>>) -> Seq<Seq<char>> {
    match format {
        Some(f) => if f == "sql"@ {
            seq!["format"@, "{{ sql .}}"@]
        } else {
            seq!["--format"@, f]
        },
        None => Seq::empty(),
    }
}

/// The arguments of `schema inspect`.
pub open spec fn schema_inspect_args(p: SchemaInspectParamsView) -> Seq<Seq<char>> {
    seq!["schema"@, "inspect"@] + flag("--env"@, p.env) + flag("--config"@, p.config_url) + flag(
        "--url"@,
        p.url,
    ) + flag("--dev-url"@, p.dev_url) + format_args(p.format) + list_flag("--schema"@, p.schema)
        + list_flag("--exclude"@, p.exclude)
}

/// Builds the arguments of `schema inspect`.
pub fn build_schema_inspect_args(params: &SchemaInspectParams) -> (r: Vec<String>)
    ensures
        r.deep_view() == schema_inspect_args(params@),
{
    let mut args: Vec<String> = Vec::new();
    push_str(&mut args, "schema");
    push_str(&mut args, "inspect");
    assert(args.deep_view() =~= seq!["schema"@, "inspect"@]);
    push_flag(&mut args, "--env", &params.env);
    push_flag(&mut args, "--config", &params.config_url);
    push_flag(&mut args, "--url", &params.url);
    push_flag(&mut args, "--dev-url", &params.dev_url);
    let ghost before = args.deep_view();
    match &params.format {
        Some(format) => {
            if same_text(format.as_str(), "sql") {
                push_str(&mut args, "format");
                push_str(&mut args, "{{ sql .}}");
            } else {
                push_str(&mut args, "--format");
                push_str(&mut args, format.as_str());
            }
        },
        None => {},
    }
    assert(args.deep_view() =~= before + format_args(params.format.deep_view()));
    push_list_flag(&mut args, "--schema", &params.schema);
    push_list_flag(&mut args, "--exclude", &params.exclude);
    args
}

/// What is pushed: the name, or the name, a colon and the tag.
pub open spec fn push_target(name: Seq<char>, tag: Option<Seq<char>>) -> Seq<char> {
    match tag {
        Some(t) => name + ":"@ + t,
        None => name,
    }
}

/// The arguments of `migrate push`.
pub open spec fn migrate_push_args(p: MigratePushParamsView) -> Seq<Seq<char>> {
    seq!["migrate"@, "push"@] + flag("--dev-url"@, p.dev_url) + flag("--dir"@, p.dir_url) + flag(
        "--dir-format"@,
        p.dir_format,
    ) + flag("--lock-timeout"@, p.lock_timeout) + flag(
        "--config"@,
        match p.context {
            Some(c) => Some(run_context_json(c)),
            None => None,
        },
    ) + flag("--config"@, p.config_url) + flag("--env"@, p.env) + seq![push_target(p.name, p.tag)]
}

/// Builds the arguments of `migrate push`.
pub fn build_migrate_push_args(params: &MigratePushParams) -> (r: Vec<String>)
    ensures
        r.deep_view() == migrate_push_args(params@),
{
    let mut args: Vec<String> = Vec::new();
    push_str(&mut args, "migrate");
    push_str(&mut args, "push");
    assert(args.deep_view() =~= seq!["migrate"@, "push"@]);
    push_flag(&mut args, "--dev-url", &params.dev_url);
    push_flag(&mut args, "--dir", &params.dir_url);
    push_flag(&mut args, "--dir-format", &params.dir_format);
    push_flag(&mut args, "--lock-timeout", &params.lock_timeout);
    let context = match &params.context {
        Some(c) => Some(c.to_json()),
        None => None,
    };
    push_text_flag(&mut args, "--config", context);
    push_flag(&mut args, "--config", &params.config_url);
    push_flag(&mut args, "--env", &params.env);
    let ghost before = args.deep_view();
    let mut target = params.name.clone();
    match &params.tag {
        Some(tag) => {
            target.append(":");
            target.append(tag.as_str());
        },
        None => {},
    }
    push_text(&mut args, target);
    assert(args.deep_view() =~= before + seq![push_target(params@.name, params@.tag)]);
    args
}

/// The arguments of `login`.
pub open spec fn login_args(p: LoginParamsView) -> Seq<Seq<char>> {
    seq!["login"@, "--token"@, p.token]
}

/// Builds the arguments of `login`.
pub fn build_login_args(params: &LoginParams) -> (r: Vec<String>)
    ensures
        r.deep_view() == login_args(params@),
{
    let mut args: Vec<String> = Vec::new();
    push_str(&mut args, "login");
    push_str(&mut args, "--token");
    push_str(&mut args, params.token.as_str());
    assert(args.deep_view() =~= login_args(params@));
    args
}

/// The arguments of `logout`.
pub open spec fn logout_args() -> Seq<Seq<char>> {
    seq!["logout"@]
}

/// Builds the arguments of `logout`.
pub fn build_logout_args() -> (r: Vec<String>)
    ensures
        r.deep_view() == logout_args(),
{
    let mut args: Vec<String> = Vec::new();
    push_str(&mut args, "logout");
    assert(args.deep_view() =~= logout_args());
    args
}

/// The arguments of `migrate apply` depend on nothing but the values of
/// the parameters: two parameter objects with the same values give the
/// same vector, argument by argument.
pub proof fn lemma_migrate_apply_deterministic(p: MigrateApplyParams, q: MigrateApplyParams)
    requires
        p@ == q@,
    ensures
        migrate_apply_args(p@) == migrate_apply_args(q@),
{
}

/// The arguments of `migrate down` depend on nothing but the values of the
/// parameters.
pub proof fn lemma_migrate_down_deterministic(p: MigrateDownParams, q: MigrateDownParams)
    requires
        p@ == q@,
    ensures
        migrate_down_args(p@) == migrate_down_args(q@),
{
}

/// The arguments of `migrate push` depend on nothing but the values of the
/// parameters.
pub proof fn lemma_migrate_push_deterministic(p: MigratePushParams, q: MigratePushParams)
    requires
        p@ == q@,
    ensures
        migrate_push_args(p@) == migrate_push_args(q@),
{
}

/// The arguments of `schema apply` depend on nothing but the values of the
/// parameters.
pub proof fn lemma_schema_apply_deterministic(p: SchemaApplyParams, q: SchemaApplyParams)
    requires
        p@ == q@,
    ensures
        schema_apply_args(p@) == schema_apply_args(q@),
{
}

/// The arguments of `schema inspect` depend on nothing but the values of
/// the parameters.
pub proof fn lemma_schema_inspect_deterministic(p: SchemaInspectParams, q: SchemaInspectParams)
    requires
        p@ == q@,
    ensures
        schema_inspect_args(p@) == schema_inspect_args(q@),
{
}

/// The arguments of `login` depend on nothing but the token.
pub proof fn lemma_login_deterministic(p: LoginParams, q: LoginParams)
    requires
        p@ == q@,
    ensures
        login_args(p@) == login_args(q@),
{
}

/// The arguments of `migrate apply` end with the flags of the variables,
/// and what stands before them does not depend on the variables.
pub proof fn lemma_apply_vars_last(p: MigrateApplyParamsView, q: MigrateApplyParamsView)
    requires
        q == (MigrateApplyParamsView { vars: Seq::empty(), ..p }),
    ensures
        migrate_apply_args(p) == migrate_apply_args(q) + var_args(p.vars),
{
    assert(var_args(q.vars) =~= Seq::<Seq<char>>::empty());
    assert(migrate_apply_args(p) =~= migrate_apply_args(q) + var_args(p.vars));
}

} // verus!
