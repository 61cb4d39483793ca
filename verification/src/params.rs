//! The parameter objects of the operations.

use crate::context::DeployRunContext;
use crate::context::DeployRunContextView;
use crate::context::MigrateExecOrder;
use crate::context::RunContext;
use crate::context::RunContextView;
use crate::util::NonEmptyString;
use crate::vars::Vars;
use vstd::prelude::*;

verus! {

/// What `login` needs.
#[derive(Debug)]
pub struct LoginParams {
    pub token: String,
}

/// A `LoginParams` with its texts and lists as sequences.
pub ghost struct LoginParamsView {
    pub token: Seq<char>,
}

impl View for LoginParams {
    type V = LoginParamsView;

    open spec fn view(&self) -> LoginParamsView {
        LoginParamsView { token: self.token@ }
    }
}

/// What `migrate push` takes.
#[derive(Debug)]
pub struct MigratePushParams {
    pub name: String,
    pub tag: Option<String>,
    pub dev_url: Option<NonEmptyString>,
    pub dir_url: Option<NonEmptyString>,
    pub dir_format: Option<NonEmptyString>,
    pub lock_timeout: Option<NonEmptyString>,
    pub context: Option<RunContext>,
    pub config_url: Option<NonEmptyString>,
    pub env: Option<NonEmptyString>,
    pub vars: Vars,
}

/// A `MigratePushParams` with its texts and lists as sequences.
pub ghost struct MigratePushParamsView {
    pub name: Seq<char>,
    pub tag: Option<Seq<char>>,
    pub dev_url: Option<Seq<char>>,
    pub dir_url: Option<Seq<char>>,
    pub dir_format: Option<Seq<char>>,
    pub lock_timeout: Option<Seq<char>>,
    pub context: Option<RunContextView>,
    pub config_url: Option<Seq<char>>,
    pub env: Option<Seq<char>>,
    pub vars: Seq<(Seq<char>, Seq<char>)>,
}

impl View for MigratePushParams {
    type V = MigratePushParamsView;

    open spec fn view(&self) -> MigratePushParamsView {
        MigratePushParamsView {
            name: self.name@,
            tag: self.tag.deep_view(),
            dev_url: self.dev_url.deep_view(),
            dir_url: self.dir_url.deep_view(),
            dir_format: self.dir_format.deep_view(),
            lock_timeout: self.lock_timeout.deep_view(),
            context: self.context.deep_view(),
            config_url: self.config_url.deep_view(),
            env: self.env.deep_view(),
            vars: self.vars@,
        }
    }
}

/// What `migrate apply` takes.
#[derive(Debug)]
pub struct MigrateApplyParams {
    pub env: Option<NonEmptyString>,
    pub config_url: Option<NonEmptyString>,
    pub context: Option<DeployRunContext>,
    pub dir_url: Option<NonEmptyString>,
    pub allow_dirty: bool,
    pub url: Option<NonEmptyString>,
    pub revisions_schema: Option<NonEmptyString>,
    pub baseline_version: Option<NonEmptyString>,
    pub tx_mode: Option<NonEmptyString>,
    pub exec_order: Option<MigrateExecOrder>,
    pub amount: u64,
    pub dry_run: bool,
    pub vars: Vars,
}

/// A `MigrateApplyParams` with its texts and lists as sequences.
pub ghost struct MigrateApplyParamsView {
    pub env: Option<Seq<char>>,
    pub config_url: Option<Seq<char>>,
    pub context: Option<DeployRunContextView>,
    pub dir_url: Option<Seq<char>>,
    pub allow_dirty: bool,
    pub url: Option<Seq<char>>,
    pub revisions_schema: Option<Seq<char>>,
    pub baseline_version: Option<Seq<char>>,
    pub tx_mode: Option<Seq<char>>,
    pub exec_order: Option<MigrateExecOrder>,
    pub amount: nat,
    pub dry_run: bool,
    pub vars: Seq<(Seq<char>, Seq<char>)>,
}

impl View for MigrateApplyParams {
    type V = MigrateApplyParamsView;

    open spec fn view(&self) -> MigrateApplyParamsView {
        MigrateApplyParamsView {
            env: self.env.deep_view(),
            config_url: self.config_url.deep_view(),
            context: self.context.deep_view(),
            dir_url: self.dir_url.deep_view(),
            allow_dirty: self.allow_dirty,
            url: self.url.deep_view(),
            revisions_schema: self.revisions_schema.deep_view(),
            baseline_version: self.baseline_version.deep_view(),
            tx_mode: self.tx_mode.deep_view(),
            exec_order: self.exec_order,
            amount: self.amount as nat,
            dry_run: self.dry_run,
            vars: self.vars@,
        }
    }
}

/// What `migrate down` takes.
#[derive(Debug)]
pub struct MigrateDownParams {
    pub env: Option<NonEmptyString>,
    pub config_url: Option<NonEmptyString>,
    pub dev_url: Option<NonEmptyString>,
    pub context: Option<DeployRunContext>,
    pub dir_url: Option<NonEmptyString>,
    pub url: Option<NonEmptyString>,
    pub revisions_schema: Option<NonEmptyString>,
    pub amount: u64,
    pub to_version: Option<NonEmptyString>,
    pub to_tag: Option<NonEmptyString>,
    pub vars: Vars,
}

/// A `MigrateDownParams` with its texts and lists as sequences.
pub ghost struct MigrateDownParamsView {
    pub env: Option<Seq<char>>,
    pub config_url: Option<Seq<char>>,
    pub dev_url: Option<Seq<char>>,
    pub context: Option<DeployRunContextView>,
    pub dir_url: Option<Seq<char>>,
    pub url: Option<Seq<char>>,
    pub revisions_schema: Option<Seq<char>>,
    pub amount: nat,
    pub to_version: Option<Seq<char>>,
    pub to_tag: Option<Seq<char>>,
    pub vars: Seq<(Seq<char>, Seq<char>)>,
}

impl View for MigrateDownParams {
    type V = MigrateDownParamsView;

    open spec fn view(&self) -> MigrateDownParamsView {
        MigrateDownParamsView {
            env: self.env.deep_view(),
            config_url: self.config_url.deep_view(),
            dev_url: self.dev_url.deep_view(),
            context: self.context.deep_view(),
            dir_url: self.dir_url.deep_view(),
            url: self.url.deep_view(),
            revisions_schema: self.revisions_schema.deep_view(),
            amount: self.amount as nat,
            to_version: self.to_version.deep_view(),
            to_tag: self.to_tag.deep_view(),
            vars: self.vars@,
        }
    }
}

/// What `migrate status` takes.
#[derive(Debug)]
pub struct MigrateStatusParams {
    pub env: String,
    pub config_url: String,
    pub dir_url: String,
    pub url: String,
    pub revisions_schema: String,
    pub vars: Vars,
}

/// What `migrate lint` takes.
#[derive(Debug)]
pub struct MigrateLintParams {
    pub env: String,
    pub config_url: String,
    pub dev_url: String,
    pub dir_url: String,
    pub context: RunContext,
    pub web: bool,
    pub latest: u64,
    pub vars: Vars,
    pub writer: core::marker::PhantomData<u64>,
    pub base: String,
    pub format: String,
}

/// What `schema apply` takes.
#[derive(Debug)]
pub struct SchemaApplyParams {
    pub env: Option<NonEmptyString>,
    pub config_url: Option<NonEmptyString>,
    pub dev_url: Option<NonEmptyString>,
    pub dry_run: bool,
    pub tx_mode: Option<NonEmptyString>,
    pub exclude: Vec<NonEmptyString>,
    pub schema: Vec<NonEmptyString>,
    pub to: Option<NonEmptyString>,
    pub url: Option<NonEmptyString>,
    pub vars: Vars,
}

/// A `SchemaApplyParams` with its texts and lists as sequences.
pub ghost struct SchemaApplyParamsView {
    pub env: Option<Seq<char>>,
    pub config_url: Option<Seq<char>>,
    pub dev_url: Option<Seq<char>>,
    pub dry_run: bool,
    pub tx_mode: Option<Seq<char>>,
    pub exclude: Seq<Seq<char>>,
    pub schema: Seq<Seq<char>>,
    pub to: Option<Seq<char>>,
    pub url: Option<Seq<char>>,
    pub vars: Seq<(Seq<char>, Seq<char>)>,
}

impl View for SchemaApplyParams {
    type V = SchemaApplyParamsView;

    open spec fn view(&self) -> SchemaApplyParamsView {
        SchemaApplyParamsView {
            env: self.env.deep_view(),
            config_url: self.config_url.deep_view(),
            dev_url: self.dev_url.deep_view(),
            dry_run: self.dry_run,
            tx_mode: self.tx_mode.deep_view(),
            exclude: self.exclude.deep_view(),
            schema: self.schema.deep_view(),
            to: self.to.deep_view(),
            url: self.url.deep_view(),
            vars: self.vars@,
        }
    }
}

/// What `schema inspect` takes.
#[derive(Debug)]
pub struct SchemaInspectParams {
    pub env: Option<NonEmptyString>,
    pub config_url: Option<NonEmptyString>,
    pub dev_url: Option<NonEmptyString>,
    pub exclude: Vec<NonEmptyString>,
    pub format: Option<NonEmptyString>,
    pub schema: Vec<NonEmptyString>,
    pub url: Option<NonEmptyString>,
    pub vars: Vars,
}

/// A `SchemaInspectParams` with its texts and lists as sequences.
pub ghost struct SchemaInspectParamsView {
    pub env: Option<Seq<char>>,
    pub config_url: Option<Seq<char>>,
    pub dev_url: Option<Seq<char>>,
    pub exclude: Seq<Seq<char>>,
    pub format: Option<Seq<char>>,
    pub schema: Seq<Seq<char>>,
    pub url: Option<Seq<char>>,
    pub vars: Seq<(Seq<char>, Seq<char>)>,
}

impl View for SchemaInspectParams {
    type V = SchemaInspectParamsView;

    open spec fn view(&self) -> SchemaInspectParamsView {
        SchemaInspectParamsView {
            env: self.env.deep_view(),
            config_url: self.config_url.deep_view(),
            dev_url: self.dev_url.deep_view(),
            exclude: self.exclude.deep_view(),
            format: self.format.deep_view(),
            schema: self.schema.deep_view(),
            url: self.url.deep_view(),
            vars: self.vars@,
        }
    }
}

} // verus!
