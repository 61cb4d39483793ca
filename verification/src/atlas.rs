//! The client: one method for each operation of the tool.

use crate::args::build_login_args;
use crate::args::build_logout_args;
use crate::args::build_migrate_apply_args;
use crate::args::build_migrate_down_args;
use crate::args::build_migrate_push_args;
use crate::args::build_schema_apply_args;
use crate::args::build_schema_inspect_args;
use crate::args::login_args;
use crate::args::logout_args;
use crate::args::migrate_apply_args;
use crate::args::migrate_down_args;
use crate::args::migrate_push_args;
use crate::args::schema_apply_args;
use crate::args::schema_inspect_args;
use crate::atlas_models::MigrateApply;
use crate::atlas_models::MigrateDown;
use crate::atlas_models::SchemaApply;
use crate::error::outcome;
use crate::error::ConfigFault;
use crate::error::Error;
use crate::error::ErrorView;
use crate::error::ValidationFault;
use crate::params::LoginParams;
use crate::params::MigrateApplyParams;
use crate::params::MigrateDownParams;
use crate::params::MigratePushParams;
use crate::params::SchemaApplyParams;
use crate::params::SchemaInspectParams;
use crate::process::command_outcome;
use crate::process::command_output;
use crate::process::run_view;
use crate::process::Invocation;
use crate::process::InvocationView;
use crate::process::ProcessOutput;
use crate::process::ProcessOutputView;
use crate::util::NonEmptyString;
use crate::wire::decode_list_text;
use crate::wire::records_of_text;
use crate::wire::Record;
use vstd::prelude::*;

verus! {

/// What was found on the machine when a client is set up.
#[derive(Debug)]
pub struct Probe {
    /// The path that the search for the executable gave, as text; `None`
    /// where it gave none, or one that is no text.
    pub resolved_path: Option<String>,
    /// Whether the working directory exists.
    pub working_dir_exists: bool,
    /// Whether the environment defines `ATLAS_NO_UPDATE_NOTIFIER`.
    pub notifier_defined: bool,
}

/// A `Probe` with its texts and lists as sequences.
pub ghost struct ProbeView {
    pub resolved_path: Option<Seq<char>>,
    pub working_dir_exists: bool,
    pub notifier_defined: bool,
}

impl View for Probe {
    type V = ProbeView;

    open spec fn view(&self) -> ProbeView {
        ProbeView {
            resolved_path: self.resolved_path.deep_view(),
            working_dir_exists: self.working_dir_exists,
            notifier_defined: self.notifier_defined,
        }
    }
}

/// A client of the tool: the path of its executable, found once, and the
/// directory in which it is run.
#[derive(Debug)]
pub struct Client {
    exec_path: NonEmptyString,
    working_dir: Option<String>,
    set_notifier: bool,
}

/// A `Client` with its texts and lists as sequences.
pub ghost struct ClientView {
    /// The path of the executable; never empty.
    pub exec_path: Seq<char>,
    /// The directory in which the tool runs; inherited where `None`.
    pub working_dir: Option<Seq<char>>,
    /// Whether each run sets `ATLAS_NO_UPDATE_NOTIFIER`.
    pub set_notifier: bool,
}

impl View for Client {
    type V = ClientView;

    closed spec fn view(&self) -> ClientView {
        ClientView {
            exec_path: self.exec_path@,
            working_dir: self.working_dir.deep_view(),
            set_notifier: self.set_notifier,
        }
    }
}

/// What setting up a client gives, in the order in which the input is
/// tested: the name, the search, the working directory.
pub open spec fn new_outcome(
    working_dir: Option<Seq<char>>,
    exec_path: Seq<char>,
    probe: ProbeView,
) -> Result<ClientView, ErrorView> {
    if exec_path.len() == 0 {
        Err(ErrorView::Config(ConfigFault::EmptyExecPath))
    } else if probe.resolved_path is None {
        Err(ErrorView::ExecutableNotFound)
    } else if working_dir is Some && working_dir->0.len() == 0 {
        Err(ErrorView::Config(ConfigFault::EmptyWorkingDir))
    } else if working_dir is Some && !probe.working_dir_exists {
        Err(ErrorView::InvalidWorkingDir)
    } else if probe.resolved_path->0.len() == 0 {
        Err(ErrorView::Validation(ValidationFault::EmptyText))
    } else {
        Ok(
            ClientView {
                exec_path: probe.resolved_path->0,
                working_dir,
                set_notifier: !probe.notifier_defined,
            },
        )
    }
}

/// The run that a client makes with `args`.
pub open spec fn invocation(client: ClientView, args: Seq<Seq<char>>) -> InvocationView {
    InvocationView {
        program: client.exec_path,
        args,
        working_dir: client.working_dir,
        env: if client.set_notifier {
            seq![("ATLAS_NO_UPDATE_NOTIFIER"@, "1"@)]
        } else {
            Seq::empty()
        },
    }
}

/// What `login` and `logout` give for a run: nothing, or the run's error.
pub open spec fn unit_outcome(run: Result<ProcessOutputView, Seq<char>>) -> Result<(), ErrorView> {
    match command_outcome(run) {
        Ok(_) => Ok(()),
        Err(e) => Err(e),
    }
}

/// Reads the outcome of a run whose output is not used.
pub fn unit_output(run: Result<ProcessOutput, String>) -> (r: Result<(), Error>)
    ensures
        outcome(r) == unit_outcome(run_view(run)),
{
    match command_output(run) {
        Ok(_) => Ok(()),
        Err(e) => Err(e),
    }
}

/// What an operation with a list of results gives for a run: the run's
/// error, or the list that the output stands for, or, where the output
/// stands for none, an error that carries the output.
pub open spec fn list_outcome<T: Record>(run: Result<ProcessOutputView, Seq<char>>) -> Result<
    Seq<T::V>,
    ErrorView,
> {
    match command_outcome(run) {
        Err(e) => Err(e),
        Ok(text) => match records_of_text::<T>(text) {
            Some(list) => Ok(list),
            None => Err(ErrorView::Deserialization { raw_output: text }),
        },
    }
}

/// The single entry of a list of results: a list of any other length than
/// one is an error.
pub open spec fn single<V>(list: Result<Seq<V>, ErrorView>) -> Result<V, ErrorView> {
    match list {
        Err(e) => Err(e),
        Ok(entries) => if entries.len() == 1 {
            Ok(entries[0])
        } else {
            Err(ErrorView::AmbiguousResult { count: entries.len() })
        },
    }
}

/// Reads the list of results of a run.
pub fn list_output<T: Record>(run: Result<ProcessOutput, String>) -> (r: Result<Vec<T>, Error>)
    ensures
        outcome(r) == list_outcome::<T>(run_view(run)),
{
    match command_output(run) {
        Err(e) => Err(e),
        Ok(text) => match decode_list_text::<T>(text.as_str()) {
            Some(list) => Ok(list),
            None => Err(Error::Deserialization { raw_output: text }),
        },
    }
}

/// The one entry of a list of results, at the level of views.
pub fn single_result<T: DeepView>(result: Result<Vec<T>, Error>) -> (r: Result<T, Error>)
    ensures
        outcome(r) == single(outcome(result)),
{
    first_result(result)
}

/// The one entry of a result that must hold exactly one; an error is
/// handed on as it is.
pub fn first_result<T>(result: Result<Vec<T>, Error>) -> (r: Result<T, Error>)
    ensures
        match result {
            Err(e) => r == Err::<T, Error>(e),
            Ok(v) => if v@.len() == 1 {
                r == Ok::<T, Error>(v@[0])
            } else {
                r == Err::<T, Error>(Error::AmbiguousResult { count: v.len() })
            },
        },
{
    match result {
        Err(e) => Err(e),
        Ok(v) => {
            let mut v = v;
            let count = v.len();
            if count == 1 {
                match v.pop() {
                    Some(entry) => Ok(entry),
                    None => Err(Error::AmbiguousResult { count }),
                }
            } else {
                Err(Error::AmbiguousResult { count })
            }
        },
    }
}

/// Whether `run`, called with the invocation `wanted`, may have returned
/// `out`.
pub open spec fn ran<F: FnOnce(&Invocation) -> Result<ProcessOutput, String>>(
    run: F,
    wanted: InvocationView,
    out: Result<ProcessOutput, String>,
) -> bool {
    exists|inv: &Invocation| inv@ == wanted && #[trigger] call_ensures(run, (inv,), out)
}

/// Whether `run` may be called with the invocation `wanted`.
pub open spec fn runs<F: FnOnce(&Invocation) -> Result<ProcessOutput, String>>(
    run: F,
    wanted: InvocationView,
) -> bool {
    forall|inv: &Invocation| inv@ == wanted ==> #[trigger] call_requires(run, (inv,))
}

/// What `login` gives: an empty token is refused before anything is run.
pub open spec fn login_guard(token: Seq<char>) -> Result<(), ErrorView> {
    if token.len() == 0 {
        Err(ErrorView::Validation(ValidationFault::EmptyToken))
    } else {
        Ok(())
    }
}

impl Client {
    /// Sets up a client from the name of the executable, an optional working
    /// directory, and what was found on the machine. An empty name fails
    /// whatever was found.
    pub fn new(working_dir: Option<&str>, exec_path: &str, probe: Probe) -> (r: Result<
        Client,
        Error,
    >)
        ensures
            match r {
                Ok(client) => Ok(client@),
                Err(e) => Err(e@),
            } == new_outcome(
                match working_dir {
                    Some(d) => Some(d@),
                    None => None,
                },
                exec_path@,
                probe@,
            ),
    {
        if exec_path.is_empty() {
            return Err(Error::Config(ConfigFault::EmptyExecPath));
        }
        let resolved = match probe.resolved_path {
            Some(path) => path,
            None => {
                return Err(Error::ExecutableNotFound);
            },
        };
        let mut dir: Option<String> = None;
        match working_dir {
            Some(d) => {
                if d.is_empty() {
                    return Err(Error::Config(ConfigFault::EmptyWorkingDir));
                }
                if !probe.working_dir_exists {
                    return Err(Error::InvalidWorkingDir);
                }
                dir = Some(d.to_string());
            },
            None => {},
        }
        match NonEmptyString::try_from_string(resolved) {
            Ok(path) => Ok(
                Client { exec_path: path, working_dir: dir, set_notifier: !probe.notifier_defined },
            ),
            Err(e) => Err(e),
        }
    }

    /// The path of the executable.
    pub fn exec_path(&self) -> (r: &str)
        ensures
            r@ == self@.exec_path,
            r@.len() > 0,
    {
        self.exec_path.as_str()
    }

    /// The directory in which the tool runs.
    pub fn working_dir(&self) -> (r: Option<&str>)
        ensures
            match r {
                Some(d) => self@.working_dir == Some(d@),
                None => self@.working_dir is None,
            },
    {
        match &self.working_dir {
            Some(d) => Some(d.as_str()),
            None => None,
        }
    }

    /// The run that this client makes with `args`.
    pub fn invocation(&self, args: Vec<String>) -> (r: Invocation)
        ensures
            r@ == invocation(self@, args.deep_view()),
            r@.program.len() > 0,
    {
        let mut env: Vec<(String, String)> = Vec::new();
        if self.set_notifier {
            env.push(("ATLAS_NO_UPDATE_NOTIFIER".to_string(), "1".to_string()));
        }
        let working_dir = match &self.working_dir {
            Some(d) => Some(d.clone()),
            None => None,
        };
        let r = Invocation { program: self.exec_path.to_text(), args, working_dir, env };
        assert(r@.env =~= invocation(self@, args.deep_view()).env);
        r
    }

    /// Hands the invocation for `args` to `run`, once, and reads what came
    /// back.
    pub fn run_command<F: FnOnce(&Invocation) -> Result<ProcessOutput, String>>(
        &self,
        args: Vec<String>,
        run: F,
    ) -> (r: Result<String, Error>)
        requires
            runs(run, invocation(self@, args.deep_view())),
        ensures
            exists|out: Result<ProcessOutput, String>| #[trigger]
                ran(run, invocation(self@, args.deep_view()), out) && outcome(r)
                    == command_outcome(run_view(out)),
    {
        let inv = self.invocation(args);
        let out = run(&inv);
        proof {
            assert(call_ensures(run, (&inv,), out));
            assert(ran(run, invocation(self@, args.deep_view()), out));
        }
        command_output(out)
    }

    /// Logs in with a token. An empty token is refused and nothing is run.
    pub fn login<F: FnOnce(&Invocation) -> Result<ProcessOutput, String>>(
        &self,
        params: LoginParams,
        run: F,
    ) -> (r: Result<(), Error>)
        requires
            runs(run, invocation(self@, login_args(params@))),
        ensures
            login_guard(params@.token) is Err ==> outcome(r) == login_guard(params@.token),
            login_guard(params@.token) is Ok ==> exists|out: Result<ProcessOutput, String>|
                #[trigger] ran(run, invocation(self@, login_args(params@)), out) && outcome(r)
                    == unit_outcome(run_view(out)),
    {
        if params.token.as_str().is_empty() {
            return Err(Error::Validation(ValidationFault::EmptyToken));
        }
        match self.run_command(build_login_args(&params), run) {
            Ok(_) => Ok(()),
            Err(e) => Err(e),
        }
    }

    /// Logs out.
    pub fn logout<F: FnOnce(&Invocation) -> Result<ProcessOutput, String>>(&self, run: F) -> (r:
        Result<(), Error>)
        requires
            runs(run, invocation(self@, logout_args())),
        ensures
            exists|out: Result<ProcessOutput, String>| #[trigger]
                ran(run, invocation(self@, logout_args()), out) && outcome(r) == unit_outcome(
                    run_view(out),
                ),
    {
        match self.run_command(build_logout_args(), run) {
            Ok(_) => Ok(()),
            Err(e) => Err(e),
        }
    }

    /// Pushes a migration directory; gives what the tool printed.
    pub fn migrate_push<F: FnOnce(&Invocation) -> Result<ProcessOutput, String>>(
        &self,
        params: MigratePushParams,
        run: F,
    ) -> (r: Result<String, Error>)
        requires
            runs(run, invocation(self@, migrate_push_args(params@))),
        ensures
            exists|out: Result<ProcessOutput, String>| #[trigger]
                ran(run, invocation(self@, migrate_push_args(params@)), out) && outcome(r)
                    == command_outcome(run_view(out)),
    {
        self.run_command(build_migrate_push_args(&params), run)
    }

    /// Inspects a schema; gives what the tool printed.
    pub fn schema_inspect<F: FnOnce(&Invocation) -> Result<ProcessOutput, String>>(
        &self,
        params: SchemaInspectParams,
        run: F,
    ) -> (r: Result<String, Error>)
        requires
            runs(run, invocation(self@, schema_inspect_args(params@))),
        ensures
            exists|out: Result<ProcessOutput, String>| #[trigger]
                ran(run, invocation(self@, schema_inspect_args(params@)), out) && outcome(r)
                    == command_outcome(run_view(out)),
    {
        self.run_command(build_schema_inspect_args(&params), run)
    }

    /// Applies pending migrations; gives every result that the tool printed.
    pub fn migrate_apply_slice<F: FnOnce(&Invocation) -> Result<ProcessOutput, String>>(
        &self,
        params: MigrateApplyParams,
        run: F,
    ) -> (r: Result<Vec<MigrateApply>, Error>)
        requires
            runs(run, invocation(self@, migrate_apply_args(params@))),
        ensures
            exists|out: Result<ProcessOutput, String>| #[trigger]
                ran(run, invocation(self@, migrate_apply_args(params@)), out) && outcome(r)
                    == list_outcome::<MigrateApply>(run_view(out)),
    {
        let inv = self.invocation(build_migrate_apply_args(&params));
        let out = run(&inv);
        proof {
            assert(call_ensures(run, (&inv,), out));
            assert(ran(run, invocation(self@, migrate_apply_args(params@)), out));
        }
        list_output::<MigrateApply>(out)
    }

    /// Applies pending migrations; the tool must print exactly one result.
    pub fn migrate_apply<F: FnOnce(&Invocation) -> Result<ProcessOutput, String>>(
        &self,
        params: MigrateApplyParams,
        run: F,
    ) -> (r: Result<MigrateApply, Error>)
        requires
            runs(run, invocation(self@, migrate_apply_args(params@))),
        ensures
            exists|out: Result<ProcessOutput, String>| #[trigger]
                ran(run, invocation(self@, migrate_apply_args(params@)), out) && outcome(r)
                    == single(list_outcome::<MigrateApply>(run_view(out))),
    {
        single_result(self.migrate_apply_slice(params, run))
    }

    /// Reverts applied migrations; the tool must print exactly one result.
    pub fn migrate_down<F: FnOnce(&Invocation) -> Result<ProcessOutput, String>>(
        &self,
        params: MigrateDownParams,
        run: F,
    ) -> (r: Result<MigrateDown, Error>)
        requires
            runs(run, invocation(self@, migrate_down_args(params@))),
        ensures
            exists|out: Result<ProcessOutput, String>| #[trigger]
                ran(run, invocation(self@, migrate_down_args(params@)), out) && outcome(r)
                    == single(list_outcome::<MigrateDown>(run_view(out))),
    {
        let inv = self.invocation(build_migrate_down_args(&params));
        let out = run(&inv);
        proof {
            assert(call_ensures(run, (&inv,), out));
            assert(ran(run, invocation(self@, migrate_down_args(params@)), out));
        }
        single_result(list_output::<MigrateDown>(out))
    }

    /// Applies a schema; gives every result that the tool printed.
    pub fn schema_apply_slice<F: FnOnce(&Invocation) -> Result<ProcessOutput, String>>(
        &self,
        params: SchemaApplyParams,
        run: F,
    ) -> (r: Result<Vec<SchemaApply>, Error>)
        requires
            runs(run, invocation(self@, schema_apply_args(params@))),
        ensures
            exists|out: Result<ProcessOutput, String>| #[trigger]
                ran(run, invocation(self@, schema_apply_args(params@)), out) && outcome(r)
                    == list_outcome::<SchemaApply>(run_view(out)),
    {
        let inv = self.invocation(build_schema_apply_args(&params));
        let out = run(&inv);
        proof {
            assert(call_ensures(run, (&inv,), out));
            assert(ran(run, invocation(self@, schema_apply_args(params@)), out));
        }
        list_output::<SchemaApply>(out)
    }

    /// Applies a schema; the tool must print exactly one result.
    pub fn schema_apply<F: FnOnce(&Invocation) -> Result<ProcessOutput, String>>(
        &self,
        params: SchemaApplyParams,
        run: F,
    ) -> (r: Result<SchemaApply, Error>)
        requires
            runs(run, invocation(self@, schema_apply_args(params@))),
        ensures
            exists|out: Result<ProcessOutput, String>| #[trigger]
                ran(run, invocation(self@, schema_apply_args(params@)), out) && outcome(r)
                    == single(list_outcome::<SchemaApply>(run_view(out))),
    {
        single_result(self.schema_apply_slice(params, run))
    }

    /// Runs `f` on this client with `dir` as its working directory, and puts
    /// the former directory back whatever `f` returned.
    pub fn with_work_dir<F: FnOnce(&Client) -> Result<(), Error>>(
        &mut self,
        dir: Option<&str>,
        f: F,
    ) -> (r: Result<(), Error>)
        requires
            forall|c: &Client| call_requires(f, (c,)),
        ensures
            final(self)@ == old(self)@,
            exists|c: &Client|
                c@ == (ClientView {
                    working_dir: match dir {
                        Some(d) => Some(d@),
                        None => None,
                    },
                    ..old(self)@
                }) && #[trigger] call_ensures(f, (c,), r),
    {
        let scoped = match dir {
            Some(d) => Some(d.to_string()),
            None => None,
        };
        let mut held = scoped;
        core::mem::swap(&mut self.working_dir, &mut held);
        let ghost scoped_client = *self;
        let r = f(&*self);
        core::mem::swap(&mut self.working_dir, &mut held);
        proof {
            assert(scoped_client@ == (ClientView {
                working_dir: match dir {
                    Some(d) => Some(d@),
                    None => None,
                },
                ..old(self)@
            }));
            assert(call_ensures(f, (&scoped_client,), r));
        }
        r
    }
}

} // verus!
