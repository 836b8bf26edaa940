//! One generation run from its first step to its end. The run says what is
//! to be done next; the caller does it and reports what came of it.

use vstd::prelude::*;
use vstd::string::*;
use crate::config::GenProtos;
use crate::discovery::{discovered, schema_files, walk_texts};
use crate::invocation::{
    compile_extensions, compile_extensions_command, create_environment,
    create_environment_command, environment_bin_dir, environment_bin_path, generate_bindings,
    generate_bindings_command, install_package, install_package_command, install_support,
    install_support_command, prepend_search_path, search_flags, version_query,
    version_query_command, Command, Invocation, Platform,
};
use crate::paths::texts;
use crate::pipeline::{advance, is_over, next_step, steps_before, Failure, Step};
use crate::version::{queried_version, version_from_query};

verus! {

/// A run: its configuration, the step it is at, and what the steps so far
/// have brought.
#[derive(Debug)]
pub struct Run {
    pub config: GenProtos,
    /// The step that is to be done next, or how the run ended.
    pub step: Step,
    /// The workspace's root; empty until the bundle is unpacked.
    pub workspace: String,
    /// The compiler's version; empty until it is known.
    pub version: String,
    /// The schema files; empty until the sources are walked.
    pub files: Vec<String>,
    /// The path that could not be created, if unpacking the bundle failed.
    pub failed_path: Option<String>,
    /// The exit code of the program that made its step fail, if a program
    /// did and had one.
    pub failed_code: Option<i32>,
}

/// Why a run ended early, with what is known of the step that failed.
#[derive(Debug)]
pub struct RunFailure {
    pub kind: Failure,
    /// The path that could not be created, where unpacking the bundle
    /// failed.
    pub path: Option<String>,
    /// The exit code of the program that failed, where one did and had one.
    pub exit_code: Option<i32>,
}

/// What the caller is to do.
#[derive(Debug)]
pub enum Action {
    /// Look at the configured output path, plan its preparation with
    /// `plan_output`, and carry the plan out.
    PrepareOutput,
    /// Create a fresh workspace and unpack the bundle into it as
    /// `materialization_plan` says.
    Materialize,
    /// Run this program and wait for it.
    Execute(Invocation),
    /// Walk each configured source in turn, skipping what cannot be read.
    Walk,
    /// Nothing: the run is over.
    Stop,
}

/// An action as plain values.
pub enum Task {
    PrepareOutput,
    Materialize,
    Execute(Command),
    Walk,
    Stop,
}

impl View for Action {
    type V = Task;

    open spec fn view(&self) -> Task {
        match self {
            Action::PrepareOutput => Task::PrepareOutput,
            Action::Materialize => Task::Materialize,
            Action::Execute(call) => Task::Execute(call@),
            Action::Walk => Task::Walk,
            Action::Stop => Task::Stop,
        }
    }
}

/// What the caller reports.
#[derive(Debug)]
pub enum Event {
    /// Whether the output path was prepared.
    OutputPrepared(bool),
    /// The root of the workspace into which the bundle was unpacked, or the
    /// path that could not be created.
    Materialized(Result<String, String>),
    /// A program has ended: whether it reported success, its exit code if it
    /// had one, and what it printed, if that was kept and was text.
    Exited { success: bool, code: Option<i32>, stdout: Option<String> },
    /// The entries that the walk over each source found, one list per
    /// source, in the sources' order.
    Walked(Vec<Vec<String>>),
}

/// The text in `printed`, if there is any.
pub open spec fn text_of(printed: Option<String>) -> Option<Seq<char>> {
    match printed {
        Some(text) => Some(text@),
        None => None,
    }
}

/// Whether `event` is the kind of report that `step` waits for.
pub open spec fn fits(step: Step, event: Event) -> bool {
    match step {
        Step::PrepareOutput => event is OutputPrepared,
        Step::Materialize => event is Materialized,
        Step::Discover => event is Walked,
        Step::Finished => false,
        Step::Failed(_) => false,
        _ => event is Exited,
    }
}

/// Whether `event` reports that `step` succeeded. The version query
/// succeeds only if a version can be read from what the compiler printed.
pub open spec fn went_well(step: Step, event: Event) -> bool {
    match event {
        Event::OutputPrepared(done) => done,
        Event::Materialized(root) => root.is_ok(),
        Event::Exited { success, code, stdout } => if step == Step::QueryVersion {
            queried_version(success, text_of(stdout)).is_ok()
        } else {
            success
        },
        Event::Walked(_) => true,
    }
}

/// The step that a run at `step` is at once `event` is reported: one that
/// fits moves the run on, any other leaves it where it is.
pub open spec fn step_on(step: Step, event: Event) -> Step {
    if fits(step, event) {
        next_step(step, went_well(step, event))
    } else {
        step
    }
}

/// The step that a run is at which began at `start` and was reported
/// `events`, one after the other.
pub open spec fn step_after_events(start: Step, events: Seq<Event>) -> Step
    decreases events.len(),
{
    if events.len() == 0 {
        start
    } else {
        step_on(step_after_events(start, events.drop_last()), events.last())
    }
}

/// Whether, in a run from the start that was reported `events`, the report
/// at position `at` came while the run was at `step`, fitted it, and moved
/// the run on to the step after it.
pub open spec fn passed_at(events: Seq<Event>, step: Step, at: int) -> bool {
    &&& 0 <= at < events.len()
    &&& step_after_events(Step::PrepareOutput, events.take(at)) == step
    &&& fits(step, events[at])
    &&& (went_well(step, events[at]) || step == Step::Discover)
}

impl Run {
    /// A run of `config` that has not done anything yet.
    pub fn begin(config: GenProtos) -> (run: Run)
        ensures
            run.config == config,
            run.step == Step::PrepareOutput,
            run.workspace@.len() == 0,
            run.version@.len() == 0,
            run.files@.len() == 0,
            run.failed_path is None,
            run.failed_code is None,
    {
        Run {
            config,
            step: Step::PrepareOutput,
            workspace: String::new(),
            version: String::new(),
            files: Vec::new(),
            failed_path: None,
            failed_code: None,
        }
    }

    /// What is to be done at the run's step on `platform`, where `ambient`
    /// holds the directories of the caller's search path. The isolated
    /// environment's executables go in front of them for the two compiler
    /// runs that come after it is set up, and for no other program.
    pub open spec fn task(&self, platform: Platform, ambient: Seq<Seq<char>>) -> Task {
        match self.step {
            Step::PrepareOutput => Task::PrepareOutput,
            Step::Materialize => Task::Materialize,
            Step::QueryVersion => Task::Execute(version_query_command()),
            Step::CreateEnvironment => Task::Execute(
                create_environment_command(platform, self.workspace@),
            ),
            Step::InstallSupport => Task::Execute(
                install_support_command(platform, self.workspace@, self.version@),
            ),
            Step::InstallPackage => Task::Execute(
                install_package_command(platform, self.workspace@),
            ),
            Step::CompileExtensions => Task::Execute(
                compile_extensions_command(
                    self.workspace@,
                    seq![environment_bin_path(platform, self.workspace@)] + ambient,
                ),
            ),
            Step::Discover => Task::Walk,
            Step::GenerateBindings => Task::Execute(
                generate_bindings_command(
                    self.config,
                    self.workspace@,
                    seq![environment_bin_path(platform, self.workspace@)] + ambient,
                    texts(self.files@),
                ),
            ),
            Step::Finished => Task::Stop,
            Step::Failed(_) => Task::Stop,
        }
    }

    /// Tells what is to be done next.
    pub fn action(&self, platform: Platform, ambient_path: Vec<String>) -> (action: Action)
        ensures
            action@ == self.task(platform, texts(ambient_path@)),
    {
        let workspace = self.workspace.as_str();
        match self.step {
            Step::PrepareOutput => Action::PrepareOutput,
            Step::Materialize => Action::Materialize,
            Step::QueryVersion => Action::Execute(version_query()),
            Step::CreateEnvironment => Action::Execute(create_environment(platform, workspace)),
            Step::InstallSupport => Action::Execute(
                install_support(platform, workspace, self.version.as_str()),
            ),
            Step::InstallPackage => Action::Execute(install_package(platform, workspace)),
            Step::CompileExtensions => {
                let search_path = prepend_search_path(
                    environment_bin_dir(platform, workspace),
                    ambient_path,
                );
                Action::Execute(compile_extensions(workspace, search_path))
            },
            Step::Discover => Action::Walk,
            Step::GenerateBindings => {
                let search_path = prepend_search_path(
                    environment_bin_dir(platform, workspace),
                    ambient_path,
                );
                let files = self.files.clone();
                proof {
                    assert(texts(files@) =~= texts(self.files@));
                }
                Action::Execute(generate_bindings(&self.config, workspace, search_path, files))
            },
            Step::Finished => Action::Stop,
            Step::Failed(_) => Action::Stop,
        }
    }

    /// Takes a report. One that fits the run's step moves the run on: to the
    /// next step if the step succeeded, to its end if not. What the step
    /// brought is kept: the workspace's root, the compiler's version, the
    /// schema files. Of a step that failed the run keeps the path that could
    /// not be created, or the program's exit code. A report that does not
    /// fit changes nothing.
    pub fn next(self, event: Event) -> (next: Run)
        ensures
            !fits(self.step, event) ==> next == self,
            fits(self.step, event) ==> {
                &&& next.config == self.config
                &&& next.step == step_on(self.step, event)
                &&& next.workspace@ == (match event {
                    Event::Materialized(Ok(root)) => root@,
                    _ => self.workspace@,
                })
                &&& text_of(next.failed_path) == (match event {
                    Event::Materialized(Err(path)) => Some(path@),
                    _ => text_of(self.failed_path),
                })
                &&& next.failed_code == (match event {
                    Event::Exited { success, code, stdout } => if went_well(self.step, event) {
                        self.failed_code
                    } else {
                        code
                    },
                    _ => self.failed_code,
                })
                &&& next.version@ == (match event {
                    Event::Exited { success, code, stdout } => if self.step == Step::QueryVersion
                        && went_well(self.step, event) {
                        queried_version(success, text_of(stdout)).unwrap()
                    } else {
                        self.version@
                    },
                    _ => self.version@,
                })
                &&& texts(next.files@) == (match event {
                    Event::Walked(walks) => discovered(walk_texts(walks@)),
                    _ => texts(self.files@),
                })
            },
    {
        let mut run = self;
        match event {
            Event::OutputPrepared(done) => {
                if run.step == Step::PrepareOutput {
                    run.step = advance(run.step, done);
                }
            },
            Event::Materialized(root) => {
                if run.step == Step::Materialize {
                    match root {
                        Ok(root) => {
                            run.workspace = root;
                            run.step = advance(run.step, true);
                        },
                        Err(path) => {
                            run.failed_path = Some(path);
                            run.step = advance(run.step, false);
                        },
                    }
                }
            },
            Event::Exited { success, code, stdout } => {
                match run.step {
                    Step::QueryVersion => {
                        let printed = match &stdout {
                            Some(text) => Some(text.as_str()),
                            None => None,
                        };
                        match version_from_query(success, printed) {
                            Ok(version) => {
                                run.version = version;
                                run.step = advance(run.step, true);
                            },
                            Err(_) => {
                                run.failed_code = code;
                                run.step = advance(run.step, false);
                            },
                        }
                    },
                    Step::CreateEnvironment
                    | Step::InstallSupport
                    | Step::InstallPackage
                    | Step::CompileExtensions
                    | Step::GenerateBindings => {
                        if !success {
                            run.failed_code = code;
                        }
                        run.step = advance(run.step, success);
                    },
                    _ => {},
                }
            },
            Event::Walked(walks) => {
                if run.step == Step::Discover {
                    run.files = schema_files(&walks);
                    run.step = advance(run.step, true);
                }
            },
        }
        run
    }

    /// Tells why the run ended early, if it did: the kind of failure, and
    /// what the run kept of the step that failed.
    pub fn failure(&self) -> (failure: Option<RunFailure>)
        ensures
            match self.step {
                Step::Failed(kind) => {
                    &&& failure is Some
                    &&& failure.unwrap().kind == kind
                    &&& text_of(failure.unwrap().path) == text_of(self.failed_path)
                    &&& failure.unwrap().exit_code == self.failed_code
                },
                _ => failure is None,
            },
    {
        match self.step {
            Step::Failed(kind) => {
                let path = match &self.failed_path {
                    Some(path) => Some(path.clone()),
                    None => None,
                };
                Some(RunFailure { kind, path, exit_code: self.failed_code })
            },
            _ => None,
        }
    }
}

/// The support library is installed in exactly the version that the run
/// holds, on either platform and in any workspace.
pub proof fn law_support_is_pinned(platform: Platform, workspace: Seq<char>, version: Seq<char>)
    ensures
        install_support_command(platform, workspace, version).arguments.last() == "protobuf=="@
            + version,
        install_support_command(platform, workspace, version).arguments.last().subrange(
            "protobuf=="@.len() as int,
            ("protobuf=="@ + version).len() as int,
        ) == version,
{
    let pinned = "protobuf=="@ + version;
    assert(pinned.subrange("protobuf=="@.len() as int, pinned.len() as int) =~= version);
}

/// A run that has ended asks for nothing more, and no report fits it.
pub proof fn law_ended_run_asks_for_nothing(
    run: Run,
    platform: Platform,
    ambient: Seq<Seq<char>>,
    event: Event,
)
    requires
        run.step is Finished || run.step is Failed,
    ensures
        run.task(platform, ambient) == Task::Stop,
        !fits(run.step, event),
{
}

/// The compiler is given a search path of its own at two steps only, its
/// two runs after the isolated environment is set up: the environment's
/// executables first, then the caller's own directories. At the second of
/// them its arguments are the search flags in their fixed order (the
/// sources, the workspace if extensions are wanted, the extra search
/// directories), the output directory, and the schema files that the walk
/// brought.
pub proof fn law_compiler_runs_in_the_environment(
    run: Run,
    platform: Platform,
    ambient: Seq<Seq<char>>,
)
    ensures
        match run.task(platform, ambient) {
            Task::Execute(call) => {
                &&& call.searched.is_some() <==> (run.step == Step::CompileExtensions || run.step
                    == Step::GenerateBindings)
                &&& call.searched.is_some() ==> call.searched == Some(
                    seq![environment_bin_path(platform, run.workspace@)] + ambient,
                )
            },
            _ => run.step != Step::CompileExtensions && run.step != Step::GenerateBindings,
        },
        run.step == Step::GenerateBindings ==> run.task(platform, ambient) == Task::Execute(
            Command {
                program: "protoc"@,
                arguments: search_flags(run.config.sources()) + (if run.config.include_extensions {
                    seq!["-I"@, run.workspace@]
                } else {
                    Seq::empty()
                }) + search_flags(run.config.includes()) + seq![
                    "--rust_out"@,
                    run.config.gen_path@,
                ] + texts(run.files@),
                searched: Some(
                    seq![environment_bin_path(platform, run.workspace@)] + ambient,
                ),
                captured: true,
            },
        ),
{
}

/// When unpacking the bundle fails, the run ends as failed at unpacking.
pub proof fn law_failed_unpacking_ends_the_run(path: String)
    ensures
        step_on(Step::Materialize, Event::Materialized(Err(path))) == Step::Failed(
            Failure::Materialization,
        ),
{
}

/// No step is skipped. Whatever is reported to a run in whatever order:
/// when the run stands at a step, every step before it was passed, on a
/// report that fitted it and said that it went well. So nothing is installed
/// unless a version was read from the compiler's output, and no bindings are
/// generated unless the compiler succeeded on the extension schema.
pub proof fn law_no_step_is_skipped(events: Seq<Event>, earlier: Step)
    requires
        steps_before(earlier).is_some(),
        steps_before(step_after_events(Step::PrepareOutput, events)).is_some(),
        steps_before(earlier).unwrap() < steps_before(
            step_after_events(Step::PrepareOutput, events),
        ).unwrap(),
    ensures
        exists|at: int| passed_at(events, earlier, at),
    decreases events.len(),
{
    if events.len() > 0 {
        let shorter = events.drop_last();
        let before = step_after_events(Step::PrepareOutput, shorter);
        let at_last = events.len() - 1;
        assert(events.take(at_last) =~= shorter);
        if fits(before, events.last()) && before == earlier {
            assert(passed_at(events, earlier, at_last));
        } else {
            law_no_step_is_skipped(shorter, earlier);
            let at = choose|at: int| passed_at(shorter, earlier, at);
            assert(shorter.take(at) =~= events.take(at));
            assert(passed_at(events, earlier, at));
        }
    }
}

/// A run that has ended stays as it ended, whatever is reported to it.
pub proof fn law_ended_run_ignores_reports(step: Step, events: Seq<Event>)
    requires
        is_over(step),
    ensures
        step_after_events(step, events) == step,
    decreases events.len(),
{
    if events.len() > 0 {
        law_ended_run_ignores_reports(step, events.drop_last());
    }
}

} // verus!
