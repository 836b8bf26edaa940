//! The order of a generation run. The caller performs one step at a time and
//! reports whether it succeeded; the functions here say what comes next.

use vstd::prelude::*;

verus! {

/// What went wrong in a run that stopped early.
#[derive(Clone, Copy, Debug, PartialEq, Eq, Structural)]
pub enum Failure {
    /// The output directory could not be removed or created.
    Output,
    /// The bundled files could not be unpacked into the workspace.
    Materialization,
    /// The compiler's version could not be found out, or the isolated
    /// environment could not be set up.
    Provisioning,
    /// The compiler failed on the extension schema.
    Extensions,
    /// The compiler failed on the schema files.
    Bindings,
}

/// A step of a run, or the way the run ended.
#[derive(Clone, Copy, Debug, PartialEq, Eq, Structural)]
pub enum Step {
    /// Remove and create the output directory as configured.
    PrepareOutput,
    /// Unpack the bundled files into a fresh workspace.
    Materialize,
    /// Ask the compiler for its version.
    QueryVersion,
    /// Create the isolated environment inside the workspace.
    CreateEnvironment,
    /// Install the support library, pinned to the compiler's version.
    InstallSupport,
    /// Install the package that lies at the workspace root.
    InstallPackage,
    /// First compiler run: the extension schema.
    CompileExtensions,
    /// Walk the schema sources.
    Discover,
    /// Second compiler run: the bindings.
    GenerateBindings,
    /// The run is over and the bindings are written.
    Finished,
    /// The run is over and failed.
    Failed(Failure),
}

/// What was found at the output path, or is there after preparing it.
#[derive(Clone, Copy, Debug, PartialEq, Eq, Structural)]
pub enum PathState {
    /// Nothing is there.
    Absent,
    /// Something that is no directory.
    File,
    /// A directory from before the run, with whatever it holds.
    Directory,
    /// A directory that this run created, still empty.
    FreshDirectory,
}

/// What is removed from the output path before the run.
#[derive(Clone, Copy, Debug, PartialEq, Eq, Structural)]
pub enum Removal {
    /// Nothing.
    Nothing,
    /// The one file that is there.
    File,
    /// The directory that is there, with all it holds.
    Tree,
}

/// How the output path is prepared: what is removed first, and whether the
/// directory is created afterwards.
#[derive(Clone, Copy, Debug, PartialEq, Eq, Structural)]
pub struct OutputPlan {
    pub removal: Removal,
    pub create: bool,
}

/// The plan for an output path in state `found`. With `cleanup`, whatever is
/// there goes; the directory is created wherever nothing is left.
pub open spec fn output_plan(cleanup: bool, found: PathState) -> OutputPlan {
    let removal = if !cleanup {
        Removal::Nothing
    } else {
        match found {
            PathState::Absent => Removal::Nothing,
            PathState::File => Removal::File,
            PathState::Directory => Removal::Tree,
            PathState::FreshDirectory => Removal::Tree,
        }
    };
    OutputPlan { removal, create: cleanup || found == PathState::Absent }
}

/// The state of a path in state `found` once `plan` was carried out on it.
pub open spec fn prepared(found: PathState, plan: OutputPlan) -> PathState {
    let cleared = match plan.removal {
        Removal::Nothing => found,
        Removal::File => if found == PathState::File {
            PathState::Absent
        } else {
            found
        },
        Removal::Tree => if found == PathState::Directory || found == PathState::FreshDirectory {
            PathState::Absent
        } else {
            found
        },
    };
    if plan.create && cleared == PathState::Absent {
        PathState::FreshDirectory
    } else {
        cleared
    }
}

/// Plans the preparation of the output path.
pub fn plan_output(cleanup: bool, found: PathState) -> (plan: OutputPlan)
    ensures
        plan == output_plan(cleanup, found),
{
    let removal = if !cleanup {
        Removal::Nothing
    } else {
        match found {
            PathState::Absent => Removal::Nothing,
            PathState::File => Removal::File,
            PathState::Directory => Removal::Tree,
            PathState::FreshDirectory => Removal::Tree,
        }
    };
    let create = cleanup || matches!(found, PathState::Absent);
    OutputPlan { removal, create }
}

/// With cleanup, the output path ends up as an empty directory of this run,
/// whatever was there before.
pub proof fn law_cleanup_gives_fresh_directory(found: PathState)
    ensures
        prepared(found, output_plan(true, found)) == PathState::FreshDirectory,
{
}

/// Without cleanup, what is at the output path is left alone, and only a
/// missing directory is created.
pub proof fn law_without_cleanup_nothing_is_lost(found: PathState)
    ensures
        prepared(found, output_plan(false, found)) == (if found == PathState::Absent {
            PathState::FreshDirectory
        } else {
            found
        }),
{
}

/// The step that follows `step` when it went as `succeeded` says. A failed
/// step ends the run; an ended run stays as it is. The walk over the sources
/// skips what it cannot read, so it always leads on.
pub open spec fn next_step(step: Step, succeeded: bool) -> Step {
    match step {
        Step::PrepareOutput => if succeeded {
            Step::Materialize
        } else {
            Step::Failed(Failure::Output)
        },
        Step::Materialize => if succeeded {
            Step::QueryVersion
        } else {
            Step::Failed(Failure::Materialization)
        },
        Step::QueryVersion => if succeeded {
            Step::CreateEnvironment
        } else {
            Step::Failed(Failure::Provisioning)
        },
        Step::CreateEnvironment => if succeeded {
            Step::InstallSupport
        } else {
            Step::Failed(Failure::Provisioning)
        },
        Step::InstallSupport => if succeeded {
            Step::InstallPackage
        } else {
            Step::Failed(Failure::Provisioning)
        },
        Step::InstallPackage => if succeeded {
            Step::CompileExtensions
        } else {
            Step::Failed(Failure::Provisioning)
        },
        Step::CompileExtensions => if succeeded {
            Step::Discover
        } else {
            Step::Failed(Failure::Extensions)
        },
        Step::Discover => Step::GenerateBindings,
        Step::GenerateBindings => if succeeded {
            Step::Finished
        } else {
            Step::Failed(Failure::Bindings)
        },
        Step::Finished => Step::Finished,
        Step::Failed(f) => Step::Failed(f),
    }
}

/// Where a run stands that began at `start` and whose steps went as
/// `outcomes` says, one entry per step.
pub open spec fn step_after(start: Step, outcomes: Seq<bool>) -> Step
    decreases outcomes.len(),
{
    if outcomes.len() == 0 {
        start
    } else {
        next_step(step_after(start, outcomes.drop_last()), outcomes.last())
    }
}

/// How many steps lie before `step` in a run, for a step in which work is
/// done.
pub open spec fn steps_before(step: Step) -> Option<nat> {
    match step {
        Step::PrepareOutput => Some(0),
        Step::Materialize => Some(1),
        Step::QueryVersion => Some(2),
        Step::CreateEnvironment => Some(3),
        Step::InstallSupport => Some(4),
        Step::InstallPackage => Some(5),
        Step::CompileExtensions => Some(6),
        Step::Discover => Some(7),
        Step::GenerateBindings => Some(8),
        Step::Finished => None,
        Step::Failed(_) => None,
    }
}

/// Whether the run is over.
pub open spec fn is_over(step: Step) -> bool {
    steps_before(step).is_none()
}

/// Tells the step that follows `step`.
pub fn advance(step: Step, succeeded: bool) -> (next: Step)
    ensures
        next == next_step(step, succeeded),
{
    match step {
        Step::PrepareOutput => if succeeded {
            Step::Materialize
        } else {
            Step::Failed(Failure::Output)
        },
        Step::Materialize => if succeeded {
            Step::QueryVersion
        } else {
            Step::Failed(Failure::Materialization)
        },
        Step::QueryVersion | Step::CreateEnvironment | Step::InstallSupport
        | Step::InstallPackage => if !succeeded {
            Step::Failed(Failure::Provisioning)
        } else {
            match step {
                Step::QueryVersion => Step::CreateEnvironment,
                Step::CreateEnvironment => Step::InstallSupport,
                Step::InstallSupport => Step::InstallPackage,
                _ => Step::CompileExtensions,
            }
        },
        Step::CompileExtensions => if succeeded {
            Step::Discover
        } else {
            Step::Failed(Failure::Extensions)
        },
        Step::Discover => Step::GenerateBindings,
        Step::GenerateBindings => if succeeded {
            Step::Finished
        } else {
            Step::Failed(Failure::Bindings)
        },
        Step::Finished => Step::Finished,
        Step::Failed(f) => Step::Failed(f),
    }
}

/// Says whether the run is over.
pub fn finished(step: Step) -> (over: bool)
    ensures
        over == is_over(step),
{
    matches!(step, Step::Finished | Step::Failed(_))
}

/// A run that is over stays where it is, whatever is reported to it.
pub proof fn law_ended_run_stays(step: Step, outcomes: Seq<bool>)
    requires
        is_over(step),
    ensures
        step_after(step, outcomes) == step,
    decreases outcomes.len(),
{
    if outcomes.len() > 0 {
        law_ended_run_stays(step, outcomes.drop_last());
    }
}

/// A run arrives at a step only straight through the steps before it: one
/// outcome for each, and each of them a success (but for the walk over the
/// sources, whose outcome does not count).
pub proof fn law_steps_run_in_order(outcomes: Seq<bool>)
    ensures
        match steps_before(step_after(Step::PrepareOutput, outcomes)) {
            Some(n) => outcomes.len() == n && forall|i: int|
                0 <= i < n && i != 7 ==> #[trigger] outcomes[i],
            None => true,
        },
    decreases outcomes.len(),
{
    if outcomes.len() > 0 {
        law_steps_run_in_order(outcomes.drop_last());
        let before = step_after(Step::PrepareOutput, outcomes.drop_last());
        match steps_before(step_after(Step::PrepareOutput, outcomes)) {
            Some(n) => {
                assert(steps_before(before) == Some((n - 1) as nat));
                assert forall|i: int| 0 <= i < n && i != 7 implies #[trigger] outcomes[i] by {
                    if i < n - 1 {
                        assert(outcomes.drop_last()[i] == outcomes[i]);
                    }
                }
            },
            None => {},
        }
    }
}

/// When the compiler fails on the extension schema, the run never comes to
/// generate bindings, whatever is reported afterwards.
pub proof fn law_failed_extensions_stop_the_run(later: Seq<bool>)
    ensures
        step_after(next_step(Step::CompileExtensions, false), later) == Step::Failed(
            Failure::Extensions,
        ),
        step_after(next_step(Step::CompileExtensions, false), later) != Step::GenerateBindings,
{
    law_ended_run_stays(Step::Failed(Failure::Extensions), later);
}

/// When the compiler's version cannot be found out, the run never comes to
/// install anything, whatever is reported afterwards.
pub proof fn law_failed_version_query_stops_the_run(later: Seq<bool>)
    ensures
        step_after(next_step(Step::QueryVersion, false), later) == Step::Failed(
            Failure::Provisioning,
        ),
{
    law_ended_run_stays(Step::Failed(Failure::Provisioning), later);
}

} // verus!
