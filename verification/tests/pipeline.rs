use pb_jelly_gen::pipeline::{
    advance, finished, plan_output, Failure, OutputPlan, PathState, Removal, Step,
};
use pb_jelly_gen::report::{bindings_report, ProcessOutput};

const ORDER: [Step; 10] = [
    Step::PrepareOutput,
    Step::Materialize,
    Step::QueryVersion,
    Step::CreateEnvironment,
    Step::InstallSupport,
    Step::InstallPackage,
    Step::CompileExtensions,
    Step::Discover,
    Step::GenerateBindings,
    Step::Finished,
];

fn run(start: Step, outcomes: &[bool]) -> Vec<Step> {
    let mut step = start;
    let mut seen = vec![step];
    for ok in outcomes {
        step = advance(step, *ok);
        seen.push(step);
    }
    seen
}

#[test]
fn a_run_without_failures_takes_the_steps_in_order() {
    assert_eq!(run(Step::PrepareOutput, &[true; 9]), ORDER.to_vec());
}

#[test]
fn each_failure_ends_the_run_with_its_reason() {
    assert_eq!(advance(Step::PrepareOutput, false), Step::Failed(Failure::Output));
    assert_eq!(advance(Step::Materialize, false), Step::Failed(Failure::Materialization));
    assert_eq!(advance(Step::QueryVersion, false), Step::Failed(Failure::Provisioning));
    assert_eq!(advance(Step::CreateEnvironment, false), Step::Failed(Failure::Provisioning));
    assert_eq!(advance(Step::InstallSupport, false), Step::Failed(Failure::Provisioning));
    assert_eq!(advance(Step::InstallPackage, false), Step::Failed(Failure::Provisioning));
    assert_eq!(advance(Step::CompileExtensions, false), Step::Failed(Failure::Extensions));
    assert_eq!(advance(Step::GenerateBindings, false), Step::Failed(Failure::Bindings));
}

#[test]
fn the_walk_always_leads_on() {
    assert_eq!(advance(Step::Discover, false), Step::GenerateBindings);
    assert_eq!(advance(Step::Discover, true), Step::GenerateBindings);
}

#[test]
fn an_ended_run_stays_ended() {
    for ok in [true, false] {
        assert_eq!(advance(Step::Finished, ok), Step::Finished);
        for failure in [
            Failure::Output,
            Failure::Materialization,
            Failure::Provisioning,
            Failure::Extensions,
            Failure::Bindings,
        ] {
            assert_eq!(advance(Step::Failed(failure), ok), Step::Failed(failure));
        }
    }
}

#[test]
fn only_ended_runs_are_finished() {
    for step in &ORDER[..9] {
        assert!(!finished(*step));
    }
    assert!(finished(Step::Finished));
    assert!(finished(Step::Failed(Failure::Bindings)));
    assert!(finished(Step::Failed(Failure::Output)));
}

#[test]
fn failed_extensions_keep_the_bindings_from_being_generated() {
    let seen = run(Step::CompileExtensions, &[false, true, true, true, false, true]);
    assert!(!seen.contains(&Step::GenerateBindings));
    assert!(!seen.contains(&Step::Discover));
    assert_eq!(seen.last(), Some(&Step::Failed(Failure::Extensions)));
}

#[test]
fn a_failed_version_query_keeps_everything_from_being_installed() {
    let seen = run(Step::PrepareOutput, &[true, true, false, true, true, true, true, true, true]);
    assert!(!seen.contains(&Step::CreateEnvironment));
    assert!(!seen.contains(&Step::InstallSupport));
    assert!(!seen.contains(&Step::InstallPackage));
    assert_eq!(seen.last(), Some(&Step::Failed(Failure::Provisioning)));
}

#[test]
fn every_run_reaches_a_step_only_after_all_before_it_succeeded() {
    for bits in 0u32..512 {
        let outcomes: Vec<bool> = (0..9).map(|i| bits & (1 << i) != 0).collect();
        let seen = run(Step::PrepareOutput, &outcomes);
        for (n, step) in seen.iter().enumerate() {
            if let Some(at) = ORDER[..9].iter().position(|s| s == step) {
                assert_eq!(at, n);
                assert!(outcomes[..n].iter().enumerate().all(|(i, ok)| *ok || i == 7));
            }
        }
    }
}

#[test]
fn cleanup_removes_whatever_is_there_and_creates_the_directory() {
    assert_eq!(
        plan_output(true, PathState::Absent),
        OutputPlan { removal: Removal::Nothing, create: true }
    );
    assert_eq!(
        plan_output(true, PathState::File),
        OutputPlan { removal: Removal::File, create: true }
    );
    assert_eq!(
        plan_output(true, PathState::Directory),
        OutputPlan { removal: Removal::Tree, create: true }
    );
    assert_eq!(
        plan_output(true, PathState::FreshDirectory),
        OutputPlan { removal: Removal::Tree, create: true }
    );
}

#[test]
fn without_cleanup_only_a_missing_directory_is_created() {
    assert_eq!(
        plan_output(false, PathState::Absent),
        OutputPlan { removal: Removal::Nothing, create: true }
    );
    for found in [PathState::File, PathState::Directory, PathState::FreshDirectory] {
        assert_eq!(
            plan_output(false, found),
            OutputPlan { removal: Removal::Nothing, create: false }
        );
    }
}

#[test]
fn a_successful_compiler_run_is_reported_as_such() {
    let output = ProcessOutput {
        success: true,
        code: Some(0),
        stdout: Some("ignored".to_string()),
        stderr: None,
    };
    assert!(bindings_report(output).is_ok());
}

#[test]
fn a_failed_compiler_run_is_reported_with_what_it_printed() {
    let output = ProcessOutput {
        success: false,
        code: Some(1),
        stdout: Some("out".to_string()),
        stderr: Some("a.proto: File not found.".to_string()),
    };
    let diagnostics = bindings_report(output).unwrap_err();
    assert_eq!(diagnostics.code, Some(1));
    assert_eq!(diagnostics.stdout, "out");
    assert_eq!(diagnostics.stderr, "a.proto: File not found.");
}

#[test]
fn unreadable_output_is_reported_by_a_note() {
    let output = ProcessOutput { success: false, code: None, stdout: None, stderr: None };
    let diagnostics = bindings_report(output).unwrap_err();
    assert_eq!(diagnostics.code, None);
    assert_eq!(diagnostics.stdout, "cant decode stdout");
    assert_eq!(diagnostics.stderr, "cant decode stderr");
}
