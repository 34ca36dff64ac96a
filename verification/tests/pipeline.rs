use runjs::pipeline::{
    diagnostic, entry_point_name, exit_status, is_snapshot_pass, marker_name, marker_value, run,
    step, strip_pass_name, Action, Event, Failure, InstanceSettings, OptimizeSettings, Options,
    SnapshotSettings, Stage,
};

fn snapshot_settings() -> SnapshotSettings {
    SnapshotSettings { allow_wasi: true, inherit_stdio: true, bulk_memory: true }
}

fn instance_settings() -> InstanceSettings {
    InstanceSettings {
        inherit_stdio: true,
        backtrace_details: true,
        multi_memory: true,
        module_linking: true,
    }
}

fn optimize_settings() -> OptimizeSettings {
    OptimizeSettings { optimization_level: 3, shrink_level: 0, debug_info: false, strip: true }
}

#[test]
fn the_output_defaults_to_index_wasm() {
    let options = Options::new("app.js".to_string(), None);
    assert_eq!(options.input, "app.js");
    assert_eq!(options.output, "index.wasm");
    let named = Options::new("app.js".to_string(), Some("out/app.wasm".to_string()));
    assert_eq!(named.output, "out/app.wasm");
}

#[test]
fn the_child_gets_input_and_output() {
    let options = Options::new("app.js".to_string(), Some("app.wasm".to_string()));
    assert_eq!(options.child_arguments(), vec!["app.js", "-o", "app.wasm"]);
}

#[test]
fn the_marker_selects_the_snapshot_pass() {
    assert_eq!(marker_name(), "SPIN_JS_WIZEN");
    assert_eq!(marker_value(), "1");
    assert!(is_snapshot_pass(&Some("1".to_string())));
    assert!(!is_snapshot_pass(&Some("0".to_string())));
    assert!(!is_snapshot_pass(&Some("".to_string())));
    assert!(!is_snapshot_pass(&Some("11".to_string())));
    assert!(!is_snapshot_pass(&None));
}

#[test]
fn the_settings_are_fixed() {
    assert_eq!(SnapshotSettings::fixed(), snapshot_settings());
    assert_eq!(OptimizeSettings::fixed(), optimize_settings());
    assert_eq!(InstanceSettings::fixed(), instance_settings());
    assert_eq!(strip_pass_name(), "strip");
    assert_eq!(entry_point_name(), "_start");
}

#[test]
fn the_snapshot_pass_writes_after_both_phases() {
    let events = vec![
        Event::Launched { snapshot: true },
        Event::Preinitialized { ok: true },
        Event::Optimized { readable: true },
        Event::Written { ok: true },
    ];
    let (stage, actions) = run(Stage::Start, &events);
    assert_eq!(stage, Stage::Finished);
    assert_eq!(
        actions,
        vec![
            Action::Preinitialize(snapshot_settings()),
            Action::Optimize(optimize_settings()),
            Action::WriteOutput,
            Action::Succeed,
        ]
    );
}

#[test]
fn the_parent_runs_the_module_after_the_child() {
    let events = vec![
        Event::Launched { snapshot: false },
        Event::Opened { ok: true },
        Event::ChildExited { success: true },
        Event::EntryReturned { ok: true },
    ];
    let (stage, actions) = run(Stage::Start, &events);
    assert_eq!(stage, Stage::Finished);
    assert_eq!(
        actions,
        vec![
            Action::OpenSource,
            Action::SpawnChild,
            Action::Instantiate(instance_settings()),
            Action::Succeed,
        ]
    );
}

#[test]
fn a_source_that_does_not_compile_leaves_no_output() {
    let child = vec![Event::Launched { snapshot: true }, Event::Preinitialized { ok: false }];
    let (stage, actions) = run(Stage::Start, &child);
    assert_eq!(stage, Stage::Failed);
    assert_eq!(actions.last(), Some(&Action::Fail(Failure::Preinitialization)));
    assert!(!actions.contains(&Action::WriteOutput));
    assert_eq!(exit_status(Action::Fail(Failure::Preinitialization)), Some(1));

    let parent = vec![
        Event::Launched { snapshot: false },
        Event::Opened { ok: true },
        Event::ChildExited { success: false },
    ];
    let (stage, actions) = run(Stage::Start, &parent);
    assert_eq!(stage, Stage::Failed);
    assert_eq!(actions.last(), Some(&Action::Fail(Failure::ChildFailed)));
    assert!(!actions.contains(&Action::Instantiate(instance_settings())));
    assert!(!actions.contains(&Action::WriteOutput));
}

#[test]
fn a_snapshot_that_cannot_be_read_is_not_shipped() {
    let events = vec![
        Event::Launched { snapshot: true },
        Event::Preinitialized { ok: true },
        Event::Optimized { readable: false },
        Event::Written { ok: true },
    ];
    let (stage, actions) = run(Stage::Start, &events);
    assert_eq!(stage, Stage::Failed);
    assert_eq!(actions[2], Action::Fail(Failure::UnreadableModule));
    assert_eq!(actions[3], Action::Nothing);
    assert!(!actions.contains(&Action::WriteOutput));
}

#[test]
fn every_failure_has_its_step() {
    assert_eq!(
        step(Stage::Opening, Event::Opened { ok: false }),
        (Stage::Failed, Action::Fail(Failure::SourceUnavailable))
    );
    assert_eq!(
        step(Stage::AwaitingChild, Event::ChildExited { success: false }),
        (Stage::Failed, Action::Fail(Failure::ChildFailed))
    );
    assert_eq!(
        step(Stage::Running, Event::EntryReturned { ok: false }),
        (Stage::Failed, Action::Fail(Failure::EntryFailed))
    );
    assert_eq!(
        step(Stage::Preinitializing, Event::Preinitialized { ok: false }),
        (Stage::Failed, Action::Fail(Failure::Preinitialization))
    );
    assert_eq!(
        step(Stage::Optimizing, Event::Optimized { readable: false }),
        (Stage::Failed, Action::Fail(Failure::UnreadableModule))
    );
    assert_eq!(
        step(Stage::Writing, Event::Written { ok: false }),
        (Stage::Failed, Action::Fail(Failure::OutputUnwritable))
    );
}

#[test]
fn an_event_out_of_order_fails_the_process() {
    assert_eq!(
        step(Stage::Start, Event::Written { ok: true }),
        (Stage::Failed, Action::Fail(Failure::OutOfOrder))
    );
    assert_eq!(
        step(Stage::Optimizing, Event::Launched { snapshot: true }),
        (Stage::Failed, Action::Fail(Failure::OutOfOrder))
    );
    assert_eq!(
        step(Stage::Writing, Event::Optimized { readable: true }),
        (Stage::Failed, Action::Fail(Failure::OutOfOrder))
    );
}

#[test]
fn the_end_is_final() {
    for event in [
        Event::Launched { snapshot: true },
        Event::Launched { snapshot: false },
        Event::Preinitialized { ok: true },
        Event::Optimized { readable: true },
        Event::Written { ok: true },
        Event::Opened { ok: true },
        Event::ChildExited { success: true },
        Event::EntryReturned { ok: true },
    ] {
        assert_eq!(step(Stage::Failed, event), (Stage::Failed, Action::Nothing));
        assert_eq!(step(Stage::Finished, event), (Stage::Finished, Action::Nothing));
    }
}

#[test]
fn success_is_zero_and_failure_is_not() {
    assert_eq!(exit_status(Action::Succeed), Some(0));
    for failure in [
        Failure::SourceUnavailable,
        Failure::ChildFailed,
        Failure::EntryFailed,
        Failure::Preinitialization,
        Failure::UnreadableModule,
        Failure::OutputUnwritable,
        Failure::OutOfOrder,
    ] {
        assert_eq!(exit_status(Action::Fail(failure)), Some(1));
    }
    for action in [
        Action::OpenSource,
        Action::SpawnChild,
        Action::Instantiate(instance_settings()),
        Action::Preinitialize(snapshot_settings()),
        Action::Optimize(optimize_settings()),
        Action::WriteOutput,
        Action::Nothing,
    ] {
        assert_eq!(exit_status(action), None);
    }
}

#[test]
fn failures_have_their_diagnostics() {
    assert_eq!(diagnostic(Failure::ChildFailed), "Couldn't create wasm from input");
    assert_eq!(
        diagnostic(Failure::UnreadableModule),
        "Unable to read wasm binary for wasm-opt optimizations"
    );
    assert_eq!(diagnostic(Failure::SourceUnavailable), "Couldn't open the input");
    assert_eq!(diagnostic(Failure::EntryFailed), "The entry point failed");
    assert_eq!(diagnostic(Failure::Preinitialization), "Preinitialization failed");
    assert_eq!(diagnostic(Failure::OutputUnwritable), "Couldn't write the output");
    assert_eq!(diagnostic(Failure::OutOfOrder), "Unexpected event");
}

#[test]
fn no_events_change_nothing() {
    let (stage, actions) = run(Stage::Optimizing, &vec![]);
    assert_eq!(stage, Stage::Optimizing);
    assert_eq!(actions, vec![]);
}

#[test]
fn the_module_is_instantiated_once_and_the_output_written_once() {
    let all = [
        Event::Launched { snapshot: true },
        Event::Launched { snapshot: false },
        Event::Opened { ok: true },
        Event::ChildExited { success: true },
        Event::EntryReturned { ok: true },
        Event::Preinitialized { ok: true },
        Event::Optimized { readable: true },
        Event::Written { ok: true },
    ];
    for a in all {
        for b in all {
            for c in all {
                for d in all {
                    for e in all {
                        let (_, actions) = run(Stage::Start, &vec![a, b, c, d, e]);
                        let instantiated = actions
                            .iter()
                            .filter(|action| matches!(action, Action::Instantiate(_)))
                            .count();
                        let written =
                            actions.iter().filter(|action| **action == Action::WriteOutput).count();
                        assert!(instantiated <= 1);
                        assert!(written <= 1);
                    }
                }
            }
        }
    }
}
