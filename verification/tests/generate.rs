use riff_bindgen::generate::{
    bindgen_command, run_generate, step_notices, swift_bindgen_args, swift_done_message,
    swift_file_name, swift_output_dir, GenerateAction, GenerateError, GenerateEvent,
    GenerateOptions, GenerateRun, GenerateStep, GenerateTarget, SwiftOutcome,
};

fn step_name(s: &GenerateStep) -> (&'static str, Option<String>) {
    match s {
        GenerateStep::Swift { output } => ("swift", output.clone()),
        GenerateStep::Kotlin { output } => ("kotlin", output.clone()),
        GenerateStep::Header { output } => ("header", output.clone()),
    }
}

#[test]
fn single_targets_keep_their_output() {
    let steps = run_generate(GenerateOptions {
        target: GenerateTarget::Swift,
        output: Some("out/ios".to_string()),
    });
    assert_eq!(steps.len(), 1);
    assert_eq!(step_name(&steps[0]), ("swift", Some("out/ios".to_string())));
    let k = run_generate(GenerateOptions { target: GenerateTarget::Kotlin, output: None });
    assert_eq!(step_name(&k[0]), ("kotlin", None));
    let h = run_generate(GenerateOptions {
        target: GenerateTarget::Header,
        output: Some("inc".to_string()),
    });
    assert_eq!(step_name(&h[0]), ("header", Some("inc".to_string())));
}

#[test]
fn all_runs_every_generator_with_configured_output() {
    let steps = run_generate(GenerateOptions {
        target: GenerateTarget::All,
        output: Some("ignored".to_string()),
    });
    let names: Vec<_> = steps.iter().map(step_name).collect();
    assert_eq!(names, vec![("swift", None), ("kotlin", None), ("header", None)]);
}

#[test]
fn swift_step_paths_and_arguments() {
    assert_eq!(swift_file_name(), "Generated.swift");
    assert_eq!(swift_output_dir(&Some("custom".to_string()), &"cfg".to_string()), "custom");
    assert_eq!(swift_output_dir(&None, &"cfg".to_string()), "cfg");
    assert_eq!(
        swift_bindgen_args(&"mylib".to_string(), &"out/Generated.swift".to_string()),
        vec!["run", "-p", "mobiFFI_bindgen", "--", "mylib", "out/Generated.swift"]
    );
    assert_eq!(bindgen_command(), "mobiFFI_bindgen");
    assert_eq!(
        swift_done_message(&"out/Generated.swift".to_string()),
        "Generated Swift bindings -> out/Generated.swift"
    );
}

#[test]
fn notices_of_unfinished_generators() {
    assert!(step_notices(&GenerateStep::Swift { output: None }).is_empty());
    assert_eq!(
        step_notices(&GenerateStep::Kotlin { output: None }),
        vec!["Kotlin generation not yet implemented"]
    );
    assert_eq!(
        step_notices(&GenerateStep::Header { output: None }),
        vec![
            "Header generation via CLI not yet implemented",
            "Use: cargo build -p mobiFFI_core (headers generated via build.rs)"
        ]
    );
}

fn texts(lines: &[&str]) -> Vec<String> {
    lines.iter().map(|l| l.to_string()).collect()
}

#[test]
fn generate_all_runs_each_step_in_turn() {
    let mut run = GenerateRun::new(GenerateOptions {
        target: GenerateTarget::All,
        output: Some("ignored".to_string()),
    });
    match run.on_event(GenerateEvent::Ready) {
        GenerateAction::RunSwift { output } => assert_eq!(output, None),
        other => panic!("unexpected action {:?}", other),
    }
    let done = run.on_event(GenerateEvent::SwiftFinished {
        outcome: SwiftOutcome::Exited { success: true, code: Some(0) },
        output_path: "out/Generated.swift".to_string(),
    });
    match done {
        GenerateAction::Print { lines } => {
            assert_eq!(lines, texts(&["Generated Swift bindings -> out/Generated.swift"]))
        }
        other => panic!("unexpected action {:?}", other),
    }
    match run.on_event(GenerateEvent::Ready) {
        GenerateAction::Print { lines } => {
            assert_eq!(lines, texts(&["Kotlin generation not yet implemented"]))
        }
        other => panic!("unexpected action {:?}", other),
    }
    match run.on_event(GenerateEvent::Ready) {
        GenerateAction::Print { lines } => assert_eq!(
            lines,
            texts(&[
                "Header generation via CLI not yet implemented",
                "Use: cargo build -p mobiFFI_core (headers generated via build.rs)",
            ])
        ),
        other => panic!("unexpected action {:?}", other),
    }
    assert!(matches!(run.on_event(GenerateEvent::Ready), GenerateAction::Finish(Ok(()))));
    assert!(matches!(run.on_event(GenerateEvent::Ready), GenerateAction::Finish(Ok(()))));
}

#[test]
fn generate_stops_at_a_failing_generator() {
    let mut run = GenerateRun::new(GenerateOptions { target: GenerateTarget::All, output: None });
    assert!(matches!(run.on_event(GenerateEvent::Ready), GenerateAction::RunSwift { .. }));
    let failed = run.on_event(GenerateEvent::SwiftFinished {
        outcome: SwiftOutcome::Exited { success: false, code: Some(101) },
        output_path: "Generated.swift".to_string(),
    });
    assert!(matches!(
        failed,
        GenerateAction::Finish(Err(GenerateError::CommandFailed { status: Some(101) }))
    ));
    // No later step runs: the run keeps answering with the same error.
    assert!(matches!(
        run.on_event(GenerateEvent::Ready),
        GenerateAction::Finish(Err(GenerateError::CommandFailed { status: Some(101) }))
    ));
}

#[test]
fn generate_reports_directory_and_spawn_failures() {
    let mut run = GenerateRun::new(GenerateOptions {
        target: GenerateTarget::Swift,
        output: Some("gen".to_string()),
    });
    match run.on_event(GenerateEvent::Ready) {
        GenerateAction::RunSwift { output } => assert_eq!(output, Some("gen".to_string())),
        other => panic!("unexpected action {:?}", other),
    }
    assert!(matches!(
        run.on_event(GenerateEvent::SwiftFinished {
            outcome: SwiftOutcome::DirectoryFailed,
            output_path: "gen/Generated.swift".to_string(),
        }),
        GenerateAction::Finish(Err(GenerateError::CreateDirectoryFailed))
    ));
    let mut run2 = GenerateRun::new(GenerateOptions { target: GenerateTarget::Swift, output: None });
    run2.on_event(GenerateEvent::Ready);
    assert!(matches!(
        run2.on_event(GenerateEvent::SwiftFinished {
            outcome: SwiftOutcome::NotStarted,
            output_path: "Generated.swift".to_string(),
        }),
        GenerateAction::Finish(Err(GenerateError::CommandFailed { status: None }))
    ));
}

#[test]
fn generate_kotlin_only_prints_its_notice() {
    let mut run = GenerateRun::new(GenerateOptions { target: GenerateTarget::Kotlin, output: None });
    assert!(matches!(run.on_event(GenerateEvent::Ready), GenerateAction::Print { .. }));
    assert!(matches!(run.on_event(GenerateEvent::Ready), GenerateAction::Finish(Ok(()))));
}
