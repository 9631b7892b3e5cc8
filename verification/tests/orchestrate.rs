use chroma_build::config::{Bin, Config, Package};
use chroma_build::orchestrator::{
    start_build, BuildError, CompileOutcome, Orchestrator, SetupFailure,
};

fn two_target_config() -> Config {
    Config {
        package: Package {
            name: "demo".to_string(),
            version: "0.1".to_string(),
            edition: "c++17".to_string(),
        },
        bin: vec![
            Bin {
                name: "first".to_string(),
                path: "src/first.cpp".to_string(),
            },
            Bin {
                name: "second".to_string(),
                path: "src/second.cpp".to_string(),
            },
        ],
    }
}

#[test]
fn scenario_single_target_invocation() {
    let cfg = Config {
        package: Package {
            name: "hello chroma".to_string(),
            version: "1.2.3".to_string(),
            edition: "c++17".to_string(),
        },
        bin: vec![Bin {
            name: "main".to_string(),
            path: "src/main.cpp".to_string(),
        }],
    };
    let orch = Orchestrator::new(cfg);
    assert_eq!(
        orch.defs,
        vec![
            ("HELLO_CHROMA".to_string(), "1".to_string()),
            ("HELLO_CHROMA_VERSION".to_string(), "\"1.2.3\"".to_string()),
            ("HELLO_CHROMA_MAJOR".to_string(), "1".to_string()),
            ("HELLO_CHROMA_MINOR".to_string(), "2".to_string()),
            ("HELLO_CHROMA_PATCH".to_string(), "3".to_string()),
        ]
    );
    let args = orch.next_invocation().unwrap();
    assert_eq!(
        args,
        vec![
            "-DHELLO_CHROMA=1",
            "-DHELLO_CHROMA_VERSION=\"1.2.3\"",
            "-DHELLO_CHROMA_MAJOR=1",
            "-DHELLO_CHROMA_MINOR=2",
            "-DHELLO_CHROMA_PATCH=3",
            "-o",
            "build/main",
            "-std=c++17",
            "src/main.cpp",
        ]
    );
}

#[test]
fn scenario_first_target_failure_is_fail_fast() {
    let mut orch = Orchestrator::new(two_target_config());
    let mut invoked: Vec<Vec<String>> = Vec::new();
    let mut error: Option<BuildError> = None;
    while let Some(args) = orch.next_invocation() {
        invoked.push(args);
        // The external compiler reports a non-success exit for every call.
        match orch.on_compile_result(CompileOutcome::Exited { success: false }) {
            Ok(()) => {}
            Err(e) => {
                error = Some(e);
                break;
            }
        }
    }
    assert_eq!(invoked.len(), 1);
    assert_eq!(invoked[0].last().unwrap(), "src/first.cpp");
    assert_eq!(
        error,
        Some(BuildError::CompilerNonSuccessExit {
            target: "first".to_string()
        })
    );
}

#[test]
fn failure_does_not_advance_past_offending_target() {
    let mut orch = Orchestrator::new(two_target_config());
    let before = orch.next_invocation().unwrap();
    let result = orch.on_compile_result(CompileOutcome::Exited { success: false });
    assert!(result.is_err());
    let after = orch.next_invocation().unwrap();
    assert_eq!(before, after);
}

#[test]
fn spawn_failure_names_target() {
    let mut orch = Orchestrator::new(two_target_config());
    assert!(orch.next_invocation().is_some());
    let result = orch.on_compile_result(CompileOutcome::SpawnFailed);
    assert_eq!(
        result,
        Err(BuildError::CompilerSpawnError {
            target: "first".to_string()
        })
    );
}

#[test]
fn all_targets_succeed_in_order() {
    let mut orch = Orchestrator::new(two_target_config());
    let mut built: Vec<String> = Vec::new();
    while let Some(args) = orch.next_invocation() {
        built.push(args.last().unwrap().clone());
        assert_eq!(
            orch.on_compile_result(CompileOutcome::Exited { success: true }),
            Ok(())
        );
    }
    assert_eq!(built, vec!["src/first.cpp", "src/second.cpp"]);
    assert!(orch.next_invocation().is_none());
}

#[test]
fn scenario_missing_manifest_fails_before_any_invocation() {
    let started = start_build(Err(SetupFailure::ManifestMissing));
    match started {
        Err(BuildError::ManifestNotFound) => {}
        other => panic!("expected ManifestNotFound, got {:?}", other),
    }
}

#[test]
fn setup_failures_map_to_their_errors() {
    assert!(matches!(
        start_build(Err(SetupFailure::RootNotFound)),
        Err(BuildError::ProjectRootNotFound)
    ));
    assert!(matches!(
        start_build(Err(SetupFailure::ManifestUnparsable)),
        Err(BuildError::ManifestParseError)
    ));
    assert!(matches!(
        start_build(Err(SetupFailure::OutputDirFailed)),
        Err(BuildError::OutputDirectoryCreateError)
    ));
}

#[test]
fn successful_setup_starts_at_first_target() {
    let started = start_build(Ok(two_target_config()));
    let orch = started.expect("setup succeeded");
    assert_eq!(orch.next, 0);
    let args = orch.next_invocation().unwrap();
    assert_eq!(args.last().unwrap(), "src/first.cpp");
}
