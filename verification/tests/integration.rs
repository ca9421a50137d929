use rair::{
    build_globset, cli_to_config, default_run_argv, effective_config, exe_name, exe_path,
    files_mode_config, is_relevant_path, norm_ext, resolve_bin_name, CliArgs, Config, ConfigError,
    EventGate, HookPoint, HookRun, PipelineAction, PipelineEvent, Stage, Supervisor,
};

fn strs(items: &[&str]) -> Vec<String> {
    items.iter().map(|s| s.to_string()).collect()
}

// ============================================================================
// Glob Pattern Tests
// ============================================================================

#[test]
fn test_ignore_globs() {
    let set = build_globset(&strs(&["**/target/**", "**/.git/**"])).unwrap();
    assert!(set.is_match("foo/target/debug/app"));
    assert!(set.is_match(".git/index"));
    assert!(!set.is_match("src/main.rs"));
}

#[test]
fn test_globset_multiple_patterns() {
    let set = build_globset(&strs(&["*.tmp", "**/node_modules/**", "**/.DS_Store"])).unwrap();
    assert!(set.is_match("file.tmp"));
    assert!(set.is_match("project/node_modules/package/index.js"));
    assert!(set.is_match("folder/.DS_Store"));
    assert!(!set.is_match("src/main.rs"));
}

#[test]
fn test_globset_empty() {
    let set = build_globset(&vec![]).unwrap();
    assert!(!set.is_match("anything"));
}

#[test]
fn test_ignore_pattern_build_output() {
    let set = build_globset(&strs(&["**/build-output/**"])).unwrap();
    assert!(set.is_match("foo/build-output/debug/app"));
    assert!(!set.is_match("src/main.ext"));
}

// ============================================================================
// Config Merging Tests
// ============================================================================

#[test]
fn test_config_merge_cli_wins() {
    let file = Config {
        debounce_ms: Some(999),
        clear: Some(false),
        ..Default::default()
    };
    let cli = Config {
        debounce_ms: Some(123),
        clear: Some(true),
        ..Default::default()
    };
    let eff = effective_config(cli, Some(file), false).unwrap();
    assert_eq!(eff.debounce_ms, 123);
    assert_eq!(eff.clear, true);
}

#[test]
fn test_config_merge_file_fallback() {
    let file = Config {
        debounce_ms: Some(500),
        clear: Some(false),
        bin: Some("from_file".into()),
        ..Default::default()
    };
    let cli = Config {
        clear: Some(true),
        ..Default::default()
    };
    let eff = effective_config(cli, Some(file), false).unwrap();
    assert_eq!(eff.debounce_ms, 500); // From file
    assert_eq!(eff.clear, true); // From CLI
    assert_eq!(eff.bin.as_deref(), Some("from_file")); // From file
}

#[test]
fn test_config_all_defaults() {
    let cli = Config::default();
    let eff = effective_config(cli, None, false).unwrap();
    assert_eq!(eff.debounce_ms, 250);
    assert_eq!(eff.clear, true);
    assert!(eff.include_ext.contains(&"rs".to_string()));
    assert!(eff.include_ext.contains(&"toml".to_string()));
}

// ============================================================================
// Smart Default Watch Paths Tests
// ============================================================================

#[test]
fn test_default_watch_with_descriptor() {
    let cli = Config::default();
    let eff = effective_config(cli, None, true).unwrap();
    assert_eq!(eff.watch.len(), 3);
    assert!(eff.watch.contains(&"src".to_string()));
    assert!(eff.watch.contains(&"Cargo.toml".to_string()));
    assert!(eff.watch.contains(&"Cargo.lock".to_string()));
}

#[test]
fn test_default_watch_without_cargo() {
    let cli = Config {
        watch: Some(vec![".".into()]),
        ..Default::default()
    };
    let eff = effective_config(cli, None, false).unwrap();

    assert_eq!(eff.watch.len(), 1);
    assert_eq!(eff.watch[0], ".");
}

#[test]
fn test_explicit_watch_overrides_defaults() {
    let cli = Config {
        watch: Some(vec!["custom".into(), "paths".into()]),
        ..Default::default()
    };
    let eff = effective_config(cli, None, true).unwrap();
    assert_eq!(eff.watch.len(), 2);
    assert_eq!(eff.watch[0], "custom");
    assert_eq!(eff.watch[1], "paths");
}

// ============================================================================
// Extension Filter Tests
// ============================================================================

#[test]
fn test_ext_filters() {
    let inc = strs(&["rs", "toml"]);
    let exc = strs(&["lock"]);

    assert!(is_relevant_path("src/main.rs", &inc, &exc));
    assert!(is_relevant_path("Cargo.toml", &inc, &exc));
    assert!(is_relevant_path("Cargo.lock", &inc, &exc));
    assert!(!is_relevant_path("foo.lock", &inc, &exc));
}

#[test]
fn test_ext_normalization() {
    // Extensions are normalized (dots removed, lowercase).
    let cli = Config {
        include_ext: Some(strs(&[".RS", "TOML", ".lock"])),
        ..Default::default()
    };
    let eff = effective_config(cli, None, false).unwrap();

    assert!(eff.include_ext.contains(&"rs".to_string()));
    assert!(eff.include_ext.contains(&"toml".to_string()));
    assert!(eff.include_ext.contains(&"lock".to_string()));
    assert!(!eff.include_ext.contains(&".rs".to_string()));
    assert!(!eff.include_ext.contains(&"RS".to_string()));
}

#[test]
fn test_norm_ext_case_dot_insensitive() {
    assert_eq!(norm_ext(".RS"), "rs");
    assert_eq!(norm_ext("rs"), "rs");
    assert_eq!(norm_ext("RS"), "rs");
    assert_eq!(norm_ext("  .Toml "), "toml");
    // Normalizing an already-normal token changes nothing.
    assert_eq!(norm_ext(&norm_ext(".RS")), "rs");
}

#[test]
fn test_cargo_files_always_relevant() {
    let inc = strs(&["rs"]);
    let exc = strs(&["toml", "lock"]);

    // Even though toml and lock are excluded, Cargo.toml and Cargo.lock are always relevant
    assert!(is_relevant_path("Cargo.toml", &inc, &exc));
    assert!(is_relevant_path("Cargo.lock", &inc, &exc));

    // But other .toml files should be excluded
    assert!(!is_relevant_path("config.toml", &inc, &exc));
}

#[test]
fn test_no_extension_ignored() {
    let inc = strs(&["rs"]);
    let exc: Vec<String> = vec![];

    assert!(!is_relevant_path("README", &inc, &exc));
    assert!(!is_relevant_path("Makefile", &inc, &exc));
}

#[test]
fn test_excluded_wins_over_included() {
    let inc = strs(&["rs"]);
    let exc = strs(&["rs"]);
    assert!(!is_relevant_path("src/main.rs", &inc, &exc));
}

// ============================================================================
// Executable Path Tests
// ============================================================================

#[test]
fn test_exe_name_and_path() {
    assert_eq!(exe_name("mybin", true), "mybin.exe");
    assert_eq!(exe_name("mybin", false), "mybin");

    let p1 = exe_path("target", false, "mybin", false);
    let p2 = exe_path("target", true, "mybin", false);
    assert!(p1.contains("debug"));
    assert!(p2.contains("release"));
}

#[test]
fn test_exe_path_different_bins() {
    let p1 = exe_path("target", false, "server", false);
    let p2 = exe_path("target", false, "client", false);

    assert!(p1.contains("server"));
    assert!(p2.contains("client"));
    assert_ne!(p1, p2);
}

#[test]
fn test_exe_path_layout() {
    assert_eq!(exe_path("target", false, "app", false), "target/debug/app");
    assert_eq!(exe_path("target", true, "app", true), "target/release/app.exe");
}

// ============================================================================
// Hook Scheduling Tests
// ============================================================================

#[test]
fn test_hook_run_stops_on_failure() {
    // [ok, fail, ok]: overall failure, and the third command is never handed
    // out for execution.
    let hooks = vec![strs(&["ok1"]), strs(&["fail"]), strs(&["ok2"])];
    let mut run = HookRun::begin();

    let first = run.next_command(&hooks).unwrap().unwrap().clone();
    assert_eq!(first, strs(&["ok1"]));
    assert!(run.record_exit(true));

    let second = run.next_command(&hooks).unwrap().unwrap().clone();
    assert_eq!(second, strs(&["fail"]));
    // The second command exits nonzero: the pass stops here.
    assert!(!run.record_exit(false));
    // The cursor never reached the third entry.
    assert_eq!(run.next, 1);
}

#[test]
fn test_hook_run_all_ok() {
    let hooks = vec![strs(&["a"]), strs(&["b"])];
    let mut run = HookRun::begin();
    let mut executed = 0;
    loop {
        match run.next_command(&hooks).unwrap() {
            None => break,
            Some(_) => {
                executed += 1;
                assert!(run.record_exit(true));
            }
        }
    }
    assert_eq!(executed, 2);
}

#[test]
fn test_hook_run_empty_list() {
    // An empty hook list succeeds trivially: the first step already reports
    // the pass as finished.
    let hooks: Vec<Vec<String>> = vec![];
    let run = HookRun::begin();
    assert!(matches!(run.next_command(&hooks), Ok(None)));
}

#[test]
fn test_hook_run_single_command() {
    let hooks = vec![strs(&["only"])];
    let mut run = HookRun::begin();
    assert!(run.next_command(&hooks).unwrap().is_some());
    assert!(run.record_exit(true));
    assert!(matches!(run.next_command(&hooks), Ok(None)));
}

#[test]
fn test_hook_run_empty_argv_errors() {
    let hooks: Vec<Vec<String>> = vec![vec![]];
    let run = HookRun::begin();
    let err = run.next_command(&hooks).unwrap_err();
    assert_eq!(err.index, 0);
}

// ============================================================================
// Build Command Generation Tests
// ============================================================================

#[test]
fn test_build_command_basic() {
    let cli = Config {
        bin: Some("myapp".into()),
        ..Default::default()
    };
    let eff = effective_config(cli, None, false).unwrap();

    assert_eq!(eff.build[0], "cargo");
    assert_eq!(eff.build[1], "build");
    assert!(eff.build.contains(&"--bin".to_string()));
    assert!(eff.build.contains(&"myapp".to_string()));
}

#[test]
fn test_build_command_release() {
    let cli = Config {
        bin: Some("myapp".into()),
        release: Some(true),
        ..Default::default()
    };
    let eff = effective_config(cli, None, false).unwrap();

    assert!(eff.build.contains(&"--release".to_string()));
}

#[test]
fn test_build_command_workspace() {
    let cli = Config {
        workspace: Some(true),
        package: Some("backend".into()),
        bin: Some("server".into()),
        ..Default::default()
    };
    let eff = effective_config(cli, None, false).unwrap();

    assert!(eff.build.contains(&"--workspace".to_string()));
    assert!(eff.build.contains(&"-p".to_string()));
    assert!(eff.build.contains(&"backend".to_string()));
    assert!(eff.build.contains(&"--bin".to_string()));
    assert!(eff.build.contains(&"server".to_string()));
}

#[test]
fn test_build_command_flag_order() {
    // The synthesized argv keeps its fixed flag order: the workspace flag
    // before the package flag before the binary flag.
    let cli = Config {
        workspace: Some(true),
        package: Some("backend".into()),
        bin: Some("server".into()),
        ..Default::default()
    };
    let eff = effective_config(cli, None, false).unwrap();

    let pos = |flag: &str| eff.build.iter().position(|a| a == flag).unwrap();
    assert!(pos("--workspace") < pos("-p"));
    assert!(pos("-p") < pos("--bin"));
}

#[test]
fn test_build_command_features() {
    let cli = Config {
        bin: Some("myapp".into()),
        features: Some(strs(&["feature1", "feature2"])),
        ..Default::default()
    };
    let eff = effective_config(cli, None, false).unwrap();

    assert!(eff.build.contains(&"--features".to_string()));
    assert!(eff.build.contains(&"feature1,feature2".to_string()));
}

#[test]
fn test_build_command_all_features() {
    let cli = Config {
        bin: Some("myapp".into()),
        all_features: Some(true),
        ..Default::default()
    };
    let eff = effective_config(cli, None, false).unwrap();

    assert!(eff.build.contains(&"--all-features".to_string()));
}

#[test]
fn test_build_command_no_default_features() {
    let cli = Config {
        bin: Some("myapp".into()),
        no_default_features: Some(true),
        ..Default::default()
    };
    let eff = effective_config(cli, None, false).unwrap();

    assert!(eff.build.contains(&"--no-default-features".to_string()));
}

#[test]
fn test_build_command_explicit_overrides_cargo() {
    let cli = Config {
        build: Some(strs(&["rustc", "main.rs", "-o", "/tmp/app"])),
        bin: Some("ignored".into()), // Should be ignored
        ..Default::default()
    };
    let eff = effective_config(cli, None, false).unwrap();

    assert_eq!(eff.build[0], "rustc");
    assert_eq!(eff.build[1], "main.rs");
    assert!(!eff.build.contains(&"cargo".to_string()));
}

// ============================================================================
// Run Command Tests
// ============================================================================

#[test]
fn test_explicit_run_command() {
    let cli = Config {
        run: Some(strs(&["/tmp/myapp", "--arg"])),
        ..Default::default()
    };
    let eff = effective_config(cli, None, false).unwrap();

    assert_eq!(eff.run.as_ref().unwrap()[0], "/tmp/myapp");
    assert_eq!(eff.run.as_ref().unwrap()[1], "--arg");
}

#[test]
fn test_run_defaults_to_none_for_cargo() {
    let cli = Config {
        bin: Some("myapp".into()),
        ..Default::default()
    };
    let eff = effective_config(cli, None, false).unwrap();

    // Should be None, will be resolved at run time from build metadata.
    assert!(eff.run.is_none());
}

#[test]
fn test_resolve_bin_name_fallbacks() {
    let eff = effective_config(
        Config {
            package: Some("pkg".into()),
            ..Default::default()
        },
        None,
        false,
    )
    .unwrap();
    assert_eq!(resolve_bin_name(&eff, &None).unwrap(), "pkg");

    let eff2 = effective_config(Config::default(), None, false).unwrap();
    assert_eq!(
        resolve_bin_name(&eff2, &Some("cwdname".into())).unwrap(),
        "cwdname"
    );
    assert!(resolve_bin_name(&eff2, &None).is_err());
}

#[test]
fn test_default_run_argv_path() {
    let eff = effective_config(
        Config {
            bin: Some("server".into()),
            ..Default::default()
        },
        None,
        false,
    )
    .unwrap();
    let argv = default_run_argv(&eff, "target", &None, false).unwrap();
    assert_eq!(argv, strs(&["target/debug/server"]));
}

// ============================================================================
// Edge Cases and Error Handling
// ============================================================================

#[test]
fn test_ignore_globs_with_invalid_pattern() {
    let result = build_globset(&strs(&["[invalid"]));
    assert!(result.is_err());
    assert!(matches!(result, Err(ConfigError::InvalidGlob(p)) if p == "[invalid"));
}

#[test]
fn test_manifest_path_preserved() {
    let cli = Config {
        manifest_path: Some("/custom/path/Cargo.toml".into()),
        ..Default::default()
    };
    let eff = effective_config(cli, None, false).unwrap();

    assert!(eff.manifest_path.is_some());
    assert_eq!(eff.manifest_path.as_deref(), Some("/custom/path/Cargo.toml"));
}

#[test]
fn test_debounce_conversion() {
    let cli = Config {
        debounce_ms: Some(500),
        ..Default::default()
    };
    let eff = effective_config(cli, None, false).unwrap();

    assert_eq!(eff.debounce_ms, 500);
}

#[test]
fn test_effective_config_invalid_ignore_fails() {
    let cli = Config {
        ignore: Some(strs(&["**/ok/**", "[bad"])),
        ..Default::default()
    };
    let r = effective_config(cli, None, false);
    assert!(matches!(r, Err(ConfigError::InvalidGlob(p)) if p == "[bad"));
}

// ============================================================================
// File Mode Tests
// ============================================================================

#[test]
fn test_files_mode_build_command() {
    let cfg = files_mode_config(&strs(&["main.rs", "util.rs"])).unwrap();
    assert_eq!(
        cfg.build.unwrap(),
        strs(&["rustc", "main.rs", "util.rs", "-o", "/tmp/rair-out"])
    );
    assert_eq!(cfg.run.unwrap(), strs(&["/tmp/rair-out"]));
    assert_eq!(cfg.watch.unwrap(), strs(&["."]));
    assert_eq!(cfg.clear, Some(true));
}

#[test]
fn test_files_mode_empty_errors() {
    let r = files_mode_config(&vec![]);
    assert!(matches!(r, Err(ConfigError::NoFiles)));
}

#[test]
fn test_files_mode_rejects_non_rust_file() {
    let r = files_mode_config(&strs(&["main.rs", "notes.txt"]));
    assert!(matches!(r, Err(ConfigError::NotRustFile(p)) if p == "notes.txt"));
}

#[test]
fn test_cli_to_config_flags() {
    let args = CliArgs {
        files: vec![],
        watch: strs(&["src"]),
        ignore: vec![],
        include_ext: vec![],
        exclude_ext: vec![],
        debounce_ms: Some(100),
        clear: None,
        build: vec![],
        run: vec![],
        manifest_path: None,
        package: None,
        bin: Some("app".into()),
        features: vec![],
        all_features: false,
        no_default_features: false,
        workspace: true,
        release: false,
    };
    let cfg = cli_to_config(args).unwrap();
    assert_eq!(cfg.watch.unwrap(), strs(&["src"]));
    assert!(cfg.ignore.is_none());
    assert_eq!(cfg.debounce_ms, Some(100));
    assert_eq!(cfg.bin.as_deref(), Some("app"));
    // A boolean switch is specified only by being given: present maps to
    // Some(true), absent stays unset.
    assert_eq!(cfg.workspace, Some(true));
    assert!(cfg.all_features.is_none());
    assert!(cfg.no_default_features.is_none());
    assert!(cfg.release.is_none());
    assert!(cfg.pre_build.is_none());
}

#[test]
fn test_absent_cli_switch_keeps_file_value() {
    // An absent CLI switch does not override a file-set value: the overlay
    // wins only where it is specified.
    let file = Config {
        release: Some(true),
        all_features: Some(true),
        ..Default::default()
    };
    let args = CliArgs {
        files: vec![],
        watch: vec![],
        ignore: vec![],
        include_ext: vec![],
        exclude_ext: vec![],
        debounce_ms: None,
        clear: None,
        build: vec![],
        run: vec![],
        manifest_path: None,
        package: None,
        bin: Some("app".into()),
        features: vec![],
        all_features: false,
        no_default_features: false,
        workspace: false,
        release: false,
    };
    let cli = cli_to_config(args).unwrap();
    let eff = effective_config(cli, Some(file), false).unwrap();
    assert!(eff.release);
    assert!(eff.all_features);
    assert!(eff.build.contains(&"--release".to_string()));
}

// ============================================================================
// Event Gate Tests
// ============================================================================

#[test]
fn test_debounce_drops_second_event() {
    // Two notifications 10ms apart under a 250ms window: the second is
    // dropped even though its path is relevant, because the first event
    // took the debounce slot.
    let eff = effective_config(Config::default(), None, false).unwrap();
    let mut gate = EventGate::new(250);

    let fired = gate.process_event(&eff, 1000, &strs(&["src/main.rs"]));
    assert!(fired);
    let fired_again = gate.process_event(&eff, 1010, &strs(&["src/main.rs"]));
    assert!(!fired_again);
    // After the window passes, events are admitted again.
    let fired_later = gate.process_event(&eff, 1250, &strs(&["src/main.rs"]));
    assert!(fired_later);
}

#[test]
fn test_irrelevant_event_consumes_slot() {
    // An event that survives the time check moves the timestamp even when
    // none of its paths is relevant, delaying a following relevant event.
    let eff = effective_config(Config::default(), None, false).unwrap();
    let mut gate = EventGate::new(250);

    let fired = gate.process_event(&eff, 1000, &strs(&["README"]));
    assert!(!fired);
    let fired_again = gate.process_event(&eff, 1100, &strs(&["src/main.rs"]));
    assert!(!fired_again);
}

#[test]
fn test_huge_debounce_blocks_after_first() {
    let eff = effective_config(Config::default(), None, false).unwrap();
    let mut gate = EventGate::new(u64::MAX);
    assert!(gate.process_event(&eff, 5, &strs(&["src/main.rs"])));
    assert!(!gate.process_event(&eff, 1_000_000, &strs(&["src/main.rs"])));
}

#[test]
fn test_process_event_respects_ignore() {
    let eff = effective_config(Config::default(), None, false).unwrap();
    let mut gate = EventGate::new(0);
    // The default ignore set covers build output.
    assert!(!gate.process_event(&eff, 1000, &strs(&["foo/target/debug/x.rs"])));
    assert!(gate.process_event(&eff, 2000, &strs(&["src/x.rs"])));
}

// ============================================================================
// Pipeline State Machine Tests
// ============================================================================

#[test]
fn test_recursion_guard_reads_marker_presence() {
    assert!(rair::is_already_supervised(&Some("1".to_string())));
    assert!(rair::is_already_supervised(&Some(String::new())));
    assert!(!rair::is_already_supervised(&None));
}

#[test]
fn test_pipeline_full_successful_run() {
    let mut s = Supervisor::start();
    assert_eq!(s.stage, Stage::Idle);
    assert!(!s.has_process);

    assert_eq!(
        s.step(PipelineEvent::Triggered),
        PipelineAction::RunHooks(HookPoint::PreBuild)
    );
    assert_eq!(s.step(PipelineEvent::HooksFinished(true)), PipelineAction::RunBuild);
    assert_eq!(
        s.step(PipelineEvent::BuildFinished(true)),
        PipelineAction::RunHooks(HookPoint::PostBuild)
    );
    assert_eq!(
        s.step(PipelineEvent::HooksFinished(true)),
        PipelineAction::RunHooks(HookPoint::PreRun)
    );
    assert_eq!(s.step(PipelineEvent::HooksFinished(true)), PipelineAction::ResolveRun);
    assert_eq!(s.step(PipelineEvent::Resolved(true)), PipelineAction::Restart);
    assert_eq!(
        s.step(PipelineEvent::Spawned(true)),
        PipelineAction::RunHooks(HookPoint::PostRun)
    );
    assert!(s.has_process);
    // Post-run hook failures never roll the new process back.
    assert_eq!(s.step(PipelineEvent::HooksFinished(false)), PipelineAction::Wait);
    assert_eq!(s.stage, Stage::Idle);
    assert!(s.has_process);
}

#[test]
fn test_pipeline_build_failure_keeps_process() {
    let mut s = Supervisor::start();
    s.step(PipelineEvent::Triggered);
    s.step(PipelineEvent::HooksFinished(true));
    // The build fails: the failure hooks run best-effort, the pipeline
    // aborts, and no process is replaced.
    assert_eq!(
        s.step(PipelineEvent::BuildFinished(false)),
        PipelineAction::RunHooks(HookPoint::OnBuildFail)
    );
    assert_eq!(s.step(PipelineEvent::HooksFinished(false)), PipelineAction::Wait);
    assert_eq!(s.stage, Stage::Idle);
    assert!(!s.has_process);
}

#[test]
fn test_pipeline_pre_build_failure_aborts() {
    let mut s = Supervisor::start();
    s.step(PipelineEvent::Triggered);
    assert_eq!(s.step(PipelineEvent::HooksFinished(false)), PipelineAction::Wait);
    assert_eq!(s.stage, Stage::Idle);
}

#[test]
fn test_pipeline_spawn_failure_is_fatal() {
    let mut s = Supervisor::start();
    s.step(PipelineEvent::Triggered);
    s.step(PipelineEvent::HooksFinished(true));
    s.step(PipelineEvent::BuildFinished(true));
    s.step(PipelineEvent::HooksFinished(true));
    s.step(PipelineEvent::HooksFinished(true));
    s.step(PipelineEvent::Resolved(true));
    assert_eq!(s.step(PipelineEvent::Spawned(false)), PipelineAction::Fatal);
}
