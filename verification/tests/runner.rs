use syqure::bundle::CacheError;
use syqure::ffi::SyBuildResult;
use syqure::runner::{
    bundled_codon_path, default_codon_path, default_output_path, is_stale_socket, Assignment,
    Completion, EnvironmentInputs, OptionOverrides, OrchestratorError, Request, Response, Session,
};
use syqure::{CompileOptions, Syqure};

const ROOT: &str = "/cache/lib/codon";

fn native(status: i32, error: &str) -> SyBuildResult {
    SyBuildResult {
        status,
        output_path: String::new(),
        error: String::from(error),
        stdout_output: String::from("result: 42\n"),
        stderr_output: String::from("warning: slow\n"),
    }
}

fn no_environment() -> EnvironmentInputs {
    EnvironmentInputs { toolchain_path: None, plugin_path: None }
}

/// Answers the requests of one invocation the way a well-behaved machine would, and
/// records them by name.
fn drive(
    syqure: &Syqure,
    source: &str,
    exists: bool,
    staged: Result<String, CacheError>,
    plugin_present: bool,
    result: SyBuildResult,
) -> (Completion, Vec<String>) {
    let mut staged = Some(staged);
    let mut result = Some(result);
    let mut trace = Vec::new();
    let (mut session, mut request): (Session, Request) = syqure.begin(source);
    loop {
        let response = match request {
            Request::ProbeSource { .. } => {
                trace.push(String::from("probe-source"));
                Response::SourceProbed { exists }
            }
            Request::StageToolchain => {
                trace.push(String::from("stage"));
                Response::Staged(staged.take().unwrap())
            }
            Request::ReadEnvironment => {
                trace.push(String::from("read-environment"));
                Response::Environment(no_environment())
            }
            Request::Export { .. } => {
                trace.push(String::from("export"));
                Response::Exported
            }
            Request::CleanArtifacts => {
                trace.push(String::from("clean"));
                Response::Cleaned
            }
            Request::ProbePlugin { .. } => {
                trace.push(String::from("probe-plugin"));
                Response::PluginProbed { present: plugin_present }
            }
            Request::Run { .. } => {
                trace.push(String::from("run"));
                Response::Returned(result.take().unwrap())
            }
            Request::Build { .. } => {
                trace.push(String::from("build"));
                Response::Returned(result.take().unwrap())
            }
            Request::Finish(completion) => {
                assert!(session.is_finished());
                return (completion, trace);
            }
        };
        let (next, following) = syqure.advance(session, response).unwrap();
        session = next;
        request = following;
    }
}

fn build_only() -> CompileOptions {
    let mut opts = CompileOptions::default();
    opts.run_after_build = false;
    opts
}

#[test]
fn default_options() {
    let opts = CompileOptions::default();
    assert_eq!(opts.codon_path, "codon/install");
    assert_eq!(opts.plugin, "sequre");
    assert_eq!(opts.disable_opts, vec![String::from("core-pythonic-list-addition-opt")]);
    assert!(!opts.release);
    assert!(opts.run_after_build);
    assert!(opts.program_args.is_empty());
    assert!(opts.libs.is_empty());
    assert_eq!(opts.linker_flags, "");
    assert!(!opts.quiet);
}

#[test]
fn codon_path_prefers_the_environment() {
    assert_eq!(default_codon_path(Some("/env/codon"), Some("/exe/lib/codon")), "/env/codon");
    assert_eq!(default_codon_path(Some("/env/codon"), None), "/env/codon");
    assert_eq!(default_codon_path(Some(""), Some("/exe/lib/codon")), "");
}

#[test]
fn codon_path_falls_back_to_the_bundled_directory() {
    assert_eq!(default_codon_path(None, Some("/exe/lib/codon")), "/exe/lib/codon");
    assert_eq!(bundled_codon_path("/usr/local/bin"), "/usr/local/bin/lib/codon");
}

#[test]
fn codon_path_defaults_to_the_local_install() {
    assert_eq!(default_codon_path(None, None), "codon/install");
}

#[test]
fn codon_bin_lies_in_the_installation() {
    let mut opts = CompileOptions::default();
    assert_eq!(Syqure::new(opts.clone()).codon_bin(), "codon/install/bin/codon");
    opts.codon_path = String::from("/opt/codon/");
    assert_eq!(Syqure::new(opts.clone()).codon_bin(), "/opt/codon/bin/codon");
    opts.codon_path = String::new();
    assert_eq!(Syqure::new(opts).codon_bin(), "bin/codon");
}

#[test]
fn make_opts_copies_the_options() {
    let opts = CompileOptions {
        codon_path: String::from("/opt/codon"),
        plugin: String::from("sequre"),
        disable_opts: vec![String::from("pass-a"), String::from("pass-b")],
        release: true,
        run_after_build: false,
        program_args: vec![String::from("--party"), String::from("1")],
        libs: vec![String::from("m")],
        linker_flags: String::from("-L/x"),
        quiet: true,
    };
    let call = Syqure::new(opts).make_opts("dir/prog.codon", true);
    assert_eq!(call.argv0, "/opt/codon/bin/codon");
    assert_eq!(call.input, "dir/prog.codon");
    assert_eq!(call.plugins, vec![String::from("sequre")]);
    assert_eq!(call.disabled_opts, vec![String::from("pass-a"), String::from("pass-b")]);
    assert_eq!(call.libs, vec![String::from("m")]);
    assert_eq!(call.linker_flags, "-L/x");
    assert!(call.release);
    assert!(call.standalone);
    assert!(!call.shared_lib);
    assert!(call.quiet);
}

#[test]
fn make_opts_for_a_run_is_not_standalone() {
    let call = Syqure::new(CompileOptions::default()).make_opts("p.codon", false);
    assert!(!call.standalone);
    assert!(!call.release);
    assert!(!call.quiet);
    assert!(!call.shared_lib);
    assert_eq!(call.disabled_opts, vec![String::from("core-pythonic-list-addition-opt")]);
}

#[test]
fn output_path_drops_the_source_extension() {
    assert_eq!(default_output_path("prog.codon"), "prog");
    assert_eq!(default_output_path("/work/dir/prog.codon"), "/work/dir/prog");
    assert_eq!(default_output_path("prog.py"), "prog");
    assert_eq!(default_output_path("prog.seq"), "prog");
    assert_eq!(default_output_path("prog.rs"), "prog.rs");
    assert_eq!(default_output_path("prog"), "prog");
}

#[test]
fn stale_sockets_are_told_by_their_prefix() {
    assert!(is_stale_socket("sock.0"));
    assert!(is_stale_socket("sock."));
    assert!(is_stale_socket("sock.1.2"));
    assert!(!is_stale_socket("sock"));
    assert!(!is_stale_socket("socket.0"));
    assert!(!is_stale_socket("my.sock.0"));
    assert!(!is_stale_socket("Sock.0"));
    assert!(!is_stale_socket(""));
}

fn names_and_values(assignments: &[Assignment]) -> Vec<(String, String)> {
    assignments.iter().map(|a| (a.name.clone(), a.value.clone())).collect()
}

#[test]
fn environment_is_wired_to_the_staged_toolchain() {
    let assignments = Syqure::wire_environment(ROOT, &no_environment());
    assert_eq!(
        names_and_values(&assignments),
        vec![
            (String::from("CODON_PATH"), String::from("/cache/lib/codon")),
            (String::from("CODON_STDLIB"), String::from("/cache/lib/codon/stdlib")),
            (String::from("CODON_PLUGIN_PATH"), String::from("/cache/lib/codon/plugins")),
        ]
    );
}

#[test]
fn environment_of_the_caller_wins() {
    let both = EnvironmentInputs {
        toolchain_path: Some(String::from("/mine")),
        plugin_path: Some(String::from("/mine/plugins")),
    };
    assert!(Syqure::wire_environment(ROOT, &both).is_empty());
    let plugins_only = EnvironmentInputs {
        toolchain_path: None,
        plugin_path: Some(String::from("/mine/plugins")),
    };
    assert_eq!(
        names_and_values(&Syqure::wire_environment(ROOT, &plugins_only)),
        vec![
            (String::from("CODON_PATH"), String::from("/cache/lib/codon")),
            (String::from("CODON_STDLIB"), String::from("/cache/lib/codon/stdlib")),
        ]
    );
    let toolchain_only =
        EnvironmentInputs { toolchain_path: Some(String::new()), plugin_path: None };
    assert_eq!(
        names_and_values(&Syqure::wire_environment(ROOT, &toolchain_only)),
        vec![(String::from("CODON_PLUGIN_PATH"), String::from("/cache/lib/codon/plugins"))]
    );
}

#[test]
fn plugin_in_the_staged_toolchain_is_passed_by_its_directory() {
    let syqure = Syqure::new(CompileOptions::default());
    assert_eq!(syqure.resolve_plugin(ROOT, true), "/cache/lib/codon/plugins/sequre");
    assert_eq!(syqure.resolve_plugin(ROOT, false), "sequre");
}

#[test]
fn run_with_status_zero_returns_no_path() {
    let syqure = Syqure::new(CompileOptions::default());
    let (completion, trace) =
        drive(&syqure, "dir/prog.codon", true, Ok(String::from(ROOT)), true, native(0, ""));
    assert!(matches!(completion.outcome, Ok(None)));
    assert_eq!(completion.stdout, "result: 42\n");
    assert_eq!(completion.stderr, "warning: slow\n");
    assert_eq!(
        trace,
        vec![
            "probe-source",
            "stage",
            "read-environment",
            "export",
            "clean",
            "probe-plugin",
            "run"
        ]
    );
}

#[test]
fn build_of_prog_codon_returns_the_path_without_extension() {
    let syqure = Syqure::new(build_only());
    let (completion, trace) =
        drive(&syqure, "/work/dir/prog.codon", true, Ok(String::from(ROOT)), true, native(0, ""));
    match completion.outcome {
        Ok(Some(path)) => assert_eq!(path, "/work/dir/prog"),
        other => panic!("unexpected outcome {:?}", other),
    }
    assert_eq!(completion.stdout, "result: 42\n");
    assert_eq!(
        trace,
        vec![
            "probe-source",
            "stage",
            "read-environment",
            "export",
            "clean",
            "probe-plugin",
            "build"
        ]
    );
}

#[test]
fn missing_source_fails_before_any_other_work() {
    let syqure = Syqure::new(CompileOptions::default());
    let (completion, trace) =
        drive(&syqure, "nowhere.codon", false, Ok(String::from(ROOT)), true, native(0, ""));
    match completion.outcome {
        Err(OrchestratorError::SourceNotFound { path }) => assert_eq!(path, "nowhere.codon"),
        other => panic!("unexpected outcome {:?}", other),
    }
    assert_eq!(completion.stdout, "");
    assert_eq!(completion.stderr, "");
    assert_eq!(trace, vec!["probe-source"]);
}

#[test]
fn unavailable_toolchain_fails_before_the_environment_is_touched() {
    let syqure = Syqure::new(CompileOptions::default());
    let staged = Err(CacheError::ExtractionFailed { reason: String::from("truncated archive") });
    let (completion, trace) = drive(&syqure, "prog.codon", true, staged, true, native(0, ""));
    match &completion.outcome {
        Err(OrchestratorError::ToolchainUnavailable {
            cause: CacheError::ExtractionFailed { reason },
        }) => assert_eq!(reason, "truncated archive"),
        other => panic!("unexpected outcome {:?}", other),
    }
    assert_eq!(
        completion.outcome.unwrap_err().message(),
        "toolchain unavailable: bundle extraction failed: truncated archive"
    );
    assert_eq!(trace, vec!["probe-source", "stage"]);
}

#[test]
fn failed_run_passes_the_diagnostic_and_the_output_on() {
    let syqure = Syqure::new(CompileOptions::default());
    let result = native(3, "error: name 'x' is not defined");
    let (completion, _) =
        drive(&syqure, "prog.codon", true, Ok(String::from(ROOT)), false, result);
    match &completion.outcome {
        Err(OrchestratorError::RunFailed { message }) => {
            assert_eq!(message, "error: name 'x' is not defined")
        }
        other => panic!("unexpected outcome {:?}", other),
    }
    assert_eq!(completion.stdout, "result: 42\n");
    assert_eq!(completion.stderr, "warning: slow\n");
    assert_eq!(
        completion.outcome.unwrap_err().message(),
        "codon run failed: error: name 'x' is not defined"
    );
}

#[test]
fn failed_build_passes_the_diagnostic_and_the_output_on() {
    let syqure = Syqure::new(build_only());
    let result = native(-1, "linker failed");
    let (completion, _) =
        drive(&syqure, "prog.codon", true, Ok(String::from(ROOT)), false, result);
    match &completion.outcome {
        Err(OrchestratorError::BuildFailed { message }) => assert_eq!(message, "linker failed"),
        other => panic!("unexpected outcome {:?}", other),
    }
    assert_eq!(completion.stdout, "result: 42\n");
    assert_eq!(completion.stderr, "warning: slow\n");
    assert_eq!(completion.outcome.unwrap_err().message(), "codon build failed: linker failed");
}

fn advance_to_dispatch(syqure: &Syqure, source: &str, plugin_present: bool) -> Request {
    let (session, _) = syqure.begin(source);
    let (session, _) = syqure.advance(session, Response::SourceProbed { exists: true }).unwrap();
    let (session, _) = syqure.advance(session, Response::Staged(Ok(String::from(ROOT)))).unwrap();
    let (session, _) = syqure.advance(session, Response::Environment(no_environment())).unwrap();
    let (session, _) = syqure.advance(session, Response::Exported).unwrap();
    let (session, request) = syqure.advance(session, Response::Cleaned).unwrap();
    match request {
        Request::ProbePlugin { descriptor } => {
            assert_eq!(descriptor, "/cache/lib/codon/plugins/sequre/plugin.toml")
        }
        other => panic!("unexpected request {:?}", other),
    }
    let (_, request) =
        syqure.advance(session, Response::PluginProbed { present: plugin_present }).unwrap();
    request
}

#[test]
fn run_call_carries_the_resolved_plugin_and_the_arguments() {
    let mut opts = CompileOptions::default();
    opts.program_args = vec![String::from("--skip-mhe"), String::from("2")];
    let syqure = Syqure::new(opts);
    match advance_to_dispatch(&syqure, "prog.codon", true) {
        Request::Run { opts, program_args } => {
            assert_eq!(opts.plugins, vec![String::from("/cache/lib/codon/plugins/sequre")]);
            assert_eq!(opts.input, "prog.codon");
            assert_eq!(opts.argv0, "codon/install/bin/codon");
            assert!(!opts.standalone);
            assert_eq!(program_args, vec![String::from("--skip-mhe"), String::from("2")]);
        }
        other => panic!("unexpected request {:?}", other),
    }
}

#[test]
fn unknown_plugin_is_passed_by_its_bare_name() {
    let mut opts = build_only();
    opts.plugin = String::from("custom");
    let syqure = Syqure::new(opts);
    let (session, _) = syqure.begin("a/b.py");
    let (session, _) = syqure.advance(session, Response::SourceProbed { exists: true }).unwrap();
    let (session, _) = syqure.advance(session, Response::Staged(Ok(String::from(ROOT)))).unwrap();
    let (session, _) = syqure.advance(session, Response::Environment(no_environment())).unwrap();
    let (session, _) = syqure.advance(session, Response::Exported).unwrap();
    let (session, request) = syqure.advance(session, Response::Cleaned).unwrap();
    match request {
        Request::ProbePlugin { descriptor } => {
            assert_eq!(descriptor, "/cache/lib/codon/plugins/custom/plugin.toml")
        }
        other => panic!("unexpected request {:?}", other),
    }
    let (session, request) =
        syqure.advance(session, Response::PluginProbed { present: false }).unwrap();
    assert!(!session.is_finished());
    assert_eq!(session.source(), "a/b.py");
    match request {
        Request::Build { opts, output } => {
            assert_eq!(opts.plugins, vec![String::from("custom")]);
            assert!(opts.standalone);
            assert_eq!(output, "a/b");
        }
        other => panic!("unexpected request {:?}", other),
    }
}

#[test]
fn export_request_honours_the_environment_of_the_caller() {
    let syqure = Syqure::new(CompileOptions::default());
    let (session, _) = syqure.begin("prog.codon");
    let (session, _) = syqure.advance(session, Response::SourceProbed { exists: true }).unwrap();
    let (session, request) =
        syqure.advance(session, Response::Staged(Ok(String::from(ROOT)))).unwrap();
    assert!(matches!(request, Request::ReadEnvironment));
    let inputs = EnvironmentInputs {
        toolchain_path: Some(String::from("/mine")),
        plugin_path: None,
    };
    let (_, request) = syqure.advance(session, Response::Environment(inputs)).unwrap();
    match request {
        Request::Export { assignments } => assert_eq!(
            names_and_values(&assignments),
            vec![(String::from("CODON_PLUGIN_PATH"), String::from("/cache/lib/codon/plugins"))]
        ),
        other => panic!("unexpected request {:?}", other),
    }
}

#[test]
fn response_that_answers_nothing_is_refused() {
    let syqure = Syqure::new(CompileOptions::default());
    let (session, _) = syqure.begin("prog.codon");
    assert!(syqure.advance(session, Response::Cleaned).is_none());
    let (session, _) = syqure.begin("prog.codon");
    assert!(syqure.advance(session, Response::Returned(native(0, ""))).is_none());
    let (session, _) = syqure.begin("prog.codon");
    assert!(syqure.advance(session, Response::Staged(Ok(String::from(ROOT)))).is_none());
    let (session, _) = syqure.begin("prog.codon");
    let (session, _) = syqure.advance(session, Response::SourceProbed { exists: true }).unwrap();
    assert!(syqure.advance(session, Response::SourceProbed { exists: true }).is_none());
    let (session, _) = syqure.begin("prog.codon");
    let (finished, _) =
        syqure.advance(session, Response::SourceProbed { exists: false }).unwrap();
    assert!(finished.is_finished());
    assert!(syqure.advance(finished, Response::SourceProbed { exists: true }).is_none());
}

#[test]
fn source_not_found_has_a_message() {
    let e = OrchestratorError::SourceNotFound { path: String::from("x.codon") };
    assert_eq!(e.message(), "source file not found: x.codon");
}

fn no_overrides() -> OptionOverrides {
    OptionOverrides {
        codon_path: None,
        plugin: None,
        disable_opts: None,
        release: false,
        run_after_build: true,
        program_args: None,
        libs: None,
        linker_flags: None,
    }
}

#[test]
fn overrides_without_choices_keep_the_options() {
    let mut base = CompileOptions::default();
    base.quiet = true;
    base.libs = vec![String::from("m")];
    let opts = base.clone().overridden(no_overrides());
    assert_eq!(opts.codon_path, base.codon_path);
    assert_eq!(opts.plugin, base.plugin);
    assert_eq!(opts.disable_opts, base.disable_opts);
    assert_eq!(opts.program_args, base.program_args);
    assert_eq!(opts.libs, base.libs);
    assert_eq!(opts.linker_flags, base.linker_flags);
    assert!(!opts.release);
    assert!(opts.run_after_build);
    assert!(opts.quiet);
}

#[test]
fn overrides_replace_what_they_choose() {
    let overrides = OptionOverrides {
        codon_path: Some(String::from("/opt/codon")),
        plugin: Some(String::from("custom")),
        disable_opts: Some(Vec::new()),
        release: true,
        run_after_build: false,
        program_args: Some(vec![String::from("1")]),
        libs: Some(vec![String::from("z")]),
        linker_flags: Some(String::from("-s")),
    };
    let opts = CompileOptions::default().overridden(overrides);
    assert_eq!(opts.codon_path, "/opt/codon");
    assert_eq!(opts.plugin, "custom");
    assert!(opts.disable_opts.is_empty());
    assert!(opts.release);
    assert!(!opts.run_after_build);
    assert_eq!(opts.program_args, vec![String::from("1")]);
    assert_eq!(opts.libs, vec![String::from("z")]);
    assert_eq!(opts.linker_flags, "-s");
    assert!(!opts.quiet);
}

#[test]
fn overrides_always_take_the_flags_over() {
    let mut base = CompileOptions::default();
    base.release = true;
    base.run_after_build = false;
    let opts = base.overridden(no_overrides());
    assert!(!opts.release);
    assert!(opts.run_after_build);
}
