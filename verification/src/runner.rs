//! The compile-or-run facade.
//!
//! One invocation is a fixed line of steps: validate the source, stage the toolchain, wire
//! the environment, clean up stale sockets, resolve the plugin, and dispatch one native
//! call. Building and running share every step but the last, so that both resolve the
//! plugin and wire the environment alike.
//!
//! The facade touches neither files nor the environment nor the toolchain. A [`Session`]
//! says what to do next as a [`Request`]; the caller does it and hands the [`Response`] to
//! [`Syqure::advance`].

use crate::bundle::{CacheError, CacheErrorView};
use crate::ffi::{SyBuildResult, SyBuildResultView, SyCompileOpts, SyCompileOptsView};
use crate::path::{join, joined, strip_source_extension, without_source_extension};
use crate::text::{copy_strings, has_prefix, optional_list, optional_text, starts_with};
use vstd::prelude::*;
use vstd::string::StringExecFns;

verus! {

/// Options that control how the toolchain is invoked. One value stands for one call.
#[derive(Debug)]
pub struct CompileOptions {
    /// The root of the toolchain installation.
    pub codon_path: String,
    pub plugin: String,
    /// The optimizer passes to switch off.
    pub disable_opts: Vec<String>,
    pub release: bool,
    /// If false, only build (no run).
    pub run_after_build: bool,
    /// Extra program arguments to pass after compilation.
    pub program_args: Vec<String>,
    /// Additional libraries to link (rare).
    pub libs: Vec<String>,
    /// Extra linker flags (rare).
    pub linker_flags: String,
    /// Silence the toolchain's warnings.
    pub quiet: bool,
}

/// The mathematical content of a [`CompileOptions`].
pub struct CompileOptionsView {
    pub codon_path: Seq<char>,
    pub plugin: Seq<char>,
    pub disable_opts: Seq<Seq<char>>,
    pub release: bool,
    pub run_after_build: bool,
    pub program_args: Seq<Seq<char>>,
    pub libs: Seq<Seq<char>>,
    pub linker_flags: Seq<char>,
    pub quiet: bool,
}

impl View for CompileOptions {
    type V = CompileOptionsView;

    open spec fn view(&self) -> CompileOptionsView {
        CompileOptionsView {
            codon_path: self.codon_path@,
            plugin: self.plugin@,
            disable_opts: self.disable_opts.deep_view(),
            release: self.release,
            run_after_build: self.run_after_build,
            program_args: self.program_args.deep_view(),
            libs: self.libs.deep_view(),
            linker_flags: self.linker_flags@,
            quiet: self.quiet,
        }
    }
}

impl Clone for CompileOptions {
    fn clone(&self) -> (copy: CompileOptions)
        ensures
            copy@ == self@,
    {
        CompileOptions {
            codon_path: self.codon_path.clone(),
            plugin: self.plugin.clone(),
            disable_opts: copy_strings(&self.disable_opts),
            release: self.release,
            run_after_build: self.run_after_build,
            program_args: copy_strings(&self.program_args),
            libs: copy_strings(&self.libs),
            linker_flags: self.linker_flags.clone(),
            quiet: self.quiet,
        }
    }
}

/// The options of a caller who chooses nothing: the toolchain is looked for in
/// `codon/install`, the `sequre` plugin is loaded, the list-addition pass is off, and the
/// program is run in debug mode after it is built.
pub open spec fn default_options() -> CompileOptionsView {
    CompileOptionsView {
        codon_path: "codon/install"@,
        plugin: "sequre"@,
        disable_opts: seq!["core-pythonic-list-addition-opt"@],
        release: false,
        run_after_build: true,
        program_args: Seq::empty(),
        libs: Seq::empty(),
        linker_flags: Seq::empty(),
        quiet: false,
    }
}

impl Default for CompileOptions {
    fn default() -> (options: CompileOptions)
        ensures
            options@ == default_options(),
    {
        let mut disable_opts: Vec<String> = Vec::new();
        disable_opts.push(String::from_str("core-pythonic-list-addition-opt"));
        let options = CompileOptions {
            codon_path: String::from_str("codon/install"),
            plugin: String::from_str("sequre"),
            disable_opts,
            release: false,
            run_after_build: true,
            program_args: Vec::new(),
            libs: Vec::new(),
            linker_flags: String::new(),
            quiet: false,
        };
        proof {
            assert(options.disable_opts.deep_view() =~= default_options().disable_opts);
            assert(options.program_args.deep_view() =~= default_options().program_args);
            assert(options.libs.deep_view() =~= default_options().libs);
        }
        options
    }
}

/// What a caller wants to differ from the options at hand. A choice that is `None` leaves
/// the option as it is; the two flags are always taken over.
#[derive(Debug)]
pub struct OptionOverrides {
    pub codon_path: Option<String>,
    pub plugin: Option<String>,
    pub disable_opts: Option<Vec<String>>,
    pub release: bool,
    pub run_after_build: bool,
    pub program_args: Option<Vec<String>>,
    pub libs: Option<Vec<String>>,
    pub linker_flags: Option<String>,
}

/// The mathematical content of an [`OptionOverrides`].
pub struct OptionOverridesView {
    pub codon_path: Option<Seq<char>>,
    pub plugin: Option<Seq<char>>,
    pub disable_opts: Option<Seq<Seq<char>>>,
    pub release: bool,
    pub run_after_build: bool,
    pub program_args: Option<Seq<Seq<char>>>,
    pub libs: Option<Seq<Seq<char>>>,
    pub linker_flags: Option<Seq<char>>,
}

impl View for OptionOverrides {
    type V = OptionOverridesView;

    open spec fn view(&self) -> OptionOverridesView {
        OptionOverridesView {
            codon_path: optional_text(self.codon_path),
            plugin: optional_text(self.plugin),
            disable_opts: optional_list(self.disable_opts),
            release: self.release,
            run_after_build: self.run_after_build,
            program_args: optional_list(self.program_args),
            libs: optional_list(self.libs),
            linker_flags: optional_text(self.linker_flags),
        }
    }
}

/// `base` with the choices of `overrides` in place.
pub open spec fn overlaid(base: CompileOptionsView, overrides: OptionOverridesView) -> CompileOptionsView {
    CompileOptionsView {
        codon_path: match overrides.codon_path {
            Some(path) => path,
            None => base.codon_path,
        },
        plugin: match overrides.plugin {
            Some(plugin) => plugin,
            None => base.plugin,
        },
        disable_opts: match overrides.disable_opts {
            Some(list) => list,
            None => base.disable_opts,
        },
        release: overrides.release,
        run_after_build: overrides.run_after_build,
        program_args: match overrides.program_args {
            Some(list) => list,
            None => base.program_args,
        },
        libs: match overrides.libs {
            Some(list) => list,
            None => base.libs,
        },
        linker_flags: match overrides.linker_flags {
            Some(flags) => flags,
            None => base.linker_flags,
        },
        quiet: base.quiet,
    }
}

impl CompileOptions {
    /// Puts the choices of `overrides` in place of the options at hand.
    pub fn overridden(self, overrides: OptionOverrides) -> (options: CompileOptions)
        ensures
            options@ == overlaid(self@, overrides@),
    {
        let CompileOptions {
            codon_path,
            plugin,
            disable_opts,
            release: _,
            run_after_build: _,
            program_args,
            libs,
            linker_flags,
            quiet,
        } = self;
        CompileOptions {
            codon_path: match overrides.codon_path {
                Some(path) => path,
                None => codon_path,
            },
            plugin: match overrides.plugin {
                Some(chosen) => chosen,
                None => plugin,
            },
            disable_opts: match overrides.disable_opts {
                Some(list) => list,
                None => disable_opts,
            },
            release: overrides.release,
            run_after_build: overrides.run_after_build,
            program_args: match overrides.program_args {
                Some(list) => list,
                None => program_args,
            },
            libs: match overrides.libs {
                Some(list) => list,
                None => libs,
            },
            linker_flags: match overrides.linker_flags {
                Some(flags) => flags,
                None => linker_flags,
            },
            quiet,
        }
    }
}

/// Where the toolchain is installed: the directory that the environment names, else the
/// bundled directory beside the executable, else `codon/install`.
pub open spec fn codon_path_of(env_path: Option<Seq<char>>, bundled: Option<Seq<char>>) -> Seq<
    char,
> {
    match env_path {
        Some(path) => path,
        None => match bundled {
            Some(dir) => dir,
            None => "codon/install"@,
        },
    }
}

/// The directory beside the executable in which a packaged toolchain lies.
pub fn bundled_codon_path(executable_dir: &str) -> (dir: String)
    ensures
        dir@ == joined(executable_dir@, "lib/codon"@),
{
    join(executable_dir, "lib/codon")
}

/// Chooses the toolchain installation. `env_path` is what the environment names, `bundled`
/// the directory beside the executable where it exists.
pub fn default_codon_path(env_path: Option<&str>, bundled: Option<&str>) -> (path: String)
    ensures
        path@ == codon_path_of(
            match env_path {
                Some(p) => Some(p@),
                None => None,
            },
            match bundled {
                Some(d) => Some(d@),
                None => None,
            },
        ),
{
    match env_path {
        Some(path) => String::from_str(path),
        None => match bundled {
            Some(dir) => String::from_str(dir),
            None => String::from_str("codon/install"),
        },
    }
}

/// The output of a build: the source path without its source extension.
pub fn default_output_path(source: &str) -> (output: String)
    ensures
        output@ == without_source_extension(source@),
{
    strip_source_extension(source)
}

/// Socket files that an aborted run has left behind are named `sock.` and something.
pub open spec fn stale_socket_name(name: Seq<char>) -> bool {
    has_prefix(name, "sock."@)
}

/// Tests whether a file of this name is a stale socket, to be deleted before a run.
pub fn is_stale_socket(name: &str) -> (r: bool)
    ensures
        r == stale_socket_name(name@),
{
    starts_with(name, "sock.")
}

/// Why an invocation failed.
#[derive(Debug)]
pub enum OrchestratorError {
    /// The source file does not exist.
    SourceNotFound { path: String },
    /// The toolchain could not be staged.
    ToolchainUnavailable { cause: CacheError },
    /// The native run call returned a status other than zero; `message` is its diagnostic.
    RunFailed { message: String },
    /// The native build call returned a status other than zero; `message` is its
    /// diagnostic.
    BuildFailed { message: String },
}

/// The mathematical content of an [`OrchestratorError`].
pub enum OrchestratorErrorView {
    SourceNotFound { path: Seq<char> },
    ToolchainUnavailable { cause: CacheErrorView },
    RunFailed { message: Seq<char> },
    BuildFailed { message: Seq<char> },
}

impl View for OrchestratorError {
    type V = OrchestratorErrorView;

    open spec fn view(&self) -> OrchestratorErrorView {
        match self {
            OrchestratorError::SourceNotFound { path } => OrchestratorErrorView::SourceNotFound {
                path: path@,
            },
            OrchestratorError::ToolchainUnavailable {
                cause,
            } => OrchestratorErrorView::ToolchainUnavailable { cause: cause@ },
            OrchestratorError::RunFailed { message } => OrchestratorErrorView::RunFailed {
                message: message@,
            },
            OrchestratorError::BuildFailed { message } => OrchestratorErrorView::BuildFailed {
                message: message@,
            },
        }
    }
}

impl OrchestratorError {
    /// What [`OrchestratorError::message`] returns. The toolchain's diagnostic is passed
    /// through as it is.
    pub open spec fn message_text(&self) -> Seq<char> {
        match self {
            OrchestratorError::SourceNotFound { path } => "source file not found: "@ + path@,
            OrchestratorError::ToolchainUnavailable { cause } => "toolchain unavailable: "@
                + cause.message_text(),
            OrchestratorError::RunFailed { message } => "codon run failed: "@ + message@,
            OrchestratorError::BuildFailed { message } => "codon build failed: "@ + message@,
        }
    }

    /// The message shown to the caller.
    pub fn message(&self) -> (text: String)
        ensures
            text@ == self.message_text(),
    {
        match self {
            OrchestratorError::SourceNotFound { path } => String::from_str(
                "source file not found: ",
            ).concat(path.as_str()),
            OrchestratorError::ToolchainUnavailable { cause } => String::from_str(
                "toolchain unavailable: ",
            ).concat(cause.message().as_str()),
            OrchestratorError::RunFailed { message } => String::from_str(
                "codon run failed: ",
            ).concat(message.as_str()),
            OrchestratorError::BuildFailed { message } => String::from_str(
                "codon build failed: ",
            ).concat(message.as_str()),
        }
    }
}

/// What the caller had set in the environment before the invocation.
#[derive(Debug)]
pub struct EnvironmentInputs {
    /// The value of the toolchain search path, `CODON_PATH`.
    pub toolchain_path: Option<String>,
    /// The value of the plugin search path, `CODON_PLUGIN_PATH`.
    pub plugin_path: Option<String>,
}

/// The mathematical content of an [`EnvironmentInputs`].
pub struct EnvironmentInputsView {
    pub toolchain_path: Option<Seq<char>>,
    pub plugin_path: Option<Seq<char>>,
}

impl View for EnvironmentInputs {
    type V = EnvironmentInputsView;

    open spec fn view(&self) -> EnvironmentInputsView {
        EnvironmentInputsView {
            toolchain_path: optional_text(self.toolchain_path),
            plugin_path: optional_text(self.plugin_path),
        }
    }
}

/// One environment variable to set.
#[derive(Debug)]
pub struct Assignment {
    pub name: String,
    pub value: String,
}

/// The mathematical content of an [`Assignment`].
pub struct AssignmentView {
    pub name: Seq<char>,
    pub value: Seq<char>,
}

impl View for Assignment {
    type V = AssignmentView;

    open spec fn view(&self) -> AssignmentView {
        AssignmentView { name: self.name@, value: self.value@ }
    }
}

/// The views of a list of assignments.
pub open spec fn assignment_views(list: Seq<Assignment>) -> Seq<AssignmentView> {
    Seq::new(list.len(), |i: int| list[i]@)
}

/// The variable that names the toolchain search path.
pub const TOOLCHAIN_PATH_VARIABLE: &'static str = "CODON_PATH";

/// The variable that names the directory of the standard library.
pub const STDLIB_VARIABLE: &'static str = "CODON_STDLIB";

/// The variable that names the plugin search path.
pub const PLUGIN_PATH_VARIABLE: &'static str = "CODON_PLUGIN_PATH";

/// The file that marks a directory as a plugin.
pub const PLUGIN_DESCRIPTOR: &'static str = "plugin.toml";

/// The standard library of the toolchain staged at `root`.
pub open spec fn stdlib_dir(root: Seq<char>) -> Seq<char> {
    joined(root, "stdlib"@)
}

/// The plugins of the toolchain staged at `root`.
pub open spec fn plugins_dir(root: Seq<char>) -> Seq<char> {
    joined(root, "plugins"@)
}

/// The variables to set for the toolchain staged at `root`. The caller's environment
/// always wins: the toolchain search path, and with it the standard library, is set only
/// where the caller has not set the search path, and the plugin search path only where
/// the caller has not set that.
pub open spec fn exports(root: Seq<char>, inputs: EnvironmentInputsView) -> Seq<AssignmentView> {
    (if inputs.toolchain_path is None {
        seq![
            AssignmentView { name: TOOLCHAIN_PATH_VARIABLE@, value: root },
            AssignmentView { name: STDLIB_VARIABLE@, value: stdlib_dir(root) },
        ]
    } else {
        Seq::empty()
    }) + (if inputs.plugin_path is None {
        seq![AssignmentView { name: PLUGIN_PATH_VARIABLE@, value: plugins_dir(root) }]
    } else {
        Seq::empty()
    })
}

/// The directory in which the plugin `plugin` of the toolchain staged at `root` lies.
pub open spec fn plugin_dir(root: Seq<char>, plugin: Seq<char>) -> Seq<char> {
    joined(plugins_dir(root), plugin)
}

/// The descriptor file whose presence makes `plugin` a plugin of the staged toolchain.
pub open spec fn plugin_descriptor(root: Seq<char>, plugin: Seq<char>) -> Seq<char> {
    joined(plugin_dir(root, plugin), PLUGIN_DESCRIPTOR@)
}

/// What is passed to the toolchain for `plugin`: its directory in the staged toolchain
/// where the descriptor was found there, and the bare name otherwise, which leaves the
/// resolution to the toolchain.
pub open spec fn resolved_plugin(root: Seq<char>, plugin: Seq<char>, descriptor_found: bool) -> Seq<
    char,
> {
    if descriptor_found {
        plugin_dir(root, plugin)
    } else {
        plugin
    }
}

/// The entry point of the toolchain installed at `codon_path`.
pub open spec fn entry_point(codon_path: Seq<char>) -> Seq<char> {
    joined(codon_path, "bin/codon"@)
}

/// The parameters of the native call for `source` with the plugin reference `plugin`.
pub open spec fn call_options(
    options: CompileOptionsView,
    source: Seq<char>,
    plugin: Seq<char>,
    standalone: bool,
) -> SyCompileOptsView {
    SyCompileOptsView {
        argv0: entry_point(options.codon_path),
        input: source,
        plugins: seq![plugin],
        disabled_opts: options.disable_opts,
        libs: options.libs,
        linker_flags: options.linker_flags,
        release: options.release,
        standalone,
        shared_lib: false,
        quiet: options.quiet,
    }
}

/// What an invocation hands to its caller. The captured output of the native call is
/// there whether the call succeeded or not.
#[derive(Debug)]
pub struct Completion {
    /// The path of the built artifact after a build, nothing after a run.
    pub outcome: Result<Option<String>, OrchestratorError>,
    pub stdout: String,
    pub stderr: String,
}

/// The mathematical content of a [`Completion`].
pub struct CompletionView {
    pub outcome: Result<Option<Seq<char>>, OrchestratorErrorView>,
    pub stdout: Seq<char>,
    pub stderr: Seq<char>,
}

impl View for Completion {
    type V = CompletionView;

    open spec fn view(&self) -> CompletionView {
        CompletionView {
            outcome: match self.outcome {
                Ok(Some(path)) => Ok(Some(path@)),
                Ok(None) => Ok(None),
                Err(e) => Err(e@),
            },
            stdout: self.stdout@,
            stderr: self.stderr@,
        }
    }
}

/// What the caller is asked to do next.
#[derive(Debug)]
pub enum Request {
    /// Report whether the file `path` exists.
    ProbeSource { path: String },
    /// Make the bundle cache ready and report the toolchain directory.
    StageToolchain,
    /// Report what the environment holds.
    ReadEnvironment,
    /// Set these environment variables.
    Export { assignments: Vec<Assignment> },
    /// Delete the stale sockets below the working directory. Failures are of no interest.
    CleanArtifacts,
    /// Report whether the file `descriptor` exists.
    ProbePlugin { descriptor: String },
    /// Make the native run call.
    Run { opts: SyCompileOpts, program_args: Vec<String> },
    /// Make the native build call, which writes to `output`.
    Build { opts: SyCompileOpts, output: String },
    /// Nothing more: hand this to the caller.
    Finish(Completion),
}

/// The mathematical content of a [`Request`].
pub enum RequestView {
    ProbeSource { path: Seq<char> },
    StageToolchain,
    ReadEnvironment,
    Export { assignments: Seq<AssignmentView> },
    CleanArtifacts,
    ProbePlugin { descriptor: Seq<char> },
    Run { opts: SyCompileOptsView, program_args: Seq<Seq<char>> },
    Build { opts: SyCompileOptsView, output: Seq<char> },
    Finish(CompletionView),
}

impl View for Request {
    type V = RequestView;

    open spec fn view(&self) -> RequestView {
        match self {
            Request::ProbeSource { path } => RequestView::ProbeSource { path: path@ },
            Request::StageToolchain => RequestView::StageToolchain,
            Request::ReadEnvironment => RequestView::ReadEnvironment,
            Request::Export { assignments } => RequestView::Export {
                assignments: assignment_views(assignments@),
            },
            Request::CleanArtifacts => RequestView::CleanArtifacts,
            Request::ProbePlugin { descriptor } => RequestView::ProbePlugin {
                descriptor: descriptor@,
            },
            Request::Run { opts, program_args } => RequestView::Run {
                opts: opts@,
                program_args: program_args.deep_view(),
            },
            Request::Build { opts, output } => RequestView::Build { opts: opts@, output: output@ },
            Request::Finish(completion) => RequestView::Finish(completion@),
        }
    }
}

/// What the caller reports back.
#[derive(Debug)]
pub enum Response {
    /// Answers `ProbeSource`.
    SourceProbed { exists: bool },
    /// Answers `StageToolchain` with the toolchain directory.
    Staged(Result<String, CacheError>),
    /// Answers `ReadEnvironment`.
    Environment(EnvironmentInputs),
    /// Answers `Export`.
    Exported,
    /// Answers `CleanArtifacts`.
    Cleaned,
    /// Answers `ProbePlugin`.
    PluginProbed { present: bool },
    /// Answers `Run` and `Build`.
    Returned(SyBuildResult),
}

/// The mathematical content of a [`Response`].
pub enum ResponseView {
    SourceProbed { exists: bool },
    Staged(Result<Seq<char>, CacheErrorView>),
    Environment(EnvironmentInputsView),
    Exported,
    Cleaned,
    PluginProbed { present: bool },
    Returned(SyBuildResultView),
}

impl View for Response {
    type V = ResponseView;

    open spec fn view(&self) -> ResponseView {
        match self {
            Response::SourceProbed { exists } => ResponseView::SourceProbed { exists: *exists },
            Response::Staged(Ok(root)) => ResponseView::Staged(Ok(root@)),
            Response::Staged(Err(e)) => ResponseView::Staged(Err(e@)),
            Response::Environment(inputs) => ResponseView::Environment(inputs@),
            Response::Exported => ResponseView::Exported,
            Response::Cleaned => ResponseView::Cleaned,
            Response::PluginProbed { present } => ResponseView::PluginProbed {
                present: *present,
            },
            Response::Returned(result) => ResponseView::Returned(result@),
        }
    }
}

/// How far an invocation has come, and what it has learnt so far.
#[derive(Debug)]
pub enum Phase {
    /// Waiting to hear whether the source exists.
    Validating,
    /// Waiting for the toolchain.
    Staging,
    /// Waiting for the environment of the caller.
    ReadingEnvironment { root: String },
    /// Waiting for the variables to be set.
    Exporting { root: String },
    /// Waiting for the stale sockets to be deleted.
    Cleaning { root: String },
    /// Waiting to hear whether the plugin lies in the staged toolchain.
    ResolvingPlugin { root: String },
    /// Waiting for the native run call.
    Running,
    /// Waiting for the native build call.
    Building { output: String },
    /// Nothing is pending.
    Finished,
}

/// The mathematical content of a [`Phase`].
pub enum PhaseView {
    Validating,
    Staging,
    ReadingEnvironment { root: Seq<char> },
    Exporting { root: Seq<char> },
    Cleaning { root: Seq<char> },
    ResolvingPlugin { root: Seq<char> },
    Running,
    Building { output: Seq<char> },
    Finished,
}

impl View for Phase {
    type V = PhaseView;

    open spec fn view(&self) -> PhaseView {
        match self {
            Phase::Validating => PhaseView::Validating,
            Phase::Staging => PhaseView::Staging,
            Phase::ReadingEnvironment { root } => PhaseView::ReadingEnvironment { root: root@ },
            Phase::Exporting { root } => PhaseView::Exporting { root: root@ },
            Phase::Cleaning { root } => PhaseView::Cleaning { root: root@ },
            Phase::ResolvingPlugin { root } => PhaseView::ResolvingPlugin { root: root@ },
            Phase::Running => PhaseView::Running,
            Phase::Building { output } => PhaseView::Building { output: output@ },
            Phase::Finished => PhaseView::Finished,
        }
    }
}

/// One invocation under way. Only [`Syqure::begin`] and [`Syqure::advance`] make sessions,
/// so a session is in a phase only after the phases before it.
#[derive(Debug)]
pub struct Session {
    source: String,
    phase: Phase,
}

/// The mathematical content of a [`Session`].
pub struct SessionView {
    pub source: Seq<char>,
    pub phase: PhaseView,
}

impl View for Session {
    type V = SessionView;

    closed spec fn view(&self) -> SessionView {
        SessionView { source: self.source@, phase: self.phase@ }
    }
}

/// The completion of an invocation that failed before any native call.
pub open spec fn failed_early(error: OrchestratorErrorView) -> RequestView {
    RequestView::Finish(
        CompletionView { outcome: Err(error), stdout: Seq::empty(), stderr: Seq::empty() },
    )
}

/// The completion of an invocation whose native call has returned `result`. A status other
/// than zero fails the invocation with the diagnostic of the call; a build that succeeded
/// yields `output`. The captured output is handed on either way.
pub open spec fn completed(result: SyBuildResultView, output: Option<Seq<char>>) -> RequestView {
    RequestView::Finish(
        CompletionView {
            outcome: if result.status != 0 {
                match output {
                    None => Err(OrchestratorErrorView::RunFailed { message: result.error }),
                    Some(_) => Err(OrchestratorErrorView::BuildFailed { message: result.error }),
                }
            } else {
                Ok(output)
            },
            stdout: result.stdout_output,
            stderr: result.stderr_output,
        },
    )
}

/// The native call to dispatch for `source` once the plugin is resolved: the run call with
/// the program arguments where the options ask to run, and the build call with the default
/// output path where they do not.
pub open spec fn dispatch(options: CompileOptionsView, source: Seq<char>, plugin: Seq<char>) -> (
    PhaseView,
    RequestView,
) {
    if options.run_after_build {
        (
            PhaseView::Running,
            RequestView::Run {
                opts: call_options(options, source, plugin, false),
                program_args: options.program_args,
            },
        )
    } else {
        (
            PhaseView::Building { output: without_source_extension(source) },
            RequestView::Build {
                opts: call_options(options, source, plugin, true),
                output: without_source_extension(source),
            },
        )
    }
}

/// The step that `response` makes in `phase`: the next phase and the next request. There
/// is none where the response does not answer the pending request.
pub open spec fn next(
    options: CompileOptionsView,
    source: Seq<char>,
    phase: PhaseView,
    response: ResponseView,
) -> Option<(PhaseView, RequestView)> {
    match (phase, response) {
        (PhaseView::Validating, ResponseView::SourceProbed { exists }) => Some(
            if exists {
                (PhaseView::Staging, RequestView::StageToolchain)
            } else {
                (
                    PhaseView::Finished,
                    failed_early(OrchestratorErrorView::SourceNotFound { path: source }),
                )
            },
        ),
        (PhaseView::Staging, ResponseView::Staged(staged)) => Some(
            match staged {
                Ok(root) => (PhaseView::ReadingEnvironment { root }, RequestView::ReadEnvironment),
                Err(cause) => (
                    PhaseView::Finished,
                    failed_early(OrchestratorErrorView::ToolchainUnavailable { cause }),
                ),
            },
        ),
        (PhaseView::ReadingEnvironment { root }, ResponseView::Environment(inputs)) => Some(
            (PhaseView::Exporting { root }, RequestView::Export { assignments: exports(root, inputs) }),
        ),
        (PhaseView::Exporting { root }, ResponseView::Exported) => Some(
            (PhaseView::Cleaning { root }, RequestView::CleanArtifacts),
        ),
        (PhaseView::Cleaning { root }, ResponseView::Cleaned) => Some(
            (
                PhaseView::ResolvingPlugin { root },
                RequestView::ProbePlugin { descriptor: plugin_descriptor(root, options.plugin) },
            ),
        ),
        (PhaseView::ResolvingPlugin { root }, ResponseView::PluginProbed { present }) => Some(
            dispatch(options, source, resolved_plugin(root, options.plugin, present)),
        ),
        (PhaseView::Running, ResponseView::Returned(result)) => Some(
            (PhaseView::Finished, completed(result, None)),
        ),
        (PhaseView::Building { output }, ResponseView::Returned(result)) => Some(
            (PhaseView::Finished, completed(result, Some(output))),
        ),
        _ => None,
    }
}

/// High-level facade for compiling and running sources with the toolchain.
#[derive(Debug)]
pub struct Syqure {
    opts: CompileOptions,
}

impl View for Syqure {
    type V = CompileOptionsView;

    closed spec fn view(&self) -> CompileOptionsView {
        self.opts@
    }
}

impl Syqure {
    /// Makes a facade with the given options.
    pub fn new(opts: CompileOptions) -> (syqure: Syqure)
        ensures
            syqure@ == opts@,
    {
        Self { opts }
    }

    /// The entry point of the toolchain.
    pub fn codon_bin(&self) -> (path: String)
        ensures
            path@ == entry_point(self@.codon_path),
    {
        join(self.opts.codon_path.as_str(), "bin/codon")
    }

    /// The parameters of the native call for `source` with the configured plugin.
    pub fn make_opts(&self, source: &str, standalone: bool) -> (opts: SyCompileOpts)
        ensures
            opts@ == call_options(self@, source@, self@.plugin, standalone),
    {
        self.call_with(source, self.opts.plugin.clone(), standalone)
    }

    /// The parameters of the native call for `source` with the plugin reference `plugin`.
    fn call_with(&self, source: &str, plugin: String, standalone: bool) -> (opts: SyCompileOpts)
        ensures
            opts@ == call_options(self@, source@, plugin@, standalone),
    {
        let mut plugins: Vec<String> = Vec::new();
        plugins.push(plugin);
        let opts = SyCompileOpts {
            argv0: self.codon_bin(),
            input: String::from_str(source),
            plugins,
            disabled_opts: copy_strings(&self.opts.disable_opts),
            libs: copy_strings(&self.opts.libs),
            linker_flags: self.opts.linker_flags.clone(),
            release: self.opts.release,
            standalone,
            shared_lib: false,
            quiet: self.opts.quiet,
        };
        proof {
            assert(opts.plugins.deep_view() =~= seq![plugin@]);
        }
        opts
    }

    /// The variables to set for the toolchain staged at `root`.
    pub fn wire_environment(root: &str, inputs: &EnvironmentInputs) -> (assignments: Vec<
        Assignment,
    >)
        ensures
            assignment_views(assignments@) == exports(root@, inputs@),
    {
        let mut assignments: Vec<Assignment> = Vec::new();
        if inputs.toolchain_path.is_none() {
            assignments.push(
                Assignment {
                    name: String::from_str(TOOLCHAIN_PATH_VARIABLE),
                    value: String::from_str(root),
                },
            );
            assignments.push(
                Assignment { name: String::from_str(STDLIB_VARIABLE), value: join(root, "stdlib") },
            );
        }
        if inputs.plugin_path.is_none() {
            assignments.push(
                Assignment {
                    name: String::from_str(PLUGIN_PATH_VARIABLE),
                    value: join(root, "plugins"),
                },
            );
        }
        proof {
            assert(assignment_views(assignments@) =~= exports(root@, inputs@));
        }
        assignments
    }

    /// The plugin reference to pass to the toolchain staged at `root`.
    pub fn resolve_plugin(&self, root: &str, descriptor_found: bool) -> (plugin: String)
        ensures
            plugin@ == resolved_plugin(root@, self@.plugin, descriptor_found),
    {
        if descriptor_found {
            join(join(root, "plugins").as_str(), self.opts.plugin.as_str())
        } else {
            self.opts.plugin.clone()
        }
    }

    /// Starts an invocation for `source`: the first thing to do is to look for the file.
    pub fn begin(&self, source: &str) -> (r: (Session, Request))
        ensures
            r.0@ == (SessionView { source: source@, phase: PhaseView::Validating }),
            r.1@ == (RequestView::ProbeSource { path: source@ }),
    {
        (
            Session { source: String::from_str(source), phase: Phase::Validating },
            Request::ProbeSource { path: String::from_str(source) },
        )
    }

    /// Takes the step that `response` makes in `session`. The result is `None` exactly
    /// where the response does not answer the request that is pending.
    pub fn advance(&self, session: Session, response: Response) -> (r: Option<(Session, Request)>)
        ensures
            match next(self@, session@.source, session@.phase, response@) {
                Some((phase, request)) => r matches Some((s, q)) && s@ == (SessionView {
                    source: session@.source,
                    phase,
                }) && q@ == request,
                None => r is None,
            },
    {
        let Session { source, phase } = session;
        match (phase, response) {
            (Phase::Validating, Response::SourceProbed { exists }) => {
                if exists {
                    Some((Session { source, phase: Phase::Staging }, Request::StageToolchain))
                } else {
                    let error = OrchestratorError::SourceNotFound { path: source.clone() };
                    Some((Session { source, phase: Phase::Finished }, fail_early(error)))
                }
            },
            (Phase::Staging, Response::Staged(staged)) => match staged {
                Ok(root) => Some(
                    (
                        Session { source, phase: Phase::ReadingEnvironment { root } },
                        Request::ReadEnvironment,
                    ),
                ),
                Err(cause) => {
                    let error = OrchestratorError::ToolchainUnavailable { cause };
                    Some((Session { source, phase: Phase::Finished }, fail_early(error)))
                },
            },
            (Phase::ReadingEnvironment { root }, Response::Environment(inputs)) => {
                let assignments = Self::wire_environment(root.as_str(), &inputs);
                Some(
                    (
                        Session { source, phase: Phase::Exporting { root } },
                        Request::Export { assignments },
                    ),
                )
            },
            (Phase::Exporting { root }, Response::Exported) => Some(
                (Session { source, phase: Phase::Cleaning { root } }, Request::CleanArtifacts),
            ),
            (Phase::Cleaning { root }, Response::Cleaned) => {
                let directory = join(join(root.as_str(), "plugins").as_str(), self.opts.plugin.as_str());
                let descriptor = join(directory.as_str(), PLUGIN_DESCRIPTOR);
                Some(
                    (
                        Session { source, phase: Phase::ResolvingPlugin { root } },
                        Request::ProbePlugin { descriptor },
                    ),
                )
            },
            (Phase::ResolvingPlugin { root }, Response::PluginProbed { present }) => {
                let plugin = self.resolve_plugin(root.as_str(), present);
                if self.opts.run_after_build {
                    let opts = self.call_with(source.as_str(), plugin, false);
                    let program_args = copy_strings(&self.opts.program_args);
                    Some(
                        (
                            Session { source, phase: Phase::Running },
                            Request::Run { opts, program_args },
                        ),
                    )
                } else {
                    let opts = self.call_with(source.as_str(), plugin, true);
                    let output = default_output_path(source.as_str());
                    let pending = output.clone();
                    Some(
                        (
                            Session { source, phase: Phase::Building { output: pending } },
                            Request::Build { opts, output },
                        ),
                    )
                }
            },
            (Phase::Running, Response::Returned(result)) => Some(
                (Session { source, phase: Phase::Finished }, complete(result, None)),
            ),
            (Phase::Building { output }, Response::Returned(result)) => Some(
                (Session { source, phase: Phase::Finished }, complete(result, Some(output))),
            ),
            _ => None,
        }
    }
}

impl Session {
    /// The source of the invocation.
    pub fn source(&self) -> (path: &str)
        ensures
            path@ == self@.source,
    {
        self.source.as_str()
    }

    /// Tests whether nothing is pending any more.
    pub fn is_finished(&self) -> (r: bool)
        ensures
            r == (self@.phase is Finished),
    {
        match self.phase {
            Phase::Finished => true,
            _ => false,
        }
    }
}

/// The completion of an invocation that failed before any native call.
fn fail_early(error: OrchestratorError) -> (request: Request)
    ensures
        request@ == failed_early(error@),
{
    Request::Finish(Completion { outcome: Err(error), stdout: String::new(), stderr: String::new() })
}

/// The completion of an invocation whose native call has returned `result`.
fn complete(result: SyBuildResult, output: Option<String>) -> (request: Request)
    ensures
        request@ == completed(
            result@,
            match output {
                Some(path) => Some(path@),
                None => None,
            },
        ),
{
    let SyBuildResult { status, output_path: _, error, stdout_output, stderr_output } = result;
    let outcome = if status != 0 {
        match output {
            None => Err(OrchestratorError::RunFailed { message: error }),
            Some(_) => Err(OrchestratorError::BuildFailed { message: error }),
        }
    } else {
        Ok(output)
    };
    Request::Finish(Completion { outcome, stdout: stdout_output, stderr: stderr_output })
}

/// The place of a phase in the line of steps.
pub open spec fn phase_rank(phase: PhaseView) -> nat {
    match phase {
        PhaseView::Validating => 0,
        PhaseView::Staging => 1,
        PhaseView::ReadingEnvironment { .. } => 2,
        PhaseView::Exporting { .. } => 3,
        PhaseView::Cleaning { .. } => 4,
        PhaseView::ResolvingPlugin { .. } => 5,
        PhaseView::Running => 6,
        PhaseView::Building { .. } => 6,
        PhaseView::Finished => 7,
    }
}

/// The line of steps has no way back: every step leads to a later phase. So no phase is
/// entered twice, and the native call, which leaves the phase before the last, is made at
/// most once.
pub proof fn steps_never_go_back(
    options: CompileOptionsView,
    source: Seq<char>,
    phase: PhaseView,
    response: ResponseView,
)
    ensures
        next(options, source, phase, response) matches Some((following, _)) ==> phase_rank(
            following,
        ) > phase_rank(phase),
{
}

/// The requests that an invocation makes when the caller gives `responses` one after the
/// other, from `phase` on. The invocation ends with the first response that answers no
/// pending request.
pub open spec fn requests_from(
    options: CompileOptionsView,
    source: Seq<char>,
    phase: PhaseView,
    responses: Seq<ResponseView>,
) -> Seq<RequestView>
    decreases responses.len(),
{
    if responses.len() == 0 {
        Seq::empty()
    } else {
        match next(options, source, phase, responses[0]) {
            None => Seq::empty(),
            Some((following, request)) => seq![request] + requests_from(
                options,
                source,
                following,
                responses.drop_first(),
            ),
        }
    }
}

/// The request hands out or asks for a built artifact.
pub open spec fn concerns_artifact(request: RequestView) -> bool {
    request is Build || (request matches RequestView::Finish(c) && c.outcome matches Ok(Some(_)))
}

/// The request asks for work on the cache, the environment, the working directory or the
/// toolchain.
pub open spec fn asks_for_work(request: RequestView) -> bool {
    !(request is ProbeSource || request is Finish)
}

/// A missing source fails the invocation at once: the only request after the probe is the
/// final one with the error, so nothing is staged, set, deleted or called.
pub proof fn missing_source_ends_the_invocation(
    options: CompileOptionsView,
    source: Seq<char>,
    responses: Seq<ResponseView>,
)
    requires
        responses.len() > 0,
        responses[0] == (ResponseView::SourceProbed { exists: false }),
    ensures
        requests_from(options, source, PhaseView::Validating, responses) == seq![
            failed_early(OrchestratorErrorView::SourceNotFound { path: source }),
        ],
        forall|i: int|
            0 <= i < requests_from(options, source, PhaseView::Validating, responses).len()
                ==> !asks_for_work(
                #[trigger] requests_from(options, source, PhaseView::Validating, responses)[i],
            ),
{
    let rest = responses.drop_first();
    assert(requests_from(options, source, PhaseView::Finished, rest) =~= Seq::empty()) by {
        if rest.len() > 0 {
            assert(next(options, source, PhaseView::Finished, rest[0]) is None);
        }
    }
    assert(requests_from(options, source, PhaseView::Validating, responses) =~= seq![
        failed_early(OrchestratorErrorView::SourceNotFound { path: source }),
    ]);
}

/// Nothing follows the end of an invocation.
proof fn lemma_finished_is_final(
    options: CompileOptionsView,
    source: Seq<char>,
    responses: Seq<ResponseView>,
)
    ensures
        requests_from(options, source, PhaseView::Finished, responses) == Seq::<
            RequestView,
        >::empty(),
{
    if responses.len() > 0 {
        assert(next(options, source, PhaseView::Finished, responses[0]) is None);
    }
}

/// The request touches the environment, the working directory or the toolchain.
pub open spec fn needs_toolchain(request: RequestView) -> bool {
    asks_for_work(request) && !(request is StageToolchain)
}

/// Work waits for its turn, whatever the caller answers: the cache is not touched before
/// the source was found, and the environment, the working directory and the toolchain are
/// not touched before the toolchain was staged.
pub proof fn work_follows_validation_and_staging(
    options: CompileOptionsView,
    source: Seq<char>,
    responses: Seq<ResponseView>,
)
    ensures
        forall|i: int|
            0 <= i < requests_from(options, source, PhaseView::Validating, responses).len()
                && asks_for_work(
                #[trigger] requests_from(options, source, PhaseView::Validating, responses)[i],
            ) ==> responses[0] == (ResponseView::SourceProbed { exists: true }),
        forall|i: int|
            0 <= i < requests_from(options, source, PhaseView::Validating, responses).len()
                && needs_toolchain(
                #[trigger] requests_from(options, source, PhaseView::Validating, responses)[i],
            ) ==> responses.len() > 1 && responses[1] matches ResponseView::Staged(Ok(_)),
{
    let all = requests_from(options, source, PhaseView::Validating, responses);
    if responses.len() > 0 {
        let after_probe = responses.drop_first();
        match next(options, source, PhaseView::Validating, responses[0]) {
            None => {},
            Some((phase, first)) => {
                let rest = requests_from(options, source, phase, after_probe);
                assert(all =~= seq![first] + rest);
                if phase is Finished {
                    lemma_finished_is_final(options, source, after_probe);
                } else {
                    assert(responses[0] == (ResponseView::SourceProbed { exists: true }));
                    assert(first is StageToolchain);
                    if after_probe.len() > 0 {
                        assert(after_probe[0] == responses[1]);
                        match next(options, source, phase, after_probe[0]) {
                            None => {},
                            Some((following, second)) => {
                                let tail = requests_from(
                                    options,
                                    source,
                                    following,
                                    after_probe.drop_first(),
                                );
                                assert(rest =~= seq![second] + tail);
                                if following is Finished {
                                    lemma_finished_is_final(
                                        options,
                                        source,
                                        after_probe.drop_first(),
                                    );
                                }
                            },
                        }
                    }
                }
            },
        }
    }
}

/// An invocation that is to run the program never derives an output path: whatever the
/// caller answers, no request asks for a build and no completion hands out an artifact.
pub proof fn run_never_concerns_an_artifact(
    options: CompileOptionsView,
    source: Seq<char>,
    responses: Seq<ResponseView>,
)
    requires
        options.run_after_build,
    ensures
        forall|i: int|
            0 <= i < requests_from(options, source, PhaseView::Validating, responses).len()
                ==> !concerns_artifact(
                #[trigger] requests_from(options, source, PhaseView::Validating, responses)[i],
            ),
{
    lemma_run_mode(options, source, PhaseView::Validating, responses);
}

/// In run mode no phase but `Building` leads to a request that concerns an artifact, and
/// `Building` is never entered.
proof fn lemma_run_mode(
    options: CompileOptionsView,
    source: Seq<char>,
    phase: PhaseView,
    responses: Seq<ResponseView>,
)
    requires
        options.run_after_build,
        !(phase is Building),
    ensures
        forall|i: int|
            0 <= i < requests_from(options, source, phase, responses).len() ==> !concerns_artifact(
                #[trigger] requests_from(options, source, phase, responses)[i],
            ),
    decreases responses.len(),
{
    if responses.len() > 0 {
        match next(options, source, phase, responses[0]) {
            None => {},
            Some((following, request)) => {
                let rest = requests_from(options, source, following, responses.drop_first());
                lemma_run_mode(options, source, following, responses.drop_first());
                let all = seq![request] + rest;
                assert(!concerns_artifact(request));
                assert forall|i: int| 0 <= i < all.len() implies !concerns_artifact(
                    #[trigger] all[i],
                ) by {
                    if i > 0 {
                        assert(all[i] == rest[i - 1]);
                    }
                }
            },
        }
    }
}

/// A successful run completes without a path, and a successful build of `source` completes
/// with the source path less its source extension.
pub proof fn success_yields_the_default_output(
    options: CompileOptionsView,
    source: Seq<char>,
    root: Seq<char>,
    present: bool,
    result: SyBuildResultView,
)
    requires
        result.status == 0,
    ensures
        ({
            let (phase, _) = dispatch(
                options,
                source,
                resolved_plugin(root, options.plugin, present),
            );
            next(options, source, phase, ResponseView::Returned(result)) == Some(
                (
                    PhaseView::Finished,
                    RequestView::Finish(
                        CompletionView {
                            outcome: Ok(
                                if options.run_after_build {
                                    None
                                } else {
                                    Some(without_source_extension(source))
                                },
                            ),
                            stdout: result.stdout_output,
                            stderr: result.stderr_output,
                        },
                    ),
                ),
            )
        }),
{
}

} // verus!
