//! The call contract of the native toolchain: the parameters of one invocation and what it
//! hands back. The toolchain itself is consumed through these two values and nothing else.

use vstd::prelude::*;

verus! {

/// The parameters of one native compile or run call.
#[derive(Debug)]
pub struct SyCompileOpts {
    /// Path of the toolchain entry point.
    pub argv0: String,
    /// Path of the source file.
    pub input: String,
    pub plugins: Vec<String>,
    pub disabled_opts: Vec<String>,
    pub libs: Vec<String>,
    pub linker_flags: String,
    pub release: bool,
    /// Build a standalone artifact instead of running.
    pub standalone: bool,
    pub shared_lib: bool,
    pub quiet: bool,
}

/// The mathematical content of a [`SyCompileOpts`].
pub struct SyCompileOptsView {
    pub argv0: Seq<char>,
    pub input: Seq<char>,
    pub plugins: Seq<Seq<char>>,
    pub disabled_opts: Seq<Seq<char>>,
    pub libs: Seq<Seq<char>>,
    pub linker_flags: Seq<char>,
    pub release: bool,
    pub standalone: bool,
    pub shared_lib: bool,
    pub quiet: bool,
}

impl View for SyCompileOpts {
    type V = SyCompileOptsView;

    open spec fn view(&self) -> SyCompileOptsView {
        SyCompileOptsView {
            argv0: self.argv0@,
            input: self.input@,
            plugins: self.plugins.deep_view(),
            disabled_opts: self.disabled_opts.deep_view(),
            libs: self.libs.deep_view(),
            linker_flags: self.linker_flags@,
            release: self.release,
            standalone: self.standalone,
            shared_lib: self.shared_lib,
            quiet: self.quiet,
        }
    }
}

/// What one native call hands back.
#[derive(Debug)]
pub struct SyBuildResult {
    /// Zero on success.
    pub status: i32,
    pub output_path: String,
    /// The toolchain's diagnostic, meaningful where `status` is not zero.
    pub error: String,
    /// What the program wrote to standard output.
    pub stdout_output: String,
    /// What the program wrote to standard error.
    pub stderr_output: String,
}

/// The mathematical content of a [`SyBuildResult`].
pub struct SyBuildResultView {
    pub status: int,
    pub output_path: Seq<char>,
    pub error: Seq<char>,
    pub stdout_output: Seq<char>,
    pub stderr_output: Seq<char>,
}

impl View for SyBuildResult {
    type V = SyBuildResultView;

    open spec fn view(&self) -> SyBuildResultView {
        SyBuildResultView {
            status: self.status as int,
            output_path: self.output_path@,
            error: self.error@,
            stdout_output: self.stdout_output@,
            stderr_output: self.stderr_output@,
        }
    }
}

} // verus!
