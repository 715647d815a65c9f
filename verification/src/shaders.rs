//! Compiling the shaders.
//!
//! A build says which file to look for or which shader to compile next, is told how
//! that went, and goes on. What cannot be compiled is left as it is, with a warning.

use vstd::prelude::*;

verus! {

/// A shader to compile.
#[derive(Debug, Clone, Copy)]
pub struct ShaderJob {
    /// The file with the source.
    pub input: &'static str,
    /// The file that the compiled shader goes to.
    pub output: &'static str,
    /// The pipeline stage that the shader is for.
    pub stage: &'static str,
}

/// A [`ShaderJob`] with its names as texts.
pub struct JobView {
    pub input: Seq<char>,
    pub output: Seq<char>,
    pub stage: Seq<char>,
}

impl View for ShaderJob {
    type V = JobView;

    open spec fn view(&self) -> JobView {
        JobView { input: self.input@, output: self.output@, stage: self.stage@ }
    }
}

/// The number of shaders.
pub const SHADER_COUNT: usize = 4;

/// The shaders, in the order in which they are compiled.
pub open spec fn shader_jobs() -> Seq<JobView> {
    seq![
        JobView {
            input: "quad.vert.glsl"@,
            output: "quad.vert.spv"@,
            stage: "vertex"@,
        },
        JobView {
            input: "quad.frag.glsl"@,
            output: "quad.frag.spv"@,
            stage: "fragment"@,
        },
        JobView {
            input: "solid.vert.glsl"@,
            output: "solid.vert.spv"@,
            stage: "vertex"@,
        },
        JobView {
            input: "solid.frag.glsl"@,
            output: "solid.frag.spv"@,
            stage: "fragment"@,
        },
    ]
}

/// The `i`-th shader.
pub fn shader_job(i: usize) -> (job: ShaderJob)
    requires
        i < SHADER_COUNT,
    ensures
        job@ == shader_jobs()[i as int],
{
    match i {
        0 => ShaderJob { input: "quad.vert.glsl", output: "quad.vert.spv", stage: "vertex" },
        1 => ShaderJob { input: "quad.frag.glsl", output: "quad.frag.spv", stage: "fragment" },
        2 => ShaderJob { input: "solid.vert.glsl", output: "solid.vert.spv", stage: "vertex" },
        _ => ShaderJob { input: "solid.frag.glsl", output: "solid.frag.spv", stage: "fragment" },
    }
}

/// One argument of the shader compiler.
pub enum CompilerArgument {
    /// This text.
    Text(String),
    /// The path of the shader's source.
    InputPath,
    /// The path that the compiled shader goes to.
    OutputPath,
}

/// A [`CompilerArgument`] with its text as a sequence of characters.
pub enum ArgumentView {
    Text(Seq<char>),
    InputPath,
    OutputPath,
}

impl View for CompilerArgument {
    type V = ArgumentView;

    open spec fn view(&self) -> ArgumentView {
        match *self {
            CompilerArgument::Text(text) => ArgumentView::Text(text@),
            CompilerArgument::InputPath => ArgumentView::InputPath,
            CompilerArgument::OutputPath => ArgumentView::OutputPath,
        }
    }
}

/// The arguments that the compiler is run with for a shader, in order.
pub open spec fn compiler_arguments(job: JobView) -> Seq<ArgumentView> {
    seq![
        ArgumentView::Text("-fshader-stage="@ + job.stage),
        ArgumentView::InputPath,
        ArgumentView::Text("-o"@),
        ArgumentView::OutputPath,
    ]
}

impl ShaderJob {
    /// The arguments that the compiler is run with for this shader, in order.
    pub fn arguments(&self) -> (arguments: Vec<CompilerArgument>)
        ensures
            arguments@.map_values(|argument: CompilerArgument| argument@) == compiler_arguments(
                self@,
            ),
    {
        let arguments: Vec<CompilerArgument> = vec![
            CompilerArgument::Text(self.stage_flag()),
            CompilerArgument::InputPath,
            CompilerArgument::Text("-o".to_string()),
            CompilerArgument::OutputPath,
        ];
        assert(arguments@.map_values(|argument: CompilerArgument| argument@)
            =~= compiler_arguments(self@));
        arguments
    }

    /// The compiler flag that names the stage of this shader.
    pub fn stage_flag(&self) -> (flag: String)
        ensures
            flag@ == "-fshader-stage="@ + self@.stage,
    {
        "-fshader-stage=".to_string().concat(self.stage)
    }
}

/// How far a build has come.
#[derive(Debug, Clone, Copy, PartialEq, Eq, Structural)]
pub enum BuildState {
    /// The directory of the shaders is being looked for.
    FindingDirectory,
    /// The source of a shader is being looked for.
    FindingInput(usize),
    /// A shader is being compiled.
    Compiling(usize),
    /// The build has ended.
    Done,
}

/// What a build asks for next.
#[derive(Debug, Clone, Copy)]
pub enum BuildAction {
    /// See whether there is a directory of shaders.
    FindDirectory,
    /// See whether the source of a shader is there.
    FindInput(ShaderJob),
    /// Compile a shader.
    Compile(ShaderJob),
}

/// A [`BuildAction`] with its names as texts.
pub enum BuildActionView {
    FindDirectory,
    FindInput(JobView),
    Compile(JobView),
}

impl View for BuildAction {
    type V = BuildActionView;

    open spec fn view(&self) -> BuildActionView {
        match *self {
            BuildAction::FindDirectory => BuildActionView::FindDirectory,
            BuildAction::FindInput(job) => BuildActionView::FindInput(job@),
            BuildAction::Compile(job) => BuildActionView::Compile(job@),
        }
    }
}

/// What a build asks for at this point; nothing when it has ended.
pub open spec fn build_action(build: BuildState) -> Option<BuildActionView> {
    match build {
        BuildState::FindingDirectory => Some(BuildActionView::FindDirectory),
        BuildState::FindingInput(i) => Some(BuildActionView::FindInput(shader_jobs()[i as int])),
        BuildState::Compiling(i) => Some(BuildActionView::Compile(shader_jobs()[i as int])),
        BuildState::Done => None,
    }
}

/// Goes on to a shader, if there is one left.
pub open spec fn build_from(i: int) -> BuildState {
    if i < SHADER_COUNT {
        BuildState::FindingInput(i as usize)
    } else {
        BuildState::Done
    }
}

/// Where a build goes on to: `yes` says that what was looked for is there, or that
/// the compiler succeeded.
pub open spec fn build_step(build: BuildState, yes: bool) -> BuildState {
    match build {
        BuildState::FindingDirectory => if yes {
            build_from(0)
        } else {
            BuildState::Done
        },
        BuildState::FindingInput(i) => if yes {
            BuildState::Compiling(i)
        } else {
            build_from(i + 1)
        },
        BuildState::Compiling(i) => build_from(i + 1),
        BuildState::Done => BuildState::Done,
    }
}

/// The warning that goes with a step.
pub open spec fn build_warning(build: BuildState, yes: bool) -> Option<Seq<char>> {
    match build {
        BuildState::FindingDirectory => if yes {
            None
        } else {
            Some("Shader directory not found, skipping compilation"@)
        },
        BuildState::Compiling(_) => if yes {
            None
        } else {
            Some("glslc unavailable, using pre-compiled shaders"@)
        },
        _ => None,
    }
}

/// A build of the shaders.
pub struct ShaderBuild {
    state: BuildState,
}

impl View for ShaderBuild {
    type V = BuildState;

    closed spec fn view(&self) -> BuildState {
        self.state
    }
}

impl ShaderBuild {
    #[verifier::type_invariant]
    spec fn names_a_shader(self) -> bool {
        match self.state {
            BuildState::FindingInput(i) => i < SHADER_COUNT,
            BuildState::Compiling(i) => i < SHADER_COUNT,
            _ => true,
        }
    }

    /// What to do next; nothing when the build has ended.
    pub fn action(&self) -> (action: Option<BuildAction>)
        ensures
            action is Some <==> build_action(self@) is Some,
            action is Some ==> action->0@ == build_action(self@)->0,
    {
        proof {
            use_type_invariant(self);
        }
        match self.state {
            BuildState::FindingDirectory => Some(BuildAction::FindDirectory),
            BuildState::FindingInput(i) => Some(BuildAction::FindInput(shader_job(i))),
            BuildState::Compiling(i) => Some(BuildAction::Compile(shader_job(i))),
            BuildState::Done => None,
        }
    }

    fn go_on_from(i: usize) -> (build: ShaderBuild)
        ensures
            build@ == build_from(i as int),
    {
        if i < SHADER_COUNT {
            ShaderBuild { state: BuildState::FindingInput(i) }
        } else {
            ShaderBuild { state: BuildState::Done }
        }
    }

    /// Goes on: `yes` says that what was looked for is there, or that the compiler
    /// succeeded. The text is a warning to give.
    pub fn advance(self, yes: bool) -> (r: (ShaderBuild, Option<&'static str>))
        ensures
            r.0@ == build_step(self@, yes),
            r.1 is Some <==> build_warning(self@, yes) is Some,
            r.1 is Some ==> r.1->0@ == build_warning(self@, yes)->0,
    {
        proof {
            use_type_invariant(&self);
        }
        match self.state {
            BuildState::FindingDirectory => if yes {
                (Self::go_on_from(0), None)
            } else {
                (
                    ShaderBuild { state: BuildState::Done },
                    Some("Shader directory not found, skipping compilation"),
                )
            },
            BuildState::FindingInput(i) => if yes {
                (ShaderBuild { state: BuildState::Compiling(i) }, None)
            } else {
                (Self::go_on_from(i + 1), None)
            },
            BuildState::Compiling(i) => {
                let next = Self::go_on_from(i + 1);
                if yes {
                    (next, None)
                } else {
                    (next, Some("glslc unavailable, using pre-compiled shaders"))
                }
            },
            BuildState::Done => (self, None),
        }
    }
}

/// Compile the shaders: starts by looking for their directory.
pub fn compile_shaders() -> (build: ShaderBuild)
    ensures
        build@ == BuildState::FindingDirectory,
{
    ShaderBuild { state: BuildState::FindingDirectory }
}

/// How many steps a build has at most before it.
pub open spec fn steps_left(build: BuildState) -> nat {
    match build {
        BuildState::FindingDirectory => 2 * SHADER_COUNT as nat + 1,
        BuildState::FindingInput(i) => if i < SHADER_COUNT {
            (2 * (SHADER_COUNT - i)) as nat
        } else {
            2
        },
        BuildState::Compiling(i) => if i < SHADER_COUNT {
            (2 * (SHADER_COUNT - i) - 1) as nat
        } else {
            1
        },
        BuildState::Done => 0,
    }
}

/// The shaders that are compiled from here on, in order, where `present` says which
/// sources there are and `directory` whether there is a directory of shaders.
pub open spec fn compiled(build: BuildState, directory: bool, present: spec_fn(int) -> bool) -> Seq<
    int,
>
    decreases steps_left(build),
{
    match build {
        BuildState::FindingDirectory => compiled(
            build_step(build, directory),
            directory,
            present,
        ),
        BuildState::FindingInput(i) => compiled(
            build_step(build, present(i as int)),
            directory,
            present,
        ),
        BuildState::Compiling(i) => seq![i as int] + compiled(
            build_step(build, true),
            directory,
            present,
        ),
        BuildState::Done => seq![],
    }
}

/// The shaders from the `i`-th on whose sources are there.
pub open spec fn present_from(i: int, present: spec_fn(int) -> bool) -> Seq<int>
    decreases SHADER_COUNT - i,
{
    if i >= SHADER_COUNT {
        seq![]
    } else if present(i) {
        seq![i] + present_from(i + 1, present)
    } else {
        present_from(i + 1, present)
    }
}

proof fn lemma_compiled_from(i: int, directory: bool, present: spec_fn(int) -> bool)
    requires
        0 <= i <= SHADER_COUNT,
    ensures
        compiled(build_from(i), directory, present) == present_from(i, present),
    decreases SHADER_COUNT - i,
{
    if i < SHADER_COUNT {
        lemma_compiled_from(i + 1, directory, present);
        reveal_with_fuel(compiled, 3);
    }
}

/// A build compiles exactly the shaders whose sources are there, each once and in
/// order, and none where there is no directory of shaders.
pub proof fn law_present_shaders_are_compiled(directory: bool, present: spec_fn(int) -> bool)
    ensures
        compiled(BuildState::FindingDirectory, directory, present) == (if directory {
            present_from(0, present)
        } else {
            seq![]
        }),
{
    if directory {
        lemma_compiled_from(0, directory, present);
    }
    reveal_with_fuel(compiled, 2);
}

/// A failure to compile changes nothing but the warning: the build goes on to the
/// same shader as after a success.
pub proof fn law_failed_compilation_only_warns(build: BuildState)
    requires
        build is Compiling,
    ensures
        build_step(build, false) == build_step(build, true),
        build_warning(build, true) is None,
        build_warning(build, false) == Some("glslc unavailable, using pre-compiled shaders"@),
{
}

} // verus!
