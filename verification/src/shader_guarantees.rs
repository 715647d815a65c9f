//! What a caller of the shader build can rely on: how the compiler is run for each
//! shader, and what a build asks for and warns of.

use vstd::prelude::*;

use crate::shaders::{
    compile_shaders, shader_job, BuildAction, BuildState, CompilerArgument, ShaderBuild, ShaderJob,
};

verus! {

/// The compiler is run with four arguments: the flag that names the job's own stage,
/// the source, the output flag and the output.
pub proof fn law_compiler_is_told_the_stage(
    job: ShaderJob,
    flag: String,
    arguments: Vec<CompilerArgument>,
)
    requires
        call_ensures(ShaderJob::stage_flag, (&job,), flag),
        call_ensures(ShaderJob::arguments, (&job,), arguments),
    ensures
        flag@ == "-fshader-stage="@ + job.stage@,
        arguments@.len() == 4,
        arguments@[0] is Text,
        arguments@[0]->Text_0@ == "-fshader-stage="@ + job.stage@,
        arguments@[1] is InputPath,
        arguments@[2] is Text,
        arguments@[2]->Text_0@ == "-o"@,
        arguments@[3] is OutputPath,
{
    let views = arguments@.map_values(|argument: CompilerArgument| argument@);
    assert(views.len() == arguments@.len());
    assert(views[0] == arguments@[0]@);
    assert(views[1] == arguments@[1]@);
    assert(views[2] == arguments@[2]@);
    assert(views[3] == arguments@[3]@);
}

/// Shaders for different stages are compiled with different first arguments, and those
/// for the same stage with the same one.
pub proof fn law_stages_are_told_apart(
    job: ShaderJob,
    other: ShaderJob,
    arguments: Vec<CompilerArgument>,
    others: Vec<CompilerArgument>,
    flag: String,
    other_flag: String,
)
    requires
        call_ensures(ShaderJob::stage_flag, (&job,), flag),
        call_ensures(ShaderJob::stage_flag, (&other,), other_flag),
        call_ensures(ShaderJob::arguments, (&job,), arguments),
        call_ensures(ShaderJob::arguments, (&other,), others),
    ensures
        arguments@[0]->Text_0@ == others@[0]->Text_0@ <==> job.stage@ == other.stage@,
{
    law_compiler_is_told_the_stage(job, flag, arguments);
    law_compiler_is_told_the_stage(other, other_flag, others);
    let label = "-fshader-stage="@;
    assert((label + job.stage@).skip(label.len() as int) =~= job.stage@);
    assert((label + other.stage@).skip(label.len() as int) =~= other.stage@);
}

/// The four shaders, in order. The vertex shaders are compiled for the vertex stage and
/// the fragment shaders for the fragment stage, each into the file of its own name.
pub proof fn law_shader_table(i: usize, job: ShaderJob)
    requires
        i < 4,
        call_ensures(shader_job, (i,), job),
    ensures
        i == 0 ==> job.input@ == "quad.vert.glsl"@ && job.output@ == "quad.vert.spv"@
            && job.stage@ == "vertex"@,
        i == 1 ==> job.input@ == "quad.frag.glsl"@ && job.output@ == "quad.frag.spv"@
            && job.stage@ == "fragment"@,
        i == 2 ==> job.input@ == "solid.vert.glsl"@ && job.output@ == "solid.vert.spv"@
            && job.stage@ == "vertex"@,
        i == 3 ==> job.input@ == "solid.frag.glsl"@ && job.output@ == "solid.frag.spv"@
            && job.stage@ == "fragment"@,
{
    assert(job@ == crate::shaders::shader_jobs()[i as int]);
}

/// A build goes on with an answer and gives the warning.
pub open spec fn build_goes_on(
    build: ShaderBuild,
    action: BuildAction,
    yes: bool,
    next: ShaderBuild,
    warning: Option<&'static str>,
) -> bool {
    &&& call_ensures(ShaderBuild::action, (&build,), Some(action))
    &&& call_ensures(ShaderBuild::advance, (build, yes), (next, warning))
}

/// A run of a new build: at each point it asked for `actions[i]`, was answered
/// `answers[i]` and gave `warnings[i]`.
pub open spec fn is_build(
    builds: Seq<ShaderBuild>,
    actions: Seq<BuildAction>,
    answers: Seq<bool>,
    warnings: Seq<Option<&'static str>>,
) -> bool {
    &&& builds.len() == answers.len() + 1
    &&& actions.len() == answers.len()
    &&& warnings.len() == answers.len()
    &&& call_ensures(compile_shaders, (), builds[0])
    &&& forall|i: int|
        #![trigger actions[i]]
        #![trigger answers[i]]
        0 <= i < answers.len() ==> build_goes_on(
            builds[i],
            actions[i],
            answers[i],
            builds[i + 1],
            warnings[i],
        )
}

proof fn lemma_build_fits(
    builds: Seq<ShaderBuild>,
    actions: Seq<BuildAction>,
    answers: Seq<bool>,
    warnings: Seq<Option<&'static str>>,
    i: int,
)
    requires
        is_build(builds, actions, answers, warnings),
        0 <= i <= answers.len(),
    ensures
        match builds[i]@ {
            BuildState::FindingDirectory => i == 0,
            BuildState::FindingInput(k) => i > 0 && k < 4,
            BuildState::Compiling(k) => i > 0 && k < 4,
            BuildState::Done => i > 0,
        },
    decreases i,
{
    if i > 0 {
        lemma_build_fits(builds, actions, answers, warnings, i - 1);
        assert(build_goes_on(
            builds[i - 1],
            actions[i - 1],
            answers[i - 1],
            builds[i - 1 + 1],
            warnings[i - 1],
        ));
    }
}

/// A build starts by looking for the directory of the shaders.
pub proof fn law_build_starts_with_directory(build: ShaderBuild, asked: Option<BuildAction>)
    requires
        call_ensures(compile_shaders, (), build),
        call_ensures(ShaderBuild::action, (&build,), asked),
    ensures
        asked is Some,
        asked->0 is FindDirectory,
{
}

/// The directory is looked for once, at the start. Without it the build ends at once,
/// with a warning; with it the source of the first shader is looked for.
pub proof fn law_after_directory(
    builds: Seq<ShaderBuild>,
    actions: Seq<BuildAction>,
    answers: Seq<bool>,
    warnings: Seq<Option<&'static str>>,
    i: int,
    asked: Option<BuildAction>,
    first: ShaderJob,
)
    requires
        is_build(builds, actions, answers, warnings),
        0 <= i < answers.len(),
        call_ensures(ShaderBuild::action, (&builds[i + 1],), asked),
        call_ensures(shader_job, (0,), first),
    ensures
        actions[i] is FindDirectory <==> i == 0,
        i == 0 && answers[0] ==> {
            &&& warnings[0] is None
            &&& asked is Some
            &&& asked->0 is FindInput
            &&& asked->0->FindInput_0.input@ == first.input@
            &&& asked->0->FindInput_0.output@ == first.output@
            &&& asked->0->FindInput_0.stage@ == first.stage@
        },
        i == 0 && !answers[0] ==> {
            &&& asked is None
            &&& warnings[0] is Some
            &&& warnings[0]->0@ == "Shader directory not found, skipping compilation"@
        },
{
    lemma_build_fits(builds, actions, answers, warnings, i);
    assert(build_goes_on(builds[i], actions[i], answers[i], builds[i + 1], warnings[i]));
}

/// A shader is compiled right after its source was found, under the same names, and
/// never otherwise. Past a shader whose source is missing, and past one that was
/// compiled or could not be, the next shader is looked for; past the last the build
/// ends. Only a compilation that failed is warned of.
pub proof fn law_after_shader(
    builds: Seq<ShaderBuild>,
    actions: Seq<BuildAction>,
    answers: Seq<bool>,
    warnings: Seq<Option<&'static str>>,
    i: int,
    asked: Option<BuildAction>,
    job: ShaderJob,
    jobs: Seq<ShaderJob>,
)
    requires
        is_build(builds, actions, answers, warnings),
        0 <= i < answers.len(),
        call_ensures(ShaderBuild::action, (&builds[i + 1],), asked),
        actions[i] == BuildAction::FindInput(job) || actions[i] == BuildAction::Compile(job),
        jobs.len() == 4,
        forall|k: int|
            0 <= k < 4 ==> call_ensures(shader_job, (k as usize,), #[trigger] jobs[k]),
    ensures
        exists|k: int|
            {
                &&& 0 <= k < 4
                &&& job.input@ == (#[trigger] jobs[k]).input@
                &&& job.output@ == jobs[k].output@
                &&& job.stage@ == jobs[k].stage@
                &&& if actions[i] is FindInput && answers[i] {
                    &&& asked is Some
                    &&& asked->0 is Compile
                    &&& asked->0->Compile_0.input@ == job.input@
                    &&& asked->0->Compile_0.output@ == job.output@
                    &&& asked->0->Compile_0.stage@ == job.stage@
                } else if k + 1 < 4 {
                    &&& asked is Some
                    &&& asked->0 is FindInput
                    &&& asked->0->FindInput_0.input@ == jobs[k + 1].input@
                    &&& asked->0->FindInput_0.output@ == jobs[k + 1].output@
                    &&& asked->0->FindInput_0.stage@ == jobs[k + 1].stage@
                } else {
                    asked is None
                }
            },
        warnings[i] is Some <==> actions[i] is Compile && !answers[i],
        warnings[i] is Some ==> warnings[i]->0@
            == "glslc unavailable, using pre-compiled shaders"@,
        actions[i] is Compile ==> i > 0 && actions[i - 1] is FindInput && answers[i - 1]
            && actions[i - 1]->FindInput_0.input@ == job.input@,
{
    lemma_build_fits(builds, actions, answers, warnings, i);
    assert(build_goes_on(builds[i], actions[i], answers[i], builds[i + 1], warnings[i]));
    let k: int = match builds[i]@ {
        BuildState::FindingInput(k) => k as int,
        BuildState::Compiling(k) => k as int,
        _ => 0,
    };
    assert(jobs[k]@ == crate::shaders::shader_jobs()[k]);
    assert(job@ == jobs[k]@);
    if k + 1 < 4 {
        assert(jobs[k + 1]@ == crate::shaders::shader_jobs()[k + 1]);
    }
    if i > 0 {
        lemma_build_fits(builds, actions, answers, warnings, i - 1);
        assert(build_goes_on(
            builds[i - 1],
            actions[i - 1],
            answers[i - 1],
            builds[i - 1 + 1],
            warnings[i - 1],
        ));
    }
    assert(job.input@ == jobs[k].input@);
}

/// The compiler is told the vertex stage for `quad.vert` and `solid.vert`, the first and
/// the third shader, and the fragment stage for the other two.
pub proof fn law_stage_of_each_shader(
    i: usize,
    job: ShaderJob,
    flag: String,
    arguments: Vec<CompilerArgument>,
)
    requires
        i < 4,
        call_ensures(shader_job, (i,), job),
        call_ensures(ShaderJob::stage_flag, (&job,), flag),
        call_ensures(ShaderJob::arguments, (&job,), arguments),
    ensures
        arguments@[0]->Text_0@ == "-fshader-stage="@ + (if i % 2 == 0 {
            "vertex"@
        } else {
            "fragment"@
        }),
{
    law_shader_table(i, job);
    law_compiler_is_told_the_stage(job, flag, arguments);
}

/// There are exactly four shaders to ask for, and a build can always be answered.
pub proof fn law_build_can_be_answered(i: usize, build: ShaderBuild, yes: bool)
    ensures
        i < 4 ==> call_requires(shader_job, (i,)),
        call_requires(ShaderBuild::action, (&build,)),
        call_requires(ShaderBuild::advance, (build, yes)),
{
}

/// A build that has ended stays ended, without a warning.
pub proof fn law_ended_build_stays_ended(
    build: ShaderBuild,
    yes: bool,
    next: ShaderBuild,
    warning: Option<&'static str>,
    asked: Option<BuildAction>,
)
    requires
        call_ensures(ShaderBuild::action, (&build,), None),
        call_ensures(ShaderBuild::advance, (build, yes), (next, warning)),
        call_ensures(ShaderBuild::action, (&next,), asked),
    ensures
        asked is None,
        warning is None,
{
}

} // verus!
