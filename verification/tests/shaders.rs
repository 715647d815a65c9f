use wayland_display_core::shaders::{compile_shaders, shader_job, BuildAction, CompilerArgument, SHADER_COUNT};

fn build(directory: bool, present: [bool; 4], works: [bool; 4]) -> (Vec<String>, Vec<String>) {
    let mut build = compile_shaders();
    let mut compiled = Vec::new();
    let mut warnings = Vec::new();
    let mut looked_for: usize = 0;
    while let Some(action) = build.action() {
        let yes = match action {
            BuildAction::FindDirectory => directory,
            BuildAction::FindInput(_) => {
                looked_for += 1;
                present[looked_for - 1]
            }
            BuildAction::Compile(job) => {
                compiled.push(job.input.to_string());
                works[looked_for - 1]
            }
        };
        let (next, warning) = build.advance(yes);
        build = next;
        if let Some(text) = warning {
            warnings.push(text.to_string());
        }
    }
    (compiled, warnings)
}

#[test]
fn all_shaders_are_compiled_in_order() {
    let (compiled, warnings) = build(true, [true; 4], [true; 4]);
    assert_eq!(
        compiled,
        vec!["quad.vert.glsl", "quad.frag.glsl", "solid.vert.glsl", "solid.frag.glsl"]
    );
    assert!(warnings.is_empty());
}

#[test]
fn missing_sources_are_skipped() {
    let (compiled, warnings) = build(true, [false, true, false, true], [true; 4]);
    assert_eq!(compiled, vec!["quad.frag.glsl", "solid.frag.glsl"]);
    assert!(warnings.is_empty());
}

#[test]
fn missing_directory_compiles_nothing() {
    let (compiled, warnings) = build(false, [true; 4], [true; 4]);
    assert!(compiled.is_empty());
    assert_eq!(warnings, vec!["Shader directory not found, skipping compilation"]);
}

#[test]
fn failures_warn_and_go_on() {
    let (compiled, warnings) = build(true, [true; 4], [true, false, false, true]);
    assert_eq!(compiled.len(), 4);
    assert_eq!(warnings, vec!["glslc unavailable, using pre-compiled shaders"; 2]);
}

#[test]
fn jobs_name_output_and_stage() {
    assert_eq!(SHADER_COUNT, 4);
    let job = shader_job(0);
    assert_eq!((job.input, job.output), ("quad.vert.glsl", "quad.vert.spv"));
    assert_eq!(job.stage_flag(), "-fshader-stage=vertex");
    let job = shader_job(1);
    assert_eq!((job.input, job.output), ("quad.frag.glsl", "quad.frag.spv"));
    assert_eq!(job.stage_flag(), "-fshader-stage=fragment");
    assert_eq!(shader_job(2).output, "solid.vert.spv");
    assert_eq!(shader_job(2).stage, "vertex");
    assert_eq!(shader_job(3).output, "solid.frag.spv");
    assert_eq!(shader_job(3).stage, "fragment");
}

#[test]
fn compiler_gets_stage_source_and_target() {
    let line: Vec<String> = shader_job(3)
        .arguments()
        .into_iter()
        .map(|argument| match argument {
            CompilerArgument::Text(text) => text,
            CompilerArgument::InputPath => "in".to_string(),
            CompilerArgument::OutputPath => "out".to_string(),
        })
        .collect();
    assert_eq!(line, vec!["-fshader-stage=fragment", "in", "-o", "out"]);
}
