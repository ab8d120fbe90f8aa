use model_viewer::shader::{
    failure_heading, info_log_text, is_found, same_bytes, terminated_source, BuildAction,
    BuildState, Program, ShaderBuild, ShaderProgram, Step, BUILD_FAILURE_EXIT_CODE,
    INFO_LOG_CAPACITY, UNIFORM_NOT_FOUND,
};

#[test]
fn build_runs_three_steps_and_finishes() {
    let (mut build, first) = ShaderBuild::start();
    assert_eq!(first, BuildAction::Run(Step::CompileVertex));
    assert!(!build.is_over());
    assert_eq!(build.advance(1), BuildAction::Run(Step::CompileFragment));
    assert_eq!(build.advance(1), BuildAction::Run(Step::Link));
    assert_eq!(build.advance(1), BuildAction::Finish);
    assert_eq!(build.state, BuildState::Linked);
    assert!(build.is_over());
    assert_eq!(build.advance(1), BuildAction::Nothing);
    assert_eq!(build.state, BuildState::Linked);
}

#[test]
fn broken_fragment_stage_aborts_the_build() {
    let (mut build, _) = ShaderBuild::start();
    assert_eq!(build.advance(1), BuildAction::Run(Step::CompileFragment));
    assert_eq!(build.advance(0), BuildAction::Abort(Step::CompileFragment));
    assert_eq!(build.state, BuildState::Failed(Step::CompileFragment));
    assert!(build.is_over());
    assert_eq!(build.advance(1), BuildAction::Nothing);
    assert_eq!(build.state, BuildState::Failed(Step::CompileFragment));
    assert_eq!(BUILD_FAILURE_EXIT_CODE, 1);
}

#[test]
fn broken_vertex_stage_aborts_at_once() {
    let (mut build, _) = ShaderBuild::start();
    assert_eq!(build.advance(0), BuildAction::Abort(Step::CompileVertex));
    assert_eq!(build.state, BuildState::Failed(Step::CompileVertex));
}

#[test]
fn failed_link_aborts_the_build() {
    let (mut build, _) = ShaderBuild::start();
    build.advance(1);
    build.advance(1);
    assert_eq!(build.advance(0), BuildAction::Abort(Step::Link));
    assert_eq!(build.state, BuildState::Failed(Step::Link));
}

#[test]
fn any_status_but_zero_is_success() {
    let (mut build, _) = ShaderBuild::start();
    assert_eq!(build.advance(-1), BuildAction::Run(Step::CompileFragment));
    assert_eq!(build.advance(i32::MAX), BuildAction::Run(Step::Link));
}

#[test]
fn failure_headings_name_the_step() {
    assert_eq!(failure_heading(Step::CompileVertex), "[ERROR] failed to compile vertex shader: ");
    assert_eq!(
        failure_heading(Step::CompileFragment),
        "[ERROR] failed to compile fragment shader: "
    );
    assert_eq!(failure_heading(Step::Link), "[ERROR] failed to link shaders: ");
}

#[test]
fn info_log_ends_at_the_first_zero() {
    let mut buffer = [0u8; 512];
    let message = b"0:3(1): error: syntax error";
    buffer[..message.len()].copy_from_slice(message);
    let text = info_log_text(&buffer);
    assert_eq!(text, message);
    assert!(!text.is_empty());
    assert!(text.len() < INFO_LOG_CAPACITY);
}

#[test]
fn info_log_stops_before_a_later_zero_too() {
    assert_eq!(info_log_text(b"ab\0cd\0"), b"ab");
    assert_eq!(info_log_text(b"\0abc"), b"");
}

#[test]
fn info_log_without_zero_loses_its_last_byte() {
    let buffer = [b'x'; 512];
    let text = info_log_text(&buffer);
    assert_eq!(text.len(), 511);
    assert_eq!(text, &buffer[..511]);
    assert_eq!(info_log_text(b"abc"), b"ab");
    assert_eq!(info_log_text(b"a"), b"");
}

#[test]
fn info_log_of_an_empty_buffer_is_empty() {
    assert_eq!(info_log_text(b""), b"");
}

#[test]
fn source_gets_a_zero_at_its_end() {
    assert_eq!(terminated_source("void main() {}"), b"void main() {}\0".to_vec());
    assert_eq!(terminated_source(""), vec![0u8]);
}

#[test]
fn bytes_are_compared_one_by_one() {
    assert!(same_bytes(b"", b""));
    assert!(same_bytes(b"abc", b"abc"));
    assert!(!same_bytes(b"abc", b"abd"));
    assert!(!same_bytes(b"abc", b"ab"));
    assert!(!same_bytes(b"", b"a"));
}

#[test]
fn unknown_uniform_has_the_location_that_the_device_ignores() {
    let mut program = ShaderProgram::new(Program(7));
    assert_eq!(program.program(), Program(7));
    assert_eq!(program.uniform_location(b"proj_matrix"), UNIFORM_NOT_FOUND);
    program.record(b"proj_matrix", 3);
    assert_eq!(program.uniform_location(b"proj_matrix"), 3);
    assert_eq!(program.uniform_location(b"proj_matri"), UNIFORM_NOT_FOUND);
    assert_eq!(program.uniform_location(b"light_source"), -1);
    assert!(!is_found(program.uniform_location(b"light_source")));
    assert!(is_found(3));
    assert!(is_found(0));
}

#[test]
fn uniform_that_the_device_did_not_find_is_kept_as_such() {
    let mut program = ShaderProgram::new(Program(1));
    program.record(b"model_matrix", UNIFORM_NOT_FOUND);
    program.record(b"camera_position", 0);
    assert_eq!(program.uniform_location(b"model_matrix"), UNIFORM_NOT_FOUND);
    assert_eq!(program.uniform_location(b"camera_position"), 0);
}

#[test]
fn later_record_of_a_name_wins() {
    let mut program = ShaderProgram::new(Program(1));
    program.record(b"a", 1);
    program.record(b"b", 2);
    program.record(b"a", 5);
    assert_eq!(program.uniform_location(b"a"), 5);
    assert_eq!(program.uniform_location(b"b"), 2);
}

#[test]
fn name_without_a_record_is_told_from_one_that_the_device_did_not_find() {
    let mut program = ShaderProgram::new(Program(1));
    program.record(b"model_matrix", UNIFORM_NOT_FOUND);
    program.record(b"camera_position", 4);
    assert_eq!(program.recorded_location(b"model_matrix"), Some(UNIFORM_NOT_FOUND));
    assert_eq!(program.recorded_location(b"camera_position"), Some(4));
    assert_eq!(program.recorded_location(b"sixth"), None);
    assert_eq!(program.recorded_location(b""), None);
    program.record(b"camera_position", 6);
    assert_eq!(program.recorded_location(b"camera_position"), Some(6));
}
