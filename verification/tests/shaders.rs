use opengl_sandbox::device::{check_handle, DeviceCall, ResourceAllocationError};
use opengl_sandbox::program::Program;
use opengl_sandbox::shader::{Shader, ShaderType, StatusReport, MAX_LOG_BYTES};

fn ok_report() -> StatusReport {
    StatusReport { success: true, log: Vec::new() }
}

fn failed_report(log: &[u8]) -> StatusReport {
    StatusReport { success: false, log: log.to_vec() }
}

#[test]
fn zero_handles_are_allocation_failures() {
    assert_eq!(check_handle(0), Err(ResourceAllocationError));
    assert_eq!(check_handle(17), Ok(17));
}

#[test]
fn reported_compile_failure_keeps_stage_kind_and_log() {
    let r = Shader::new(ShaderType::VertexShader, 5, failed_report(b"0:1(1): error: syntax error"));
    let e = r.err().unwrap();
    assert_eq!(e.shader_type, ShaderType::VertexShader);
    assert_eq!(e.log, b"0:1(1): error: syntax error".to_vec());
    assert!(!e.log.is_empty());

    let r = Shader::new(ShaderType::FragmentShader, 5, failed_report(b"bad"));
    assert_eq!(r.err().unwrap().shader_type, ShaderType::FragmentShader);
}

#[test]
fn long_compile_logs_are_truncated() {
    let long_log = vec![b'x'; 600];
    let r = Shader::new(ShaderType::FragmentShader, 5, failed_report(&long_log));
    let e = r.err().unwrap();
    assert_eq!(e.log.len(), MAX_LOG_BYTES);
    assert_eq!(e.log, vec![b'x'; MAX_LOG_BYTES]);
}

#[test]
fn reported_compile_success_yields_a_stage() {
    let shader = Shader::new(ShaderType::VertexShader, 9, ok_report()).unwrap();
    assert_eq!(shader.get_shader_type(), ShaderType::VertexShader);
}

#[test]
fn stage_names_identify_the_stage() {
    assert_eq!(ShaderType::VertexShader.name(), "vertex");
    assert_eq!(ShaderType::FragmentShader.name(), "fragment");
}

#[test]
fn link_calls_attach_both_stages_then_link() {
    let vs = Shader::new(ShaderType::VertexShader, 11, ok_report()).unwrap();
    let fs = Shader::new(ShaderType::FragmentShader, 12, ok_report()).unwrap();
    let calls = Program::link_calls(30, &vs, &fs);
    assert_eq!(
        calls,
        vec![
            DeviceCall::AttachShader { program: 30, shader: 11 },
            DeviceCall::AttachShader { program: 30, shader: 12 },
            DeviceCall::LinkProgram { handle: 30 },
        ],
    );
}

#[test]
fn reported_link_failure_keeps_the_log() {
    let r = Program::new(30, failed_report(b"error: fragment input vTexCoord has no matching output"));
    let e = r.err().unwrap();
    assert_eq!(e.log, b"error: fragment input vTexCoord has no matching output".to_vec());
}

#[test]
fn long_link_logs_are_truncated() {
    let long_log = vec![b'y'; 1000];
    let r = Program::new(30, failed_report(&long_log));
    assert_eq!(r.err().unwrap().log.len(), MAX_LOG_BYTES);
}

#[test]
fn reported_link_success_yields_a_program() {
    let program = Program::new(30, ok_report()).unwrap();
    assert_eq!(program.bind(), vec![DeviceCall::UseProgram { handle: 30 }]);
    assert_eq!(program.unbind(), vec![DeviceCall::UseProgram { handle: 0 }]);
    assert_eq!(program.bind_textures(), Vec::<DeviceCall>::new());
}

#[test]
fn uniform_uploads_restore_the_program_binding() {
    let program = Program::new(30, ok_report()).unwrap();
    assert_eq!(
        program.set_uniform_4f(3),
        vec![
            DeviceCall::UseProgram { handle: 30 },
            DeviceCall::UniformFloat4 { location: 3 },
            DeviceCall::UseProgram { handle: 0 },
        ],
    );
    assert_eq!(
        program.set_uniform_mat4(4),
        vec![
            DeviceCall::UseProgram { handle: 30 },
            DeviceCall::UniformMat4 { location: 4 },
            DeviceCall::UseProgram { handle: 0 },
        ],
    );
}
