use opengl_sandbox::device::{
    DeviceCall, CLAMP_TO_BORDER_CODE, LINEAR_CODE, TEXTURE_MAG_FILTER_CODE,
    TEXTURE_MIN_FILTER_CODE, TEXTURE_WRAP_S_CODE, TEXTURE_WRAP_T_CODE,
};
use opengl_sandbox::program::Program;
use opengl_sandbox::renderer::Renderer;
use opengl_sandbox::shader::StatusReport;
use opengl_sandbox::texture::Texture;
use opengl_sandbox::vertex_array::VertexArray;
use opengl_sandbox::vertex_buffer_layout::{VertexBufferLayout, VertexBufferLayoutType};

fn linked_program(handle: u32) -> Program {
    Program::new(handle, StatusReport { success: true, log: Vec::new() }).unwrap()
}

fn rectangle_vao() -> VertexArray {
    let mut layouts = VertexBufferLayout::default();
    layouts.add(VertexBufferLayoutType::F32, 3, false);
    layouts.add(VertexBufferLayoutType::F32, 2, false);
    // Two triangles: six indices over four vertices.
    let indices = [0u32, 1, 3, 1, 2, 3];
    let (vao, _calls) = VertexArray::new(1, 2, 3, 80, &indices, &layouts);
    vao
}

#[test]
fn texture_setup_uploads_with_clamping_and_linear_filtering() {
    let (_texture, calls) = Texture::new("uTex1", 40, 256, 128, 0);
    assert_eq!(
        calls,
        vec![
            DeviceCall::BindTexture2d { handle: 40 },
            DeviceCall::TexParameter { pname: TEXTURE_WRAP_S_CODE, param: CLAMP_TO_BORDER_CODE },
            DeviceCall::TexParameter { pname: TEXTURE_WRAP_T_CODE, param: CLAMP_TO_BORDER_CODE },
            DeviceCall::TexParameter { pname: TEXTURE_MIN_FILTER_CODE, param: LINEAR_CODE },
            DeviceCall::TexParameter { pname: TEXTURE_MAG_FILTER_CODE, param: LINEAR_CODE },
            DeviceCall::TexImage2d { width: 256, height: 128 },
            DeviceCall::GenerateMipmap,
            DeviceCall::BindTexture2d { handle: 0 },
        ],
    );
}

#[test]
fn texture_slot_round_trips_from_load_to_attach_and_bind() {
    // Loaded for slot 1: the attach calls select unit 1 and write 1 into
    // the sampler uniform, and bind selects unit 1 again.
    let (texture, _) = Texture::new("uTex2", 41, 64, 64, 1);
    assert_eq!(texture.get_slot(), 1);
    assert_eq!(texture.get_uniform_name(), "uTex2");
    assert_eq!(
        texture.bind(),
        vec![
            DeviceCall::ActiveTexture { slot: 1 },
            DeviceCall::BindTexture2d { handle: 41 },
        ],
    );

    let mut program = linked_program(30);
    let attach_calls = program.add_texture2d(texture, 7);
    assert_eq!(
        attach_calls,
        vec![
            DeviceCall::UseProgram { handle: 30 },
            DeviceCall::ActiveTexture { slot: 1 },
            DeviceCall::BindTexture2d { handle: 41 },
            DeviceCall::UniformInt { location: 7, value: 1 },
            DeviceCall::BindTexture2d { handle: 0 },
            DeviceCall::UseProgram { handle: 0 },
        ],
    );

    // The program now binds the texture on its recorded unit.
    assert_eq!(
        program.bind_textures(),
        vec![
            DeviceCall::ActiveTexture { slot: 1 },
            DeviceCall::BindTexture2d { handle: 41 },
        ],
    );
}

#[test]
fn largest_texture_slot_is_accepted() {
    let (texture, _) = Texture::new("uTex", 42, 8, 8, 31);
    assert_eq!(texture.get_slot(), 31);
    assert_eq!(
        texture.bind(),
        vec![
            DeviceCall::ActiveTexture { slot: 31 },
            DeviceCall::BindTexture2d { handle: 42 },
        ],
    );
}

#[test]
fn renderer_setup_enables_alpha_blending() {
    let (renderer, setup) = Renderer::new();
    assert_eq!(setup, vec![DeviceCall::EnableBlending, DeviceCall::BlendFuncAlpha]);
    assert_eq!(renderer.clear(), vec![DeviceCall::ClearColorBuffer]);
}

#[test]
fn draw_requests_exactly_the_six_recorded_indices() {
    let vao = rectangle_vao();
    let program = linked_program(30);
    let (renderer, _) = Renderer::new();

    let calls = renderer.draw(&vao, &program);
    let draws: Vec<&DeviceCall> = calls
        .iter()
        .filter(|c| matches!(c, DeviceCall::DrawTriangles { .. }))
        .collect();
    assert_eq!(draws.len(), 1);
    assert_eq!(*draws[0], DeviceCall::DrawTriangles { num_indices: 6 });
}

#[test]
fn draw_binds_and_unbinds_in_protocol_order() {
    let vao = rectangle_vao();
    let mut program = linked_program(30);
    let (texture, _) = Texture::new("uTex1", 41, 64, 64, 2);
    program.add_texture2d(texture, 5);
    let (renderer, _) = Renderer::new();

    assert_eq!(
        renderer.draw(&vao, &program),
        vec![
            DeviceCall::UseProgram { handle: 30 },
            DeviceCall::ActiveTexture { slot: 2 },
            DeviceCall::BindTexture2d { handle: 41 },
            DeviceCall::BindVertexArray { handle: 1 },
            DeviceCall::DrawTriangles { num_indices: 6 },
            DeviceCall::BindVertexArray { handle: 0 },
            DeviceCall::BindTexture2d { handle: 0 },
            DeviceCall::UseProgram { handle: 0 },
        ],
    );
}
