//! Handle lifecycle checks against a counting fake device: every allocated
//! handle must be released exactly once, and a second destroy must release
//! nothing.

use opengl_sandbox::device::DeviceCall;
use opengl_sandbox::element_buffer::ElementBuffer;
use opengl_sandbox::program::Program;
use opengl_sandbox::shader::{Shader, ShaderType, StatusReport};
use opengl_sandbox::texture::Texture;
use opengl_sandbox::vertex_array::VertexArray;
use opengl_sandbox::vertex_buffer::VertexBuffer;
use opengl_sandbox::vertex_buffer_layout::{VertexBufferLayout, VertexBufferLayoutType};

/// Counting fake device: hands out handles and records every release call
/// found in the executed call sequences.
struct FakeDevice {
    next_handle: u32,
    allocated: Vec<u32>,
    released: Vec<u32>,
}

impl FakeDevice {
    fn new() -> FakeDevice {
        FakeDevice { next_handle: 0, allocated: Vec::new(), released: Vec::new() }
    }

    fn allocate(&mut self) -> u32 {
        self.next_handle += 1;
        self.allocated.push(self.next_handle);
        self.next_handle
    }

    fn run(&mut self, calls: &[DeviceCall]) {
        for call in calls {
            match call {
                DeviceCall::DeleteBuffer { handle }
                | DeviceCall::DeleteVertexArray { handle }
                | DeviceCall::DeleteShader { handle }
                | DeviceCall::DeleteProgram { handle }
                | DeviceCall::DeleteTexture { handle } => self.released.push(*handle),
                _ => {}
            }
        }
    }

    fn assert_all_released_exactly_once(&self) {
        let mut released = self.released.clone();
        released.sort_unstable();
        assert_eq!(released, self.allocated);
    }
}

fn ok_report() -> StatusReport {
    StatusReport { success: true, log: Vec::new() }
}

#[test]
fn vertex_buffer_releases_its_handle_exactly_once() {
    let mut device = FakeDevice::new();
    let handle = device.allocate();
    let (mut buffer, setup) = VertexBuffer::new(handle, 48);
    device.run(&setup);

    assert!(buffer.is_live());
    let first = buffer.destroy();
    assert!(!buffer.is_live());
    assert_eq!(first, vec![DeviceCall::DeleteBuffer { handle }]);
    device.run(&first);

    let second = buffer.destroy();
    assert_eq!(second, Vec::<DeviceCall>::new());
    device.run(&second);

    device.assert_all_released_exactly_once();
}

#[test]
fn element_buffer_releases_its_handle_exactly_once() {
    let mut device = FakeDevice::new();
    let handle = device.allocate();
    let (mut buffer, setup) = ElementBuffer::new(handle, &[0, 1, 2]);
    device.run(&setup);

    let first = buffer.destroy();
    assert_eq!(first, vec![DeviceCall::DeleteBuffer { handle }]);
    device.run(&first);
    device.run(&buffer.destroy());

    device.assert_all_released_exactly_once();
}

#[test]
fn shader_releases_its_handle_exactly_once() {
    let mut device = FakeDevice::new();
    let handle = device.allocate();
    let mut shader = Shader::new(ShaderType::VertexShader, handle, ok_report()).unwrap();

    let first = shader.destroy();
    assert_eq!(first, vec![DeviceCall::DeleteShader { handle }]);
    device.run(&first);
    assert_eq!(shader.destroy(), Vec::<DeviceCall>::new());

    device.assert_all_released_exactly_once();
}

#[test]
fn vertex_array_releases_all_three_handles_exactly_once() {
    let mut device = FakeDevice::new();
    let vao_handle = device.allocate();
    let ebo_handle = device.allocate();
    let vbo_handle = device.allocate();

    let mut layouts = VertexBufferLayout::default();
    layouts.add(VertexBufferLayoutType::F32, 3, false);
    let (mut vao, setup) =
        VertexArray::new(vao_handle, ebo_handle, vbo_handle, 36, &[0, 1, 2], &layouts);
    device.run(&setup);

    let first = vao.destroy();
    assert_eq!(
        first,
        vec![
            DeviceCall::DeleteVertexArray { handle: vao_handle },
            DeviceCall::DeleteBuffer { handle: ebo_handle },
            DeviceCall::DeleteBuffer { handle: vbo_handle },
        ],
    );
    device.run(&first);
    assert_eq!(vao.destroy(), Vec::<DeviceCall>::new());

    device.assert_all_released_exactly_once();
}

#[test]
fn program_releases_itself_and_its_textures_exactly_once() {
    let mut device = FakeDevice::new();
    let program_handle = device.allocate();
    let texture_a = device.allocate();
    let texture_b = device.allocate();

    let mut program = Program::new(program_handle, ok_report()).unwrap();
    let (first_texture, setup_a) = Texture::new("uTex1", texture_a, 16, 16, 0);
    device.run(&setup_a);
    let (second_texture, setup_b) = Texture::new("uTex2", texture_b, 16, 16, 1);
    device.run(&setup_b);
    device.run(&program.add_texture2d(first_texture, 2));
    device.run(&program.add_texture2d(second_texture, 3));

    let first = program.destroy();
    assert_eq!(
        first,
        vec![
            DeviceCall::DeleteProgram { handle: program_handle },
            DeviceCall::DeleteTexture { handle: texture_a },
            DeviceCall::DeleteTexture { handle: texture_b },
        ],
    );
    device.run(&first);
    assert_eq!(program.destroy(), Vec::<DeviceCall>::new());

    device.assert_all_released_exactly_once();
}

#[test]
fn texture_releases_its_handle_exactly_once() {
    let mut device = FakeDevice::new();
    let handle = device.allocate();
    let (mut texture, setup) = Texture::new("uTex1", handle, 32, 32, 0);
    device.run(&setup);

    let first = texture.destroy();
    assert_eq!(first, vec![DeviceCall::DeleteTexture { handle }]);
    device.run(&first);
    assert_eq!(texture.destroy(), Vec::<DeviceCall>::new());

    device.assert_all_released_exactly_once();
}

#[test]
fn whole_scene_lifecycle_is_balanced() {
    let mut device = FakeDevice::new();

    let vs_handle = device.allocate();
    let fs_handle = device.allocate();
    let mut vs = Shader::new(ShaderType::VertexShader, vs_handle, ok_report()).unwrap();
    let mut fs = Shader::new(ShaderType::FragmentShader, fs_handle, ok_report()).unwrap();

    let program_handle = device.allocate();
    device.run(&Program::link_calls(program_handle, &vs, &fs));
    let mut program = Program::new(program_handle, ok_report()).unwrap();

    // The stages are no longer needed once the program is linked.
    device.run(&vs.destroy());
    device.run(&fs.destroy());

    let texture_handle = device.allocate();
    let (texture, texture_setup) = Texture::new("uTex1", texture_handle, 64, 64, 0);
    device.run(&texture_setup);
    device.run(&program.add_texture2d(texture, 4));

    let vao_handle = device.allocate();
    let ebo_handle = device.allocate();
    let vbo_handle = device.allocate();
    let mut layouts = VertexBufferLayout::default();
    layouts.add(VertexBufferLayoutType::F32, 3, false);
    layouts.add(VertexBufferLayoutType::F32, 2, false);
    let (mut vao, vao_setup) =
        VertexArray::new(vao_handle, ebo_handle, vbo_handle, 80, &[0, 1, 3, 1, 2, 3], &layouts);
    device.run(&vao_setup);

    device.run(&vao.destroy());
    device.run(&program.destroy());

    device.assert_all_released_exactly_once();
}
