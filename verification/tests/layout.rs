use opengl_sandbox::device::{DeviceCall, FLOAT_CODE, UNSIGNED_INT_CODE};
use opengl_sandbox::vertex_array::VertexArray;
use opengl_sandbox::vertex_buffer_layout::{VertexBufferLayout, VertexBufferLayoutType};

#[test]
fn empty_layout_has_stride_zero() {
    let layouts = VertexBufferLayout::default();
    assert_eq!(layouts.get_stride(), 0);
    assert_eq!(layouts.get_layouts().len(), 0);
}

#[test]
fn stride_is_four_times_component_sum() {
    // Three positions, two texture coordinates: stride 4 * (3 + 2) = 20.
    let mut layouts = VertexBufferLayout::default();
    layouts.add(VertexBufferLayoutType::F32, 3, false);
    layouts.add(VertexBufferLayoutType::F32, 2, false);
    assert_eq!(layouts.get_stride(), 20);
}

#[test]
fn offsets_are_running_byte_totals() {
    let mut layouts = VertexBufferLayout::default();
    layouts.add(VertexBufferLayoutType::F32, 3, false);
    layouts.add(VertexBufferLayoutType::F32, 2, false);
    layouts.add(VertexBufferLayoutType::U32, 1, false);
    let elements = layouts.get_layouts();
    assert_eq!(elements[0].offset, 0);
    assert_eq!(elements[1].offset, 12);
    assert_eq!(elements[2].offset, 20);
    assert_eq!(layouts.get_stride(), 24);
}

#[test]
fn four_byte_types_count_equally() {
    let mut float_layout = VertexBufferLayout::default();
    float_layout.add(VertexBufferLayoutType::F32, 4, false);
    let mut uint_layout = VertexBufferLayout::default();
    uint_layout.add(VertexBufferLayoutType::U32, 4, false);
    assert_eq!(float_layout.get_stride(), uint_layout.get_stride());
    assert_eq!(float_layout.get_stride(), 16);
}

#[test]
fn descriptors_keep_type_count_and_normalization() {
    let mut layouts = VertexBufferLayout::default();
    layouts.add(VertexBufferLayoutType::U32, 2, true);
    let elements = layouts.get_layouts();
    assert_eq!(elements.len(), 1);
    assert_eq!(elements[0].layout_type, VertexBufferLayoutType::U32);
    assert_eq!(elements[0].count, 2);
    assert!(elements[0].normalized);
}

#[test]
fn element_type_codes_match_device_codes() {
    assert_eq!(VertexBufferLayoutType::F32.code(), FLOAT_CODE);
    assert_eq!(VertexBufferLayoutType::U32.code(), UNSIGNED_INT_CODE);
}

#[test]
fn attribute_calls_bind_positions_in_order() {
    let mut layouts = VertexBufferLayout::default();
    layouts.add(VertexBufferLayoutType::F32, 3, false);
    layouts.add(VertexBufferLayoutType::F32, 2, false);
    let calls = VertexArray::add_layouts(&layouts);
    assert_eq!(
        calls,
        vec![
            DeviceCall::VertexAttribPointer {
                index: 0,
                count: 3,
                type_code: FLOAT_CODE,
                normalized: false,
                stride: 20,
                offset: 0,
            },
            DeviceCall::EnableVertexAttribArray { index: 0 },
            DeviceCall::VertexAttribPointer {
                index: 1,
                count: 2,
                type_code: FLOAT_CODE,
                normalized: false,
                stride: 20,
                offset: 12,
            },
            DeviceCall::EnableVertexAttribArray { index: 1 },
        ],
    );
}
