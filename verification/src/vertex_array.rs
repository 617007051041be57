//! Owning wrapper for one drawable unit: a vertex buffer, an element
//! buffer, and the attribute bindings a layout descriptor dictates.
//!
//! Construction is gated by [`check_vertex_array_inputs`], which rejects
//! empty vertex data, an empty index sequence, and an empty layout before
//! any device object is allocated. Only with validated inputs and freshly
//! allocated handles does [`VertexArray::new`] produce the setup call
//! sequence: bind the vertex array, fill and re-bind the element buffer,
//! fill and bind the vertex buffer, bind one attribute per layout
//! descriptor (its location is its position in the layout), then unbind.

use vstd::prelude::*;
use crate::device::DeviceCall;
use crate::element_buffer::ElementBuffer;
use crate::element_buffer::element_buffer_setup_calls;
use crate::vertex_buffer::VertexBuffer;
use crate::vertex_buffer::vertex_buffer_setup_calls;
use crate::vertex_buffer_layout::VertexBufferLayout;
use crate::vertex_buffer_layout::VertexBufferLayoutElement;

verus! {

/// A degenerate input that construction rejects before any device object
/// is allocated.
#[derive(Clone, Copy, Debug, PartialEq, Eq, Structural)]
pub enum PreconditionViolation {
    /// The vertex data is empty.
    EmptyVertexData,
    /// The index sequence is empty.
    EmptyIndexData,
    /// The layout holds no attribute descriptor.
    EmptyLayout,
}

/// The inputs a vertex array may be built from: vertex data, index
/// sequence and layout are all non-empty.
pub open spec fn vertex_array_inputs_ok(
    vertex_data_size: u32,
    num_indices: nat,
    layouts: VertexBufferLayout,
) -> bool {
    vertex_data_size > 0 && num_indices > 0 && layouts.model().len() > 0
}

/// Decides whether vertex array construction may go ahead. Returns `Ok`
/// exactly on inputs with non-empty vertex data, a non-empty index
/// sequence and a non-empty layout; the caller must not allocate any
/// device object before this check passes.
pub fn check_vertex_array_inputs(
    vertex_data_size: u32,
    indices: &[u32],
    layouts: &VertexBufferLayout,
) -> (r: Result<(), PreconditionViolation>)
    ensures
        r is Ok <==> vertex_array_inputs_ok(vertex_data_size, indices@.len(), *layouts),
        vertex_data_size == 0 ==> r == Err::<(), PreconditionViolation>(
            PreconditionViolation::EmptyVertexData,
        ),
        vertex_data_size > 0 && indices@.len() == 0 ==> r == Err::<(), PreconditionViolation>(
            PreconditionViolation::EmptyIndexData,
        ),
        vertex_data_size > 0 && indices@.len() > 0 && layouts.model().len() == 0 ==> r == Err::<
            (),
            PreconditionViolation,
        >(PreconditionViolation::EmptyLayout),
{
    if vertex_data_size == 0 {
        Err(PreconditionViolation::EmptyVertexData)
    } else if indices.len() == 0 {
        Err(PreconditionViolation::EmptyIndexData)
    } else if layouts.get_layouts().len() == 0 {
        Err(PreconditionViolation::EmptyLayout)
    } else {
        Ok(())
    }
}

/// The two calls that bind and enable attribute `location`: describe where
/// its data lives within a `stride`-byte record, then enable it.
pub open spec fn attribute_calls_at(
    element: VertexBufferLayoutElement,
    stride: u32,
    location: u32,
) -> Seq<DeviceCall> {
    seq![
        DeviceCall::VertexAttribPointer {
            index: location,
            count: element.count,
            type_code: element.layout_type.spec_code(),
            normalized: element.normalized,
            stride,
            offset: element.offset,
        },
        DeviceCall::EnableVertexAttribArray { index: location },
    ]
}

/// The calls that bind and enable the first `n` attributes of `s`, at
/// locations `0..n`.
pub open spec fn attribute_calls_prefix(
    s: Seq<VertexBufferLayoutElement>,
    stride: u32,
    n: int,
) -> Seq<DeviceCall>
    decreases n,
{
    if n <= 0 {
        Seq::empty()
    } else {
        attribute_calls_prefix(s, stride, n - 1) + attribute_calls_at(
            s[n - 1],
            stride,
            (n - 1) as u32,
        )
    }
}

/// The calls that bind and enable every attribute of a layout, in order:
/// the k-th descriptor is bound at location k with the layout's stride and
/// the descriptor's own offset.
pub open spec fn attribute_calls(layouts: VertexBufferLayout) -> Seq<DeviceCall> {
    attribute_calls_prefix(layouts.model(), layouts.spec_stride(), layouts.model().len() as int)
}

/// The binding sequence of the first `n` attributes is two calls long per
/// attribute.
proof fn lemma_attribute_calls_prefix_len(
    s: Seq<VertexBufferLayoutElement>,
    stride: u32,
    n: int,
)
    requires
        0 <= n,
    ensures
        attribute_calls_prefix(s, stride, n).len() == 2 * n,
    decreases n,
{
    if n > 0 {
        lemma_attribute_calls_prefix_len(s, stride, n - 1);
    }
}

/// Within the binding sequence of the first `n` attributes, attribute `k`
/// occupies positions `2k` and `2k + 1`.
proof fn lemma_attribute_calls_prefix_index(
    s: Seq<VertexBufferLayoutElement>,
    stride: u32,
    n: int,
    k: int,
)
    requires
        0 <= k < n,
    ensures
        attribute_calls_prefix(s, stride, n).len() == 2 * n,
        attribute_calls_prefix(s, stride, n)[2 * k] == attribute_calls_at(
            s[k],
            stride,
            k as u32,
        )[0],
        attribute_calls_prefix(s, stride, n)[2 * k + 1] == attribute_calls_at(
            s[k],
            stride,
            k as u32,
        )[1],
    decreases n,
{
    lemma_attribute_calls_prefix_len(s, stride, n);
    lemma_attribute_calls_prefix_len(s, stride, n - 1);
    if k < n - 1 {
        lemma_attribute_calls_prefix_index(s, stride, n - 1, k);
    }
}

/// Law: the append order of a well-formed layout defines the attribute
/// bindings completely. The k-th descriptor is bound at location k, with
/// its own component count, element type and normalization flag, at the
/// byte offset recorded for it, within records of the layout's stride --
/// and then enabled.
pub proof fn lemma_attribute_binding_order(l: VertexBufferLayout)
    requires
        l.wf(),
    ensures
        attribute_calls(l).len() == 2 * l.model().len(),
        forall|k: int|
            0 <= k < l.model().len() ==> #[trigger] attribute_calls(l)[2 * k]
                == (DeviceCall::VertexAttribPointer {
                index: k as u32,
                count: l.model()[k].count,
                type_code: l.model()[k].layout_type.spec_code(),
                normalized: l.model()[k].normalized,
                stride: l.spec_stride(),
                offset: l.model()[k].offset,
            }),
        forall|k: int|
            0 <= k < l.model().len() ==> #[trigger] attribute_calls(l)[2 * k + 1]
                == (DeviceCall::EnableVertexAttribArray { index: k as u32 }),
{
    let s = l.model();
    let stride = l.spec_stride();
    lemma_attribute_calls_prefix_len(s, stride, s.len() as int);
    assert forall|k: int| 0 <= k < s.len() implies #[trigger] attribute_calls(l)[2 * k]
        == (DeviceCall::VertexAttribPointer {
        index: k as u32,
        count: s[k].count,
        type_code: s[k].layout_type.spec_code(),
        normalized: s[k].normalized,
        stride,
        offset: s[k].offset,
    }) by {
        lemma_attribute_calls_prefix_index(s, stride, s.len() as int, k);
    }
    assert forall|k: int| 0 <= k < s.len() implies #[trigger] attribute_calls(l)[2 * k + 1]
        == (DeviceCall::EnableVertexAttribArray { index: k as u32 }) by {
        lemma_attribute_calls_prefix_index(s, stride, s.len() as int, k);
    }
}

/// The full construction sequence of a vertex array, from the three fresh
/// handles and the validated inputs.
pub open spec fn vertex_array_setup_calls(
    vao_handle: u32,
    ebo_handle: u32,
    vbo_handle: u32,
    vertex_data_size: u32,
    num_indices: u32,
    layouts: VertexBufferLayout,
) -> Seq<DeviceCall> {
    seq![DeviceCall::BindVertexArray { handle: vao_handle }]
        + element_buffer_setup_calls(ebo_handle, num_indices)
        + seq![DeviceCall::BindElementBuffer { handle: ebo_handle }]
        + vertex_buffer_setup_calls(vbo_handle, vertex_data_size)
        + seq![DeviceCall::BindArrayBuffer { handle: vbo_handle }]
        + attribute_calls(layouts)
        + seq![
            DeviceCall::BindArrayBuffer { handle: 0 },
            DeviceCall::BindVertexArray { handle: 0 },
        ]
}

/// The calls that release a vertex array and the two buffers it owns.
pub open spec fn vertex_array_destroy_calls(
    vao_handle: u32,
    ebo_handle: u32,
    vbo_handle: u32,
) -> Seq<DeviceCall> {
    seq![
        DeviceCall::DeleteVertexArray { handle: vao_handle },
        DeviceCall::DeleteBuffer { handle: ebo_handle },
        DeviceCall::DeleteBuffer { handle: vbo_handle },
    ]
}

/// One drawable unit: a vertex array that owns its vertex buffer, its
/// element buffer, and the recorded index count for later draw calls.
pub struct VertexArray {
    handle: Option<u32>,
    vertex_buffer: VertexBuffer,
    element_buffer: ElementBuffer,
}

impl VertexArray {
    /// Whether this wrapper still owns its device handles.
    pub closed spec fn live(self) -> bool {
        self.handle is Some
    }

    /// The vertex array handle this wrapper owns.
    pub closed spec fn id(self) -> u32 {
        self.handle->0
    }

    /// The handle of the owned element buffer.
    pub closed spec fn ebo_id(self) -> u32 {
        self.element_buffer.id()
    }

    /// The handle of the owned vertex buffer.
    pub closed spec fn vbo_id(self) -> u32 {
        self.vertex_buffer.id()
    }

    /// The recorded number of indices, fixed at construction time.
    pub closed spec fn spec_num_indices(self) -> u32 {
        self.element_buffer.spec_num_indices()
    }

    /// A live vertex array holds no zero handle and still owns both
    /// buffers; a destroyed one has given all three handles up.
    pub open spec fn wf(self) -> bool {
        &&& self.live() ==> self.id() != 0
        &&& self.vertex_buffer().wf()
        &&& self.element_buffer().wf()
        &&& (self.live() <==> self.vertex_buffer().live())
        &&& (self.live() <==> self.element_buffer().live())
    }

    /// The owned vertex buffer.
    pub closed spec fn vertex_buffer(self) -> VertexBuffer {
        self.vertex_buffer
    }

    /// The owned element buffer.
    pub closed spec fn element_buffer(self) -> ElementBuffer {
        self.element_buffer
    }

    /// Takes ownership of the three freshly allocated handles and returns
    /// the full setup call sequence. The recorded index count equals the
    /// length of the index sequence. The vertex data itself stays with the
    /// executor; only its byte size is needed here.
    pub fn new(
        vao_handle: u32,
        ebo_handle: u32,
        vbo_handle: u32,
        vertex_data_size: u32,
        indices: &[u32],
        layouts: &VertexBufferLayout,
    ) -> (r: (Self, Vec<DeviceCall>))
        requires
            vao_handle != 0,
            ebo_handle != 0,
            vbo_handle != 0,
            vertex_array_inputs_ok(vertex_data_size, indices@.len(), *layouts),
            4 * indices@.len() <= u32::MAX,
            layouts.wf(),
        ensures
            r.0.wf(),
            r.0.live(),
            r.0.id() == vao_handle,
            r.0.ebo_id() == ebo_handle,
            r.0.vbo_id() == vbo_handle,
            r.0.spec_num_indices() == indices@.len(),
            r.1@ == vertex_array_setup_calls(
                vao_handle,
                ebo_handle,
                vbo_handle,
                vertex_data_size,
                indices@.len() as u32,
                *layouts,
            ),
    {
        proof {
            crate::vertex_buffer_layout::lemma_wf_layout_len_bounded(*layouts);
        }
        let mut calls: Vec<DeviceCall> = Vec::new();
        calls.push(DeviceCall::BindVertexArray { handle: vao_handle });

        let (element_buffer, mut ebo_calls) = ElementBuffer::new(ebo_handle, indices);
        calls.append(&mut ebo_calls);
        let mut ebo_bind = element_buffer.bind();
        calls.append(&mut ebo_bind);

        let (vertex_buffer, mut vbo_calls) = VertexBuffer::new(vbo_handle, vertex_data_size);
        calls.append(&mut vbo_calls);
        let mut vbo_bind = vertex_buffer.bind();
        calls.append(&mut vbo_bind);

        let mut layout_calls = Self::add_layouts(layouts);
        calls.append(&mut layout_calls);

        let mut vbo_unbind = vertex_buffer.unbind();
        calls.append(&mut vbo_unbind);
        calls.push(DeviceCall::BindVertexArray { handle: 0 });

        proof {
            assert(calls@ =~= vertex_array_setup_calls(
                vao_handle,
                ebo_handle,
                vbo_handle,
                vertex_data_size,
                indices@.len() as u32,
                *layouts,
            ));
        }

        (VertexArray { handle: Some(vao_handle), vertex_buffer, element_buffer }, calls)
    }

    /// The calls that bind and enable one attribute per layout descriptor,
    /// in order, at locations counted from zero.
    pub fn add_layouts(layouts: &VertexBufferLayout) -> (r: Vec<DeviceCall>)
        requires
            layouts.model().len() <= u32::MAX,
        ensures
            r@ == attribute_calls(*layouts),
    {
        let mut calls: Vec<DeviceCall> = Vec::new();
        let stride = layouts.get_stride();
        let elements = layouts.get_layouts();

        let mut location: usize = 0;
        while location < elements.len()
            invariant
                location <= elements.len(),
                elements@ == layouts.model(),
                elements@.len() <= u32::MAX,
                stride == layouts.spec_stride(),
                calls@ == attribute_calls_prefix(layouts.model(), stride, location as int),
            decreases elements.len() - location,
        {
            let element = elements[location];
            calls.push(DeviceCall::VertexAttribPointer {
                index: location as u32,
                count: element.count,
                type_code: element.layout_type.code(),
                normalized: element.normalized,
                stride,
                offset: element.offset,
            });
            calls.push(DeviceCall::EnableVertexAttribArray { index: location as u32 });
            proof {
                assert(calls@ =~= attribute_calls_prefix(
                    layouts.model(),
                    stride,
                    location + 1 as int,
                ));
            }
            location = location + 1;
        }
        calls
    }

    /// Whether this wrapper still owns its device handles.
    pub fn is_live(&self) -> (r: bool)
        ensures
            r == self.live(),
    {
        self.handle.is_some()
    }

    /// The recorded index count, for the indexed draw call.
    pub fn get_num_indices_to_draw(&self) -> (r: u32)
        ensures
            r == self.spec_num_indices(),
    {
        self.element_buffer.get_num_indices()
    }

    /// The call that makes this vertex array current.
    pub fn bind(&self) -> (r: Vec<DeviceCall>)
        requires
            self.live(),
        ensures
            r@ == seq![DeviceCall::BindVertexArray { handle: self.id() }],
    {
        let mut calls: Vec<DeviceCall> = Vec::new();
        calls.push(DeviceCall::BindVertexArray { handle: self.handle.unwrap() });
        calls
    }

    /// The call that clears the current vertex array binding.
    pub fn unbind(&self) -> (r: Vec<DeviceCall>)
        ensures
            r@ == seq![DeviceCall::BindVertexArray { handle: 0 }],
    {
        let mut calls: Vec<DeviceCall> = Vec::new();
        calls.push(DeviceCall::BindVertexArray { handle: 0 });
        calls
    }

    /// Releases the vertex array handle and the two owned buffer handles,
    /// each exactly once: only the first call on a live vertex array yields
    /// the three delete calls.
    pub fn destroy(&mut self) -> (r: Vec<DeviceCall>)
        requires
            old(self).wf(),
        ensures
            final(self).wf(),
            !final(self).live(),
            final(self).spec_num_indices() == old(self).spec_num_indices(),
            old(self).live() ==> r@ == vertex_array_destroy_calls(
                old(self).id(),
                old(self).ebo_id(),
                old(self).vbo_id(),
            ),
            !old(self).live() ==> r@ == Seq::<DeviceCall>::empty(),
    {
        let mut calls: Vec<DeviceCall> = Vec::new();
        if let Some(handle) = self.handle {
            calls.push(DeviceCall::DeleteVertexArray { handle });
            self.handle = None;
            let mut ebo_calls = self.element_buffer.destroy();
            calls.append(&mut ebo_calls);
            let mut vbo_calls = self.vertex_buffer.destroy();
            calls.append(&mut vbo_calls);
            proof {
                assert(calls@ =~= vertex_array_destroy_calls(
                    old(self).id(),
                    old(self).ebo_id(),
                    old(self).vbo_id(),
                ));
            }
        }
        calls
    }
}

} // verus!
