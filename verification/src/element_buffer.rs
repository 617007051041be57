//! Owning wrapper for one device-side element (index) buffer.

use vstd::prelude::*;
use crate::device::DeviceCall;

verus! {

/// One device-side element buffer. Besides the handle it records how many
/// indices were uploaded, which the indexed draw call needs later.
pub struct ElementBuffer {
    handle: Option<u32>,
    num_indices: u32,
}

/// The call sequence that fills a fresh element buffer: bind it, upload the
/// indices (four bytes each), unbind it.
pub open spec fn element_buffer_setup_calls(handle: u32, num_indices: u32) -> Seq<DeviceCall> {
    seq![
        DeviceCall::BindElementBuffer { handle },
        DeviceCall::UploadElementBuffer { size: (4 * num_indices) as u32 },
        DeviceCall::BindElementBuffer { handle: 0 },
    ]
}

impl ElementBuffer {
    /// Whether this wrapper still owns its device handle.
    pub closed spec fn live(self) -> bool {
        self.handle is Some
    }

    /// The device handle this wrapper owns.
    pub closed spec fn id(self) -> u32 {
        self.handle->0
    }

    /// The recorded number of uploaded indices.
    pub closed spec fn spec_num_indices(self) -> u32 {
        self.num_indices
    }

    /// A live wrapper never holds the zero handle.
    pub open spec fn wf(self) -> bool {
        self.live() ==> self.id() != 0
    }

    /// Takes ownership of the freshly allocated handle and returns the
    /// calls that upload the index sequence into it. The index sequence
    /// must be non-empty; the recorded count equals its length.
    pub fn new(handle: u32, indices: &[u32]) -> (r: (Self, Vec<DeviceCall>))
        requires
            handle != 0,
            indices@.len() > 0,
            4 * indices@.len() <= u32::MAX,
        ensures
            r.0.wf(),
            r.0.live(),
            r.0.id() == handle,
            r.0.spec_num_indices() == indices@.len(),
            r.1@ == element_buffer_setup_calls(handle, indices@.len() as u32),
    {
        let num_indices: u32 = indices.len() as u32;
        let size: u32 = 4 * num_indices;

        let buffer = ElementBuffer { handle: Some(handle), num_indices };
        let mut calls: Vec<DeviceCall> = Vec::new();
        calls.push(DeviceCall::BindElementBuffer { handle });
        calls.push(DeviceCall::UploadElementBuffer { size });
        calls.push(DeviceCall::BindElementBuffer { handle: 0 });
        proof {
            assert(calls@ =~= element_buffer_setup_calls(handle, num_indices));
        }
        (buffer, calls)
    }

    /// Whether this wrapper still owns its device handle.
    pub fn is_live(&self) -> (r: bool)
        ensures
            r == self.live(),
    {
        self.handle.is_some()
    }

    /// How many indices this buffer holds.
    pub fn get_num_indices(&self) -> (r: u32)
        ensures
            r == self.spec_num_indices(),
    {
        self.num_indices
    }

    /// The call that makes this buffer the current element buffer.
    pub fn bind(&self) -> (r: Vec<DeviceCall>)
        requires
            self.live(),
        ensures
            r@ == seq![DeviceCall::BindElementBuffer { handle: self.id() }],
    {
        let mut calls: Vec<DeviceCall> = Vec::new();
        calls.push(DeviceCall::BindElementBuffer { handle: self.handle.unwrap() });
        calls
    }

    /// The call that clears the current element buffer binding.
    pub fn unbind(&self) -> (r: Vec<DeviceCall>)
        ensures
            r@ == seq![DeviceCall::BindElementBuffer { handle: 0 }],
    {
        let mut calls: Vec<DeviceCall> = Vec::new();
        calls.push(DeviceCall::BindElementBuffer { handle: 0 });
        calls
    }

    /// Releases the device handle exactly once, as [`VertexBuffer::destroy`]
    /// does.
    ///
    /// [`VertexBuffer::destroy`]: crate::vertex_buffer::VertexBuffer::destroy
    pub fn destroy(&mut self) -> (r: Vec<DeviceCall>)
        ensures
            !final(self).live(),
            final(self).spec_num_indices() == old(self).spec_num_indices(),
            old(self).live() ==> r@ == seq![
                DeviceCall::DeleteBuffer { handle: old(self).id() },
            ],
            !old(self).live() ==> r@ == Seq::<DeviceCall>::empty(),
    {
        let mut calls: Vec<DeviceCall> = Vec::new();
        if let Some(handle) = self.handle {
            calls.push(DeviceCall::DeleteBuffer { handle });
            self.handle = None;
        }
        calls
    }
}

} // verus!
