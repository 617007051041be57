//! Owning wrapper for one device-side vertex buffer.

use vstd::prelude::*;
use crate::device::DeviceCall;

verus! {

/// One device-side vertex buffer. The handle is held until [`destroy`]
/// releases it; a released buffer keeps no handle, so a second release has
/// nothing left to free.
///
/// [`destroy`]: VertexBuffer::destroy
pub struct VertexBuffer {
    handle: Option<u32>,
}

/// The call sequence that fills a fresh vertex buffer: bind it, upload
/// `size` bytes of vertex data, unbind it.
pub open spec fn vertex_buffer_setup_calls(handle: u32, size: u32) -> Seq<DeviceCall> {
    seq![
        DeviceCall::BindArrayBuffer { handle },
        DeviceCall::UploadArrayBuffer { size },
        DeviceCall::BindArrayBuffer { handle: 0 },
    ]
}

impl VertexBuffer {
    /// Whether this wrapper still owns its device handle.
    pub closed spec fn live(self) -> bool {
        self.handle is Some
    }

    /// The device handle this wrapper owns.
    pub closed spec fn id(self) -> u32 {
        self.handle->0
    }

    /// A live wrapper never holds the zero handle, which the device
    /// reserves for allocation failure.
    pub open spec fn wf(self) -> bool {
        self.live() ==> self.id() != 0
    }

    /// Takes ownership of the freshly allocated handle and returns the
    /// calls that upload `size` bytes of vertex data into it. The vertex
    /// data itself (floats) stays with the executor.
    pub fn new(handle: u32, size: u32) -> (r: (Self, Vec<DeviceCall>))
        requires
            handle != 0,
            size > 0,
        ensures
            r.0.wf(),
            r.0.live(),
            r.0.id() == handle,
            r.1@ == vertex_buffer_setup_calls(handle, size),
    {
        let buffer = VertexBuffer { handle: Some(handle) };
        let mut calls: Vec<DeviceCall> = Vec::new();
        calls.push(DeviceCall::BindArrayBuffer { handle });
        calls.push(DeviceCall::UploadArrayBuffer { size });
        calls.push(DeviceCall::BindArrayBuffer { handle: 0 });
        proof {
            assert(calls@ =~= vertex_buffer_setup_calls(handle, size));
        }
        (buffer, calls)
    }

    /// Whether this wrapper still owns its device handle.
    pub fn is_live(&self) -> (r: bool)
        ensures
            r == self.live(),
    {
        self.handle.is_some()
    }

    /// The call that makes this buffer the current array buffer.
    pub fn bind(&self) -> (r: Vec<DeviceCall>)
        requires
            self.live(),
        ensures
            r@ == seq![DeviceCall::BindArrayBuffer { handle: self.id() }],
    {
        let mut calls: Vec<DeviceCall> = Vec::new();
        calls.push(DeviceCall::BindArrayBuffer { handle: self.handle.unwrap() });
        calls
    }

    /// The call that clears the current array buffer binding.
    pub fn unbind(&self) -> (r: Vec<DeviceCall>)
        ensures
            r@ == seq![DeviceCall::BindArrayBuffer { handle: 0 }],
    {
        let mut calls: Vec<DeviceCall> = Vec::new();
        calls.push(DeviceCall::BindArrayBuffer { handle: 0 });
        calls
    }

    /// Releases the device handle. The first call on a live buffer yields
    /// exactly one delete call and gives the handle up; any later call
    /// yields nothing, so the handle is released exactly once.
    pub fn destroy(&mut self) -> (r: Vec<DeviceCall>)
        ensures
            !final(self).live(),
            old(self).live() ==> r@ == seq![
                DeviceCall::DeleteBuffer { handle: old(self).id() },
            ],
            !old(self).live() ==> r@ == Seq::<DeviceCall>::empty(),
    {
        let mut calls: Vec<DeviceCall> = Vec::new();
        if let Some(handle) = self.handle {
            calls.push(DeviceCall::DeleteBuffer { handle });
            self.handle = None;
        }
        calls
    }
}

} // verus!
