//! Owning wrapper for one device-side two-dimensional texture.
//!
//! Decoding the image file and flipping it to the device's bottom-left
//! origin happen outside this crate, at the I/O edge; the wrapper takes the
//! decoded width and height as plain values and computes the upload calls:
//! clamp-to-border wrapping, linear filtering, one image upload, and a
//! mip-map build. The texture keeps the sampler uniform name and the
//! texture unit slot chosen at load time.

use vstd::prelude::*;
use vstd::string::StringExecFns;
use crate::device::DeviceCall;

verus! {

/// Largest texture unit slot the device offers.
pub const MAX_TEXTURE_SLOT: u32 = 31;

/// The call sequence that fills a fresh texture: bind it, set wrapping and
/// filtering, upload the `width` x `height` image, build mip-maps, unbind.
pub open spec fn texture_setup_calls(handle: u32, width: u32, height: u32) -> Seq<DeviceCall> {
    seq![
        DeviceCall::BindTexture2d { handle },
        DeviceCall::TexParameter {
            pname: crate::device::TEXTURE_WRAP_S_CODE,
            param: crate::device::CLAMP_TO_BORDER_CODE,
        },
        DeviceCall::TexParameter {
            pname: crate::device::TEXTURE_WRAP_T_CODE,
            param: crate::device::CLAMP_TO_BORDER_CODE,
        },
        DeviceCall::TexParameter {
            pname: crate::device::TEXTURE_MIN_FILTER_CODE,
            param: crate::device::LINEAR_CODE,
        },
        DeviceCall::TexParameter {
            pname: crate::device::TEXTURE_MAG_FILTER_CODE,
            param: crate::device::LINEAR_CODE,
        },
        DeviceCall::TexImage2d { width, height },
        DeviceCall::GenerateMipmap,
        DeviceCall::BindTexture2d { handle: 0 },
    ]
}

/// The calls that make a texture current on its unit: select the unit, then
/// bind the texture.
pub open spec fn texture_bind_calls(slot: u32, handle: u32) -> Seq<DeviceCall> {
    seq![
        DeviceCall::ActiveTexture { slot },
        DeviceCall::BindTexture2d { handle },
    ]
}

/// One device-side texture with its sampler uniform name and unit slot.
pub struct Texture {
    handle: Option<u32>,
    uniform_name: String,
    slot: u32,
}

impl Texture {
    /// Whether this wrapper still owns its device handle.
    pub closed spec fn live(self) -> bool {
        self.handle is Some
    }

    /// The device handle this wrapper owns.
    pub closed spec fn id(self) -> u32 {
        self.handle->0
    }

    /// The sampler uniform name this texture was loaded for.
    pub closed spec fn spec_uniform_name(self) -> Seq<char> {
        self.uniform_name@
    }

    /// The texture unit slot assigned at load time.
    pub closed spec fn spec_slot(self) -> u32 {
        self.slot
    }

    /// A live wrapper never holds the zero handle, and the slot is within
    /// the device's texture unit range.
    pub open spec fn wf(self) -> bool {
        &&& self.live() ==> self.id() != 0
        &&& self.spec_slot() <= MAX_TEXTURE_SLOT
    }

    /// Takes ownership of the freshly allocated handle and returns the
    /// calls that upload the decoded `width` x `height` image into it. The
    /// pixel rows stay with the executor.
    pub fn new(uniform_name: &str, handle: u32, width: u32, height: u32, slot: u32) -> (r: (
        Self,
        Vec<DeviceCall>,
    ))
        requires
            handle != 0,
            slot <= MAX_TEXTURE_SLOT,
        ensures
            r.0.wf(),
            r.0.live(),
            r.0.id() == handle,
            r.0.spec_uniform_name() == uniform_name@,
            r.0.spec_slot() == slot,
            r.1@ == texture_setup_calls(handle, width, height),
    {
        let texture = Texture {
            handle: Some(handle),
            uniform_name: String::from_str(uniform_name),
            slot,
        };
        let mut calls: Vec<DeviceCall> = Vec::new();
        calls.push(DeviceCall::BindTexture2d { handle });
        calls.push(DeviceCall::TexParameter {
            pname: crate::device::TEXTURE_WRAP_S_CODE,
            param: crate::device::CLAMP_TO_BORDER_CODE,
        });
        calls.push(DeviceCall::TexParameter {
            pname: crate::device::TEXTURE_WRAP_T_CODE,
            param: crate::device::CLAMP_TO_BORDER_CODE,
        });
        calls.push(DeviceCall::TexParameter {
            pname: crate::device::TEXTURE_MIN_FILTER_CODE,
            param: crate::device::LINEAR_CODE,
        });
        calls.push(DeviceCall::TexParameter {
            pname: crate::device::TEXTURE_MAG_FILTER_CODE,
            param: crate::device::LINEAR_CODE,
        });
        calls.push(DeviceCall::TexImage2d { width, height });
        calls.push(DeviceCall::GenerateMipmap);
        calls.push(DeviceCall::BindTexture2d { handle: 0 });
        proof {
            assert(calls@ =~= texture_setup_calls(handle, width, height));
        }
        (texture, calls)
    }

    /// Whether this wrapper still owns its device handle.
    pub fn is_live(&self) -> (r: bool)
        ensures
            r == self.live(),
    {
        self.handle.is_some()
    }

    /// The sampler uniform name this texture was loaded for.
    pub fn get_uniform_name(&self) -> (r: &str)
        ensures
            r@ == self.spec_uniform_name(),
    {
        self.uniform_name.as_str()
    }

    /// The texture unit slot assigned at load time.
    pub fn get_slot(&self) -> (r: u32)
        ensures
            r == self.spec_slot(),
    {
        self.slot
    }

    /// The calls that make this texture current on its unit: the unit
    /// selected is the slot assigned at load time.
    pub fn bind(&self) -> (r: Vec<DeviceCall>)
        requires
            self.live(),
        ensures
            r@ == texture_bind_calls(self.spec_slot(), self.id()),
    {
        let mut calls: Vec<DeviceCall> = Vec::new();
        calls.push(DeviceCall::ActiveTexture { slot: self.slot });
        calls.push(DeviceCall::BindTexture2d { handle: self.handle.unwrap() });
        proof {
            assert(calls@ =~= texture_bind_calls(self.spec_slot(), self.id()));
        }
        calls
    }

    /// The call that clears the current texture binding.
    pub fn unbind(&self) -> (r: Vec<DeviceCall>)
        ensures
            r@ == seq![DeviceCall::BindTexture2d { handle: 0 }],
    {
        let mut calls: Vec<DeviceCall> = Vec::new();
        calls.push(DeviceCall::BindTexture2d { handle: 0 });
        calls
    }

    /// Releases the device handle exactly once: only the first call on a
    /// live texture yields the delete call.
    pub fn destroy(&mut self) -> (r: Vec<DeviceCall>)
        ensures
            !final(self).live(),
            final(self).spec_uniform_name() == old(self).spec_uniform_name(),
            final(self).spec_slot() == old(self).spec_slot(),
            old(self).live() ==> r@ == seq![
                DeviceCall::DeleteTexture { handle: old(self).id() },
            ],
            !old(self).live() ==> r@ == Seq::<DeviceCall>::empty(),
    {
        let mut calls: Vec<DeviceCall> = Vec::new();
        if let Some(handle) = self.handle {
            calls.push(DeviceCall::DeleteTexture { handle });
            self.handle = None;
        }
        calls
    }
}

} // verus!
