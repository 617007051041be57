//! Plain-data model of the raw graphics device interface.
//!
//! The wrapper types in this crate never touch the device themselves: each
//! operation returns the exact sequence of [`DeviceCall`]s that an unverified
//! executor must issue, in order, against the real device. A `DeviceCall`
//! carries only plain values (handles, sizes, codes), so every call sequence
//! can be stated and checked in full in the contracts of this crate.

use vstd::prelude::*;

verus! {

/// Numeric code the device uses for 32-bit floating point attribute data.
pub const FLOAT_CODE: u32 = 0x1406;

/// Numeric code the device uses for unsigned 32-bit integer attribute data.
pub const UNSIGNED_INT_CODE: u32 = 0x1405;

/// Numeric code for the vertex stage of the shading pipeline.
pub const VERTEX_STAGE_CODE: u32 = 0x8B31;

/// Numeric code for the fragment stage of the shading pipeline.
pub const FRAGMENT_STAGE_CODE: u32 = 0x8B30;

/// Texture parameter selector: wrapping along the horizontal coordinate.
pub const TEXTURE_WRAP_S_CODE: u32 = 0x2802;

/// Texture parameter selector: wrapping along the vertical coordinate.
pub const TEXTURE_WRAP_T_CODE: u32 = 0x2803;

/// Texture parameter selector: the minification filter.
pub const TEXTURE_MIN_FILTER_CODE: u32 = 0x2801;

/// Texture parameter selector: the magnification filter.
pub const TEXTURE_MAG_FILTER_CODE: u32 = 0x2800;

/// Texture parameter value: clamp coordinates to the border.
pub const CLAMP_TO_BORDER_CODE: u32 = 0x812D;

/// Texture parameter value: linear filtering.
pub const LINEAR_CODE: u32 = 0x2601;

/// One raw call against the graphics device, as data.
///
/// Handles are the nonzero identifiers the device handed out at allocation
/// time; a handle argument of `0` means "unbind". Payloads that cannot be
/// stated as plain values (vertex floats, pixel rows, uniform floats) stay
/// with the executor, which pairs them with the matching upload call.
#[derive(Clone, Copy, Debug, PartialEq, Eq, Structural)]
pub enum DeviceCall {
    /// Make `handle` the current array (vertex) buffer.
    BindArrayBuffer { handle: u32 },
    /// Make `handle` the current element (index) buffer.
    BindElementBuffer { handle: u32 },
    /// Upload `size` bytes of vertex data into the current array buffer.
    UploadArrayBuffer { size: u32 },
    /// Upload `size` bytes of index data into the current element buffer.
    UploadElementBuffer { size: u32 },
    /// Release one buffer handle.
    DeleteBuffer { handle: u32 },
    /// Make `handle` the current vertex array.
    BindVertexArray { handle: u32 },
    /// Release one vertex array handle.
    DeleteVertexArray { handle: u32 },
    /// Describe attribute `index` of the current vertex array: `count`
    /// components of the element type named by `type_code`, read from the
    /// current array buffer at `offset` bytes into each `stride`-byte record.
    VertexAttribPointer {
        index: u32,
        count: u32,
        type_code: u32,
        normalized: bool,
        stride: u32,
        offset: u32,
    },
    /// Enable attribute `index` of the current vertex array.
    EnableVertexAttribArray { index: u32 },
    /// Attach compiled stage `shader` to unlinked program `program`.
    AttachShader { program: u32, shader: u32 },
    /// Link the attached stages of program `handle`.
    LinkProgram { handle: u32 },
    /// Release one shader stage handle.
    DeleteShader { handle: u32 },
    /// Make `handle` the current program.
    UseProgram { handle: u32 },
    /// Release one program handle.
    DeleteProgram { handle: u32 },
    /// Set the integer uniform at `location` of the current program.
    UniformInt { location: i32, value: i32 },
    /// Set the four-component float uniform at `location` of the current
    /// program; the executor supplies the four float values.
    UniformFloat4 { location: i32 },
    /// Set the 4x4 float matrix uniform at `location` of the current
    /// program; the executor supplies the column-major matrix.
    UniformMat4 { location: i32 },
    /// Select texture unit `slot` for the texture calls that follow.
    ActiveTexture { slot: u32 },
    /// Make `handle` the current two-dimensional texture on the active unit.
    BindTexture2d { handle: u32 },
    /// Set texture parameter `pname` of the current texture to `param`.
    TexParameter { pname: u32, param: u32 },
    /// Upload a `width` x `height` image into the current texture; the
    /// executor supplies the pixel rows.
    TexImage2d { width: u32, height: u32 },
    /// Build the mip-map chain of the current texture.
    GenerateMipmap,
    /// Release one texture handle.
    DeleteTexture { handle: u32 },
    /// Enable alpha blending.
    EnableBlending,
    /// Select source-alpha, one-minus-source-alpha blending.
    BlendFuncAlpha,
    /// Clear the color buffer.
    ClearColorBuffer,
    /// Draw `num_indices` indices of the current vertex array as triangles,
    /// reading unsigned 32-bit indices from the current element buffer.
    DrawTriangles { num_indices: u32 },
}

/// Error for a device allocation call that handed back the zero handle,
/// which every wrapped device object type reserves for failure.
#[derive(Clone, Copy, Debug, PartialEq, Eq, Structural)]
pub struct ResourceAllocationError;

/// Decides whether a freshly allocated device handle is usable: the device
/// reports allocation failure as the zero handle, for every object type.
pub fn check_handle(handle: u32) -> (r: Result<u32, ResourceAllocationError>)
    ensures
        handle != 0 ==> r == Ok::<u32, ResourceAllocationError>(handle),
        handle == 0 ==> r == Err::<u32, ResourceAllocationError>(ResourceAllocationError),
{
    if handle != 0 {
        Ok(handle)
    } else {
        Err(ResourceAllocationError)
    }
}

} // verus!
