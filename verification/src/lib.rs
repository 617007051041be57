//! Verified core of a small OpenGL wrapper layer.
//!
//! Every interaction with the graphics device is modelled as plain data: a
//! [`device::DeviceCall`] names one raw device call together with its
//! arguments. The types in this crate validate their inputs, track the
//! lifecycle of device handles, and compute the exact call sequences that a
//! thin unverified executor issues against the real device. All layout
//! arithmetic (attribute offsets, record strides), the bind/draw/unbind
//! protocol, and the compile/link error decisions are verified here.

pub mod device;
pub mod element_buffer;
pub mod program;
pub mod renderer;
pub mod shader;
pub mod texture;
pub mod vertex_array;
pub mod vertex_buffer;
pub mod vertex_buffer_layout;
