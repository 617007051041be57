//! Owning wrapper for one compiled shader stage.
//!
//! Compiling happens on the device: the executor creates the stage object,
//! hands it the source text, asks for the compile status and, on failure,
//! for the diagnostic log. [`Shader::new`] takes those reported plain values
//! and decides the outcome: a live wrapper when the device reported success,
//! a [`CompilationError`] carrying the stage kind and the log (truncated to
//! [`MAX_LOG_BYTES`] bytes) when it reported failure.

use vstd::prelude::*;
use crate::device::DeviceCall;

verus! {

/// Longest diagnostic log a compile or link error keeps, in bytes; longer
/// device logs are truncated.
pub const MAX_LOG_BYTES: usize = 512;

/// The pipeline stage a shader is compiled for.
#[derive(Clone, Copy, Debug, PartialEq, Eq, Structural)]
pub enum ShaderType {
    VertexShader,
    FragmentShader,
}

impl ShaderType {
    /// Numeric code the device uses for this stage kind.
    pub open spec fn spec_code(self) -> u32 {
        match self {
            ShaderType::VertexShader => crate::device::VERTEX_STAGE_CODE,
            ShaderType::FragmentShader => crate::device::FRAGMENT_STAGE_CODE,
        }
    }

    /// Numeric code the device uses for this stage kind.
    pub fn code(self) -> (r: u32)
        ensures
            r == self.spec_code(),
    {
        match self {
            ShaderType::VertexShader => crate::device::VERTEX_STAGE_CODE,
            ShaderType::FragmentShader => crate::device::FRAGMENT_STAGE_CODE,
        }
    }

    /// The stage kind's name, for diagnostic messages.
    pub fn name(self) -> (r: &'static str)
        ensures
            self == ShaderType::VertexShader ==> r@ == "vertex"@,
            self == ShaderType::FragmentShader ==> r@ == "fragment"@,
    {
        match self {
            ShaderType::VertexShader => "vertex",
            ShaderType::FragmentShader => "fragment",
        }
    }
}

/// What the device reported about a compile or link step: the status flag
/// and the diagnostic log bytes read back from it.
pub struct StatusReport {
    pub success: bool,
    pub log: Vec<u8>,
}

/// The first `MAX_LOG_BYTES` bytes of a device log.
pub open spec fn truncated_log(log: Seq<u8>) -> Seq<u8> {
    if log.len() <= MAX_LOG_BYTES {
        log
    } else {
        log.take(MAX_LOG_BYTES as int)
    }
}

/// Failure report of one compile step: the stage kind that failed and the
/// truncated device log.
#[derive(Debug)]
pub struct CompilationError {
    pub shader_type: ShaderType,
    pub log: Vec<u8>,
}

/// One compiled shader stage.
pub struct Shader {
    handle: Option<u32>,
    shader_type: ShaderType,
}

impl Shader {
    /// Whether this wrapper still owns its device handle.
    pub closed spec fn live(self) -> bool {
        self.handle is Some
    }

    /// The device handle this wrapper owns.
    pub closed spec fn id(self) -> u32 {
        self.handle->0
    }

    /// The stage kind this shader was compiled for.
    pub closed spec fn spec_shader_type(self) -> ShaderType {
        self.shader_type
    }

    /// A live wrapper never holds the zero handle.
    pub open spec fn wf(self) -> bool {
        self.live() ==> self.id() != 0
    }

    /// Decides the outcome of a compile step from what the device reported.
    /// Success yields a live wrapper around `handle`; failure yields a
    /// `CompilationError` carrying the stage kind and the truncated log.
    pub fn new(shader_type: ShaderType, handle: u32, report: StatusReport) -> (r: Result<
        Shader,
        CompilationError,
    >)
        requires
            handle != 0,
        ensures
            report.success ==> (r matches Ok(s) && s.wf() && s.live() && s.id() == handle
                && s.spec_shader_type() == shader_type),
            !report.success ==> (r matches Err(e) && e.shader_type == shader_type && e.log@
                == truncated_log(report.log@)),
    {
        if report.success {
            Ok(Shader { handle: Some(handle), shader_type })
        } else {
            Err(CompilationError { shader_type, log: truncate_log(report.log) })
        }
    }

    /// The device handle, for building attach calls within the crate.
    pub(crate) fn raw_id(&self) -> (r: u32)
        requires
            self.live(),
        ensures
            r == self.id(),
    {
        self.handle.unwrap()
    }

    /// Whether this wrapper still owns its device handle.
    pub fn is_live(&self) -> (r: bool)
        ensures
            r == self.live(),
    {
        self.handle.is_some()
    }

    /// The stage kind this shader was compiled for.
    pub fn get_shader_type(&self) -> (r: ShaderType)
        ensures
            r == self.spec_shader_type(),
    {
        self.shader_type
    }

    /// Releases the device handle exactly once: only the first call on a
    /// live shader yields the delete call.
    pub fn destroy(&mut self) -> (r: Vec<DeviceCall>)
        ensures
            !final(self).live(),
            final(self).spec_shader_type() == old(self).spec_shader_type(),
            old(self).live() ==> r@ == seq![
                DeviceCall::DeleteShader { handle: old(self).id() },
            ],
            !old(self).live() ==> r@ == Seq::<DeviceCall>::empty(),
    {
        let mut calls: Vec<DeviceCall> = Vec::new();
        if let Some(handle) = self.handle {
            calls.push(DeviceCall::DeleteShader { handle });
            self.handle = None;
        }
        calls
    }
}

/// Keeps at most the first `MAX_LOG_BYTES` bytes of a device log.
pub(crate) fn truncate_log(log: Vec<u8>) -> (r: Vec<u8>)
    ensures
        r@ == truncated_log(log@),
{
    if log.len() <= MAX_LOG_BYTES {
        log
    } else {
        let mut truncated: Vec<u8> = Vec::new();
        let mut i: usize = 0;
        while i < MAX_LOG_BYTES
            invariant
                i <= MAX_LOG_BYTES,
                MAX_LOG_BYTES < log@.len(),
                truncated@ == log@.take(i as int),
            decreases MAX_LOG_BYTES - i,
        {
            truncated.push(log[i]);
            proof {
                assert(truncated@ =~= log@.take(i + 1 as int));
            }
            i = i + 1;
        }
        truncated
    }
}

} // verus!
