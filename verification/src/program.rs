//! Owning wrapper for one linked shader program and the textures attached
//! to it.
//!
//! Linking happens on the device: the executor creates the program object,
//! issues the attach-and-link calls that [`Program::link_calls`] computes,
//! and reads back the link status. [`Program::new`] takes that report and
//! decides the outcome: a live wrapper on success, a [`LinkError`] with the
//! truncated log on failure. Attached textures are kept in attachment
//! order; [`Program::bind_textures`] binds each on its own unit, and every
//! uniform upload brackets itself in bind and unbind calls, so no caller
//! has to manage the current-program state.

use vstd::prelude::*;
use crate::device::DeviceCall;
use crate::shader::Shader;
use crate::shader::ShaderType;
use crate::shader::StatusReport;
use crate::shader::truncated_log;
use crate::texture::Texture;
use crate::texture::texture_bind_calls;

verus! {

/// Failure report of one link step: the truncated device log.
#[derive(Debug)]
pub struct LinkError {
    pub log: Vec<u8>,
}

/// The calls that bind the first `n` of the given textures, each on its
/// own unit, in attachment order.
pub open spec fn textures_bind_calls_prefix(ts: Seq<Texture>, n: int) -> Seq<DeviceCall>
    decreases n,
{
    if n <= 0 {
        Seq::empty()
    } else {
        textures_bind_calls_prefix(ts, n - 1) + texture_bind_calls(
            ts[n - 1].spec_slot(),
            ts[n - 1].id(),
        )
    }
}

/// The calls that bind all given textures, in attachment order.
pub open spec fn textures_bind_calls(ts: Seq<Texture>) -> Seq<DeviceCall> {
    textures_bind_calls_prefix(ts, ts.len() as int)
}

/// The calls that unbind the first `n` of the given textures.
pub open spec fn textures_unbind_calls_prefix(ts: Seq<Texture>, n: int) -> Seq<DeviceCall>
    decreases n,
{
    if n <= 0 {
        Seq::empty()
    } else {
        textures_unbind_calls_prefix(ts, n - 1) + seq![DeviceCall::BindTexture2d { handle: 0 }]
    }
}

/// The calls that unbind all given textures.
pub open spec fn textures_unbind_calls(ts: Seq<Texture>) -> Seq<DeviceCall> {
    textures_unbind_calls_prefix(ts, ts.len() as int)
}

/// The calls that release the first `n` of the given textures' handles.
pub open spec fn textures_delete_calls_prefix(ts: Seq<Texture>, n: int) -> Seq<DeviceCall>
    decreases n,
{
    if n <= 0 {
        Seq::empty()
    } else {
        textures_delete_calls_prefix(ts, n - 1) + seq![
            DeviceCall::DeleteTexture { handle: ts[n - 1].id() },
        ]
    }
}

/// The calls that release a program's handle and then each attached
/// texture's handle, in attachment order.
pub open spec fn program_destroy_calls(program_id: u32, ts: Seq<Texture>) -> Seq<DeviceCall> {
    seq![DeviceCall::DeleteProgram { handle: program_id }] + textures_delete_calls_prefix(
        ts,
        ts.len() as int,
    )
}

/// The calls that attach one texture to a program: bind the program, bind
/// the texture on its unit, point the sampler uniform at that unit, then
/// restore both bindings.
pub open spec fn add_texture_calls(program_id: u32, t: Texture, location: i32) -> Seq<
    DeviceCall,
> {
    seq![DeviceCall::UseProgram { handle: program_id }] + texture_bind_calls(
        t.spec_slot(),
        t.id(),
    ) + seq![
        DeviceCall::UniformInt { location, value: t.spec_slot() as i32 },
        DeviceCall::BindTexture2d { handle: 0 },
        DeviceCall::UseProgram { handle: 0 },
    ]
}

/// Law: the texture unit a texture is addressed through never drifts. In
/// the attach sequence, the unit selected and the value written into the
/// sampler uniform are both the slot assigned at load time, and the bind
/// sequence selects that same slot again.
pub proof fn lemma_texture_slot_round_trip(program_id: u32, t: Texture, location: i32)
    ensures
        add_texture_calls(program_id, t, location)[1] == (DeviceCall::ActiveTexture {
            slot: t.spec_slot(),
        }),
        add_texture_calls(program_id, t, location)[3] == (DeviceCall::UniformInt {
            location,
            value: t.spec_slot() as i32,
        }),
        texture_bind_calls(t.spec_slot(), t.id())[0] == (DeviceCall::ActiveTexture {
            slot: t.spec_slot(),
        }),
{
}

/// One linked shader program owning the textures attached to it.
pub struct Program {
    handle: Option<u32>,
    textures: Vec<Texture>,
}

impl Program {
    /// Whether this wrapper still owns its device handle.
    pub closed spec fn live(self) -> bool {
        self.handle is Some
    }

    /// The device handle this wrapper owns.
    pub closed spec fn id(self) -> u32 {
        self.handle->0
    }

    /// The attached textures, in attachment order.
    pub closed spec fn spec_textures(self) -> Seq<Texture> {
        self.textures@
    }

    /// A live program never holds the zero handle; every attached texture
    /// is live and well-formed; a destroyed program has released its
    /// textures too.
    pub open spec fn wf(self) -> bool {
        &&& self.live() ==> self.id() != 0
        &&& forall|k: int|
            0 <= k < self.spec_textures().len() ==> (#[trigger] self.spec_textures()[k]).wf()
                && self.spec_textures()[k].live()
        &&& !self.live() ==> self.spec_textures().len() == 0
    }

    /// The calls that link two compiled stages into program `handle`:
    /// attach the vertex stage, attach the fragment stage, link.
    pub fn link_calls(handle: u32, vertex_shader: &Shader, fragment_shader: &Shader) -> (r: Vec<
        DeviceCall,
    >)
        requires
            handle != 0,
            vertex_shader.live(),
            fragment_shader.live(),
            vertex_shader.spec_shader_type() == ShaderType::VertexShader,
            fragment_shader.spec_shader_type() == ShaderType::FragmentShader,
        ensures
            r@ == seq![
                DeviceCall::AttachShader { program: handle, shader: vertex_shader.id() },
                DeviceCall::AttachShader { program: handle, shader: fragment_shader.id() },
                DeviceCall::LinkProgram { handle },
            ],
    {
        let mut calls: Vec<DeviceCall> = Vec::new();
        calls.push(DeviceCall::AttachShader {
            program: handle,
            shader: vertex_shader.raw_id(),
        });
        calls.push(DeviceCall::AttachShader {
            program: handle,
            shader: fragment_shader.raw_id(),
        });
        calls.push(DeviceCall::LinkProgram { handle });
        calls
    }

    /// Decides the outcome of a link step from what the device reported.
    /// Success yields a live program with no textures attached yet;
    /// failure yields a `LinkError` carrying the truncated log.
    pub fn new(handle: u32, report: StatusReport) -> (r: Result<Program, LinkError>)
        requires
            handle != 0,
        ensures
            report.success ==> (r matches Ok(p) && p.wf() && p.live() && p.id() == handle
                && p.spec_textures().len() == 0),
            !report.success ==> (r matches Err(e) && e.log@ == truncated_log(report.log@)),
    {
        if report.success {
            Ok(Program { handle: Some(handle), textures: Vec::new() })
        } else {
            Err(LinkError { log: crate::shader::truncate_log(report.log) })
        }
    }

    /// Whether this wrapper still owns its device handle.
    pub fn is_live(&self) -> (r: bool)
        ensures
            r == self.live(),
    {
        self.handle.is_some()
    }

    /// The call that makes this program current.
    pub fn bind(&self) -> (r: Vec<DeviceCall>)
        requires
            self.live(),
        ensures
            r@ == seq![DeviceCall::UseProgram { handle: self.id() }],
    {
        let mut calls: Vec<DeviceCall> = Vec::new();
        calls.push(DeviceCall::UseProgram { handle: self.handle.unwrap() });
        calls
    }

    /// The call that clears the current program binding.
    pub fn unbind(&self) -> (r: Vec<DeviceCall>)
        ensures
            r@ == seq![DeviceCall::UseProgram { handle: 0 }],
    {
        let mut calls: Vec<DeviceCall> = Vec::new();
        calls.push(DeviceCall::UseProgram { handle: 0 });
        calls
    }

    /// Attaches one texture: the returned calls bind this program, bind the
    /// texture on the unit chosen at its load time, set the sampler uniform
    /// at `uniform_location` to exactly that unit, and restore both
    /// bindings. The texture joins the program's attachment order. A
    /// location of -1 (name not found) is a programmer error, excluded by
    /// precondition.
    pub fn add_texture2d(&mut self, texture: Texture, uniform_location: i32) -> (r: Vec<
        DeviceCall,
    >)
        requires
            old(self).wf(),
            old(self).live(),
            texture.wf(),
            texture.live(),
            uniform_location != -1,
        ensures
            final(self).wf(),
            final(self).live(),
            final(self).id() == old(self).id(),
            final(self).spec_textures() == old(self).spec_textures().push(texture),
            r@ == add_texture_calls(old(self).id(), texture, uniform_location),
    {
        let mut calls: Vec<DeviceCall> = Vec::new();
        let mut bind_self = self.bind();
        calls.append(&mut bind_self);
        let mut bind_texture = texture.bind();
        calls.append(&mut bind_texture);
        calls.push(DeviceCall::UniformInt {
            location: uniform_location,
            value: texture.get_slot() as i32,
        });
        let mut unbind_texture = texture.unbind();
        calls.append(&mut unbind_texture);
        let mut unbind_self = self.unbind();
        calls.append(&mut unbind_self);

        self.textures.push(texture);

        proof {
            assert(calls@ =~= add_texture_calls(old(self).id(), texture, uniform_location));
            let ts = self.spec_textures();
            assert forall|k: int| 0 <= k < ts.len() implies (#[trigger] ts[k]).wf()
                && ts[k].live() by {
                if k < old(self).spec_textures().len() {
                    assert(ts[k] == old(self).spec_textures()[k]);
                } else {
                    assert(ts[k] == texture);
                }
            }
        }
        calls
    }

    /// The calls that bind every attached texture on its own unit, in
    /// attachment order.
    pub fn bind_textures(&self) -> (r: Vec<DeviceCall>)
        requires
            self.wf(),
        ensures
            r@ == textures_bind_calls(self.spec_textures()),
    {
        let mut calls: Vec<DeviceCall> = Vec::new();
        let mut k: usize = 0;
        while k < self.textures.len()
            invariant
                self.wf(),
                k <= self.textures@.len(),
                calls@ == textures_bind_calls_prefix(self.spec_textures(), k as int),
            decreases self.textures@.len() - k,
        {
            let mut texture_calls = self.textures[k].bind();
            calls.append(&mut texture_calls);
            k = k + 1;
        }
        calls
    }

    /// The calls that unbind every attached texture.
    pub fn unbind_textures(&self) -> (r: Vec<DeviceCall>)
        requires
            self.wf(),
        ensures
            r@ == textures_unbind_calls(self.spec_textures()),
    {
        let mut calls: Vec<DeviceCall> = Vec::new();
        let mut k: usize = 0;
        while k < self.textures.len()
            invariant
                self.wf(),
                k <= self.textures@.len(),
                calls@ == textures_unbind_calls_prefix(self.spec_textures(), k as int),
            decreases self.textures@.len() - k,
        {
            let mut texture_calls = self.textures[k].unbind();
            calls.append(&mut texture_calls);
            k = k + 1;
        }
        calls
    }

    /// The calls that set the four-component float uniform at
    /// `uniform_location`: bind this program, upload (the executor supplies
    /// the four floats), restore the binding. A location of -1 is a
    /// programmer error, excluded by precondition.
    pub fn set_uniform_4f(&self, uniform_location: i32) -> (r: Vec<DeviceCall>)
        requires
            self.live(),
            uniform_location != -1,
        ensures
            r@ == seq![
                DeviceCall::UseProgram { handle: self.id() },
                DeviceCall::UniformFloat4 { location: uniform_location },
                DeviceCall::UseProgram { handle: 0 },
            ],
    {
        let mut calls: Vec<DeviceCall> = Vec::new();
        calls.push(DeviceCall::UseProgram { handle: self.handle.unwrap() });
        calls.push(DeviceCall::UniformFloat4 { location: uniform_location });
        calls.push(DeviceCall::UseProgram { handle: 0 });
        calls
    }

    /// The calls that set the 4x4 float matrix uniform at
    /// `uniform_location`, bracketed in bind and unbind like
    /// [`Program::set_uniform_4f`].
    pub fn set_uniform_mat4(&self, uniform_location: i32) -> (r: Vec<DeviceCall>)
        requires
            self.live(),
            uniform_location != -1,
        ensures
            r@ == seq![
                DeviceCall::UseProgram { handle: self.id() },
                DeviceCall::UniformMat4 { location: uniform_location },
                DeviceCall::UseProgram { handle: 0 },
            ],
    {
        let mut calls: Vec<DeviceCall> = Vec::new();
        calls.push(DeviceCall::UseProgram { handle: self.handle.unwrap() });
        calls.push(DeviceCall::UniformMat4 { location: uniform_location });
        calls.push(DeviceCall::UseProgram { handle: 0 });
        calls
    }

    /// Releases the program handle and every attached texture's handle,
    /// each exactly once: only the first call on a live program yields any
    /// delete call.
    pub fn destroy(&mut self) -> (r: Vec<DeviceCall>)
        requires
            old(self).wf(),
        ensures
            final(self).wf(),
            !final(self).live(),
            final(self).spec_textures().len() == 0,
            old(self).live() ==> r@ == program_destroy_calls(
                old(self).id(),
                old(self).spec_textures(),
            ),
            !old(self).live() ==> r@ == Seq::<DeviceCall>::empty(),
    {
        let mut calls: Vec<DeviceCall> = Vec::new();
        if let Some(handle) = self.handle {
            calls.push(DeviceCall::DeleteProgram { handle });
            self.handle = None;

            let ghost orig = old(self).textures@;
            let mut remaining: Vec<Texture> = Vec::new();
            std::mem::swap(&mut remaining, &mut self.textures);

            let ghost mut k: int = 0;
            proof {
                assert forall|i: int| 0 <= i < orig.len() implies (#[trigger] orig[i]).wf()
                    && orig[i].live() by {
                    assert(old(self).spec_textures()[i].wf());
                    assert(old(self).spec_textures()[i].live());
                }
            }
            while remaining.len() > 0
                invariant
                    0 <= k,
                    k + remaining@.len() == orig.len(),
                    remaining@ == orig.skip(k),
                    forall|i: int| 0 <= i < orig.len() ==> (#[trigger] orig[i]).wf()
                        && orig[i].live(),
                    calls@ == seq![DeviceCall::DeleteProgram { handle }]
                        + textures_delete_calls_prefix(orig, k),
                decreases remaining@.len(),
            {
                let mut texture = remaining.remove(0);
                proof {
                    assert(orig.skip(k)[0] == orig[k]);
                }
                let mut texture_calls = texture.destroy();
                calls.append(&mut texture_calls);
                proof {
                    assert(remaining@ =~= orig.skip(k + 1));
                    assert(calls@ =~= seq![DeviceCall::DeleteProgram { handle }]
                        + textures_delete_calls_prefix(orig, k + 1));
                    k = k + 1;
                }
            }
            proof {
                assert(calls@ =~= program_destroy_calls(old(self).id(), orig));
            }
        }
        calls
    }
}

} // verus!
