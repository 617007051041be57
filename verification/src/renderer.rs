//! The indexed draw call and its binding protocol.
//!
//! A renderer is stateless; its construction calls enable alpha blending
//! once. [`Renderer::draw`] computes the one invariant ordering contract of
//! the whole system: bind the program, bind its textures while the program
//! is current, bind the vertex array, issue the indexed triangle draw for
//! exactly the recorded index count, then unbind everything in reverse
//! order, so no binding state leaks across draw calls.

use vstd::prelude::*;
use crate::device::DeviceCall;
use crate::program::Program;
use crate::program::textures_bind_calls;
use crate::program::textures_bind_calls_prefix;
use crate::program::textures_unbind_calls;
use crate::program::textures_unbind_calls_prefix;
use crate::vertex_array::VertexArray;

verus! {

/// The one-time setup calls of a renderer: enable alpha blending with
/// source-alpha, one-minus-source-alpha factors.
pub open spec fn renderer_setup_calls() -> Seq<DeviceCall> {
    seq![DeviceCall::EnableBlending, DeviceCall::BlendFuncAlpha]
}

/// One frame's full draw sequence for a (vertex array, program) pair:
/// bind, draw the recorded index count, unbind in reverse order.
pub open spec fn draw_calls(vao: VertexArray, program: Program) -> Seq<DeviceCall> {
    seq![DeviceCall::UseProgram { handle: program.id() }] + textures_bind_calls(
        program.spec_textures(),
    ) + seq![
        DeviceCall::BindVertexArray { handle: vao.id() },
        DeviceCall::DrawTriangles { num_indices: vao.spec_num_indices() },
        DeviceCall::BindVertexArray { handle: 0 },
    ] + textures_unbind_calls(program.spec_textures()) + seq![
        DeviceCall::UseProgram { handle: 0 },
    ]
}

/// Issues draw calls for drawable units; otherwise stateless.
pub struct Renderer {}

impl Renderer {
    /// A renderer, together with its one-time blending setup calls.
    pub fn new() -> (r: (Renderer, Vec<DeviceCall>))
        ensures
            r.1@ == renderer_setup_calls(),
    {
        let mut calls: Vec<DeviceCall> = Vec::new();
        calls.push(DeviceCall::EnableBlending);
        calls.push(DeviceCall::BlendFuncAlpha);
        proof {
            assert(calls@ =~= renderer_setup_calls());
        }
        (Renderer {}, calls)
    }

    /// The call that clears the color buffer.
    pub fn clear(&self) -> (r: Vec<DeviceCall>)
        ensures
            r@ == seq![DeviceCall::ClearColorBuffer],
    {
        let mut calls: Vec<DeviceCall> = Vec::new();
        calls.push(DeviceCall::ClearColorBuffer);
        calls
    }

    /// One frame's draw sequence: bind the program, bind its textures, bind
    /// the vertex array, draw exactly the recorded index count as
    /// triangles, then unbind the vertex array, the textures and the
    /// program, in that order.
    pub fn draw(&self, vao: &VertexArray, program: &Program) -> (r: Vec<DeviceCall>)
        requires
            vao.live(),
            program.wf(),
            program.live(),
        ensures
            r@ == draw_calls(*vao, *program),
    {
        let num_indices = vao.get_num_indices_to_draw();

        let mut calls = program.bind();
        let mut texture_binds = program.bind_textures();
        calls.append(&mut texture_binds);
        let mut vao_bind = vao.bind();
        calls.append(&mut vao_bind);

        calls.push(DeviceCall::DrawTriangles { num_indices });

        let mut vao_unbind = vao.unbind();
        calls.append(&mut vao_unbind);
        let mut texture_unbinds = program.unbind_textures();
        calls.append(&mut texture_unbinds);
        let mut program_unbind = program.unbind();
        calls.append(&mut program_unbind);

        proof {
            assert(calls@ =~= draw_calls(*vao, *program));
        }
        calls
    }
}

/// How many indexed draw calls a call sequence holds.
pub open spec fn count_draw_triangles(s: Seq<DeviceCall>) -> int
    decreases s.len(),
{
    if s.len() == 0 {
        0
    } else {
        count_draw_triangles(s.drop_last()) + if s.last() is DrawTriangles {
            1int
        } else {
            0int
        }
    }
}

/// Draw calls are counted segment by segment.
proof fn lemma_count_draw_concat(a: Seq<DeviceCall>, b: Seq<DeviceCall>)
    ensures
        count_draw_triangles(a + b) == count_draw_triangles(a) + count_draw_triangles(b),
    decreases b.len(),
{
    if b.len() == 0 {
        assert(a + b =~= a);
    } else {
        assert((a + b).drop_last() =~= a + b.drop_last());
        assert((a + b).last() == b.last());
        lemma_count_draw_concat(a, b.drop_last());
    }
}

/// A sequence without draw calls has none at any position.
proof fn lemma_no_draw_at_any_position(s: Seq<DeviceCall>)
    requires
        count_draw_triangles(s) == 0,
    ensures
        forall|k: int| 0 <= k < s.len() ==> !((#[trigger] s[k]) is DrawTriangles),
    decreases s.len(),
{
    if s.len() > 0 {
        lemma_count_nonneg(s.drop_last());
        lemma_no_draw_at_any_position(s.drop_last());
        assert forall|k: int| 0 <= k < s.len() implies !((#[trigger] s[k]) is DrawTriangles) by {
            if k < s.len() - 1 {
                assert(s[k] == s.drop_last()[k]);
            } else {
                assert(s[k] == s.last());
            }
        }
    }
}

/// The draw-call count of a single call.
proof fn lemma_count_singleton(c: DeviceCall)
    ensures
        count_draw_triangles(seq![c]) == if c is DrawTriangles {
            1int
        } else {
            0int
        },
{
    assert(count_draw_triangles(Seq::<DeviceCall>::empty()) == 0);
    assert(seq![c].drop_last() =~= Seq::<DeviceCall>::empty());
    assert(seq![c].last() == c);
    assert(seq![c].len() == 1);
}

/// A draw-call count is never negative.
proof fn lemma_count_nonneg(s: Seq<DeviceCall>)
    ensures
        count_draw_triangles(s) >= 0,
    decreases s.len(),
{
    if s.len() > 0 {
        lemma_count_nonneg(s.drop_last());
    }
}

/// Binding textures issues no draw call.
proof fn lemma_textures_bind_no_draw(ts: Seq<crate::texture::Texture>, n: int)
    ensures
        count_draw_triangles(textures_bind_calls_prefix(ts, n)) == 0,
    decreases n,
{
    if n > 0 {
        lemma_textures_bind_no_draw(ts, n - 1);
        lemma_count_draw_concat(
            textures_bind_calls_prefix(ts, n - 1),
            crate::texture::texture_bind_calls(ts[n - 1].spec_slot(), ts[n - 1].id()),
        );
        let slot = ts[n - 1].spec_slot();
        let handle = ts[n - 1].id();
        let c = crate::texture::texture_bind_calls(slot, handle);
        assert(c =~= seq![DeviceCall::ActiveTexture { slot }] + seq![
            DeviceCall::BindTexture2d { handle },
        ]);
        lemma_count_draw_concat(
            seq![DeviceCall::ActiveTexture { slot }],
            seq![DeviceCall::BindTexture2d { handle }],
        );
        lemma_count_singleton(DeviceCall::ActiveTexture { slot });
        lemma_count_singleton(DeviceCall::BindTexture2d { handle });
    }
}

/// Unbinding textures issues no draw call.
proof fn lemma_textures_unbind_no_draw(ts: Seq<crate::texture::Texture>, n: int)
    ensures
        count_draw_triangles(textures_unbind_calls_prefix(ts, n)) == 0,
    decreases n,
{
    if n > 0 {
        lemma_textures_unbind_no_draw(ts, n - 1);
        lemma_count_draw_concat(
            textures_unbind_calls_prefix(ts, n - 1),
            seq![DeviceCall::BindTexture2d { handle: 0 }],
        );
        lemma_count_singleton(DeviceCall::BindTexture2d { handle: 0 });
    }
}

/// Law: one frame's draw sequence issues exactly one indexed draw call,
/// and that call requests exactly the vertex array's recorded index count
/// -- whatever the vertex buffer holds and whatever textures are attached.
pub proof fn lemma_draw_requests_recorded_count(vao: VertexArray, program: Program)
    ensures
        count_draw_triangles(draw_calls(vao, program)) == 1,
        forall|k: int|
            0 <= k < draw_calls(vao, program).len() ==> ((#[trigger] draw_calls(
                vao,
                program,
            )[k]) matches DeviceCall::DrawTriangles { num_indices } ==> num_indices
                == vao.spec_num_indices()),
{
    let ts = program.spec_textures();
    let head = seq![DeviceCall::UseProgram { handle: program.id() }];
    let binds = textures_bind_calls(ts);
    let core = seq![
        DeviceCall::BindVertexArray { handle: vao.id() },
        DeviceCall::DrawTriangles { num_indices: vao.spec_num_indices() },
        DeviceCall::BindVertexArray { handle: 0 },
    ];
    let unbinds = textures_unbind_calls(ts);
    let tail = seq![DeviceCall::UseProgram { handle: 0 }];
    let s = draw_calls(vao, program);
    assert(s == head + binds + core + unbinds + tail);

    lemma_textures_bind_no_draw(ts, ts.len() as int);
    lemma_textures_unbind_no_draw(ts, ts.len() as int);
    lemma_count_singleton(DeviceCall::UseProgram { handle: program.id() });
    lemma_count_singleton(DeviceCall::UseProgram { handle: 0 });
    assert(count_draw_triangles(head) == 0);
    assert(count_draw_triangles(tail) == 0);
    let core_a = DeviceCall::BindVertexArray { handle: vao.id() };
    let core_b = DeviceCall::DrawTriangles { num_indices: vao.spec_num_indices() };
    let core_c = DeviceCall::BindVertexArray { handle: 0 };
    assert(core =~= seq![core_a] + seq![core_b] + seq![core_c]);
    lemma_count_draw_concat(seq![core_a], seq![core_b]);
    lemma_count_draw_concat(seq![core_a] + seq![core_b], seq![core_c]);
    lemma_count_singleton(core_a);
    lemma_count_singleton(core_b);
    lemma_count_singleton(core_c);
    assert(count_draw_triangles(core) == 1);
    lemma_count_draw_concat(head, binds);
    lemma_count_draw_concat(head + binds, core);
    lemma_count_draw_concat(head + binds + core, unbinds);
    lemma_count_draw_concat(head + binds + core + unbinds, tail);

    lemma_count_draw_concat(head, binds);
    lemma_count_draw_concat(unbinds, tail);
    lemma_no_draw_at_any_position(head + binds);
    lemma_no_draw_at_any_position(unbinds + tail);
    assert forall|k: int|
        0 <= k < s.len() implies ((#[trigger] s[k]) matches DeviceCall::DrawTriangles {
        num_indices,
    } ==> num_indices == vao.spec_num_indices()) by {
        let front = head + binds;
        let back = unbinds + tail;
        assert(s =~= front + core + back);
        if k < front.len() {
            assert(s[k] == front[k]);
        } else if k < front.len() + core.len() {
            assert(s[k] == core[k - front.len()]);
        } else {
            assert(s[k] == back[k - front.len() - core.len()]);
        }
    }
}

} // verus!
