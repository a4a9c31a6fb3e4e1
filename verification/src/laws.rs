//! The crate-level guarantees, proved once and for all from the
//! contracts of the operations they speak about.

use vstd::prelude::*;

use crate::buffer::{init_view_post, of_view_post, BufferAccessor, BufferData, BufferView,
    GpuBuffer, VertexBuffer};
use crate::command::GlCommand;
use crate::error::GlError;
use crate::material::Material;
use crate::opengl::{
    spec_draw_primitive_cmds, spec_release_all_buffers, spec_release_all_cmds,
    spec_uniform_mat4_cmds, BufferRec, Model3DOpenGL, Vao,
};
use crate::program::{spec_texture_uniform_of, spec_uniform_of};
use crate::shader_instantiable::{
    spec_gl_draw_cmds, spec_material_cmds, spec_mat_texture_cmds, Instantiable,
};
use crate::texture::Texture;
use crate::types::{Mat4, ShortIndex, TextureId, UniformId, VertexAttr};

verus! {

/// Idempotent buffer creation: realizing two distinct vertex views
/// against the same raw data blob yields the same shared driver buffer,
/// and the allocation happens exactly once - the first realization
/// creates, the second observes.
pub proof fn lemma_buffer_creation_idempotent(
    pre1: VertexBuffer,
    post1: VertexBuffer,
    view1: BufferAccessor,
    pre2: VertexBuffer,
    post2: VertexBuffer,
    view2: BufferAccessor,
    data: BufferData,
    client0: GpuBuffer,
    client1: GpuBuffer,
    client2: GpuBuffer,
    rc0: Model3DOpenGL,
    rc1: Model3DOpenGL,
    rc2: Model3DOpenGL,
)
    requires
        rc0.buffers@.len() < 0xffff_ffff,
        client0.spec_is_none(),
        pre1.gpu_buffer.spec_is_none(),
        pre2.gpu_buffer.spec_is_none(),
        of_view_post(pre1, post1, view1, data, client0, client1, rc0, rc1),
        of_view_post(pre2, post2, view2, data, client1, client2, rc1, rc2),
    ensures
        post1.gpu_buffer == post2.gpu_buffer,
        client2 == client1,
        rc1.commands@ == rc0.commands@.push(
            GlCommand::CreateArrayBuffer {
                handle: (rc0.buffers.len() + 1) as u32,
                byte_length: data.byte_length,
            },
        ),
        rc2.commands@ == rc1.commands@,
{
    let h = (rc0.buffers.len() + 1) as u32;
    assert(h != 0);
    assert(client1.handle == h);
    assert(post1.gpu_buffer.handle == h);
    assert(client2.handle == client1.handle);
    assert(post2.gpu_buffer.handle == client1.handle);
    assert(post1.gpu_buffer == GpuBuffer { handle: h });
    assert(post2.gpu_buffer == GpuBuffer { handle: h });
    assert(client2 == GpuBuffer { handle: h });
    assert(client1 == GpuBuffer { handle: h });
}

/// Kind immutability: once a view is realized, an attempt to realize it
/// as the other kind fails deterministically with `ViewKindMismatch` and
/// changes nothing, and no realization ever changes a realized view's
/// kind.
pub proof fn lemma_view_kind_immutable(
    view_pre: BufferView,
    view_post: BufferView,
    acc: BufferAccessor,
    attr: VertexAttr,
    data: BufferData,
    client_pre: GpuBuffer,
    client_post: GpuBuffer,
    rc_pre: Model3DOpenGL,
    rc_post: Model3DOpenGL,
    r: Result<(), GlError>,
)
    requires
        view_pre.spec_is_realized(),
        init_view_post(
            view_pre,
            view_post,
            acc,
            attr,
            data,
            client_pre,
            client_post,
            rc_pre,
            rc_post,
            r,
        ),
    ensures
        view_pre is IndexBuffer && attr != VertexAttr::Indices ==> r == Result::<
            (),
            GlError,
        >::Err(GlError::ViewKindMismatch) && view_post == view_pre && client_post == client_pre
            && rc_post == rc_pre,
        view_pre is VertexBuffer && attr == VertexAttr::Indices ==> r == Result::<
            (),
            GlError,
        >::Err(GlError::ViewKindMismatch) && view_post == view_pre && client_post == client_pre
            && rc_post == rc_pre,
        view_pre is IndexBuffer ==> view_post is IndexBuffer,
        view_pre is VertexBuffer ==> view_post is VertexBuffer,
{
}

/// Index element-type validation: realizing a fresh view for the index
/// role succeeds exactly for the integer element types and fails with
/// `InvalidElementType`, changing nothing, for the floating-point ones.
pub proof fn lemma_index_element_type_validation(
    view_pre: BufferView,
    view_post: BufferView,
    acc: BufferAccessor,
    data: BufferData,
    client_pre: GpuBuffer,
    client_post: GpuBuffer,
    rc_pre: Model3DOpenGL,
    rc_post: Model3DOpenGL,
    r: Result<(), GlError>,
)
    requires
        !view_pre.spec_is_realized(),
        init_view_post(
            view_pre,
            view_post,
            acc,
            VertexAttr::Indices,
            data,
            client_pre,
            client_post,
            rc_pre,
            rc_post,
            r,
        ),
    ensures
        r is Ok <==> acc.ele_type.is_int(),
        !acc.ele_type.is_int() ==> r == Result::<(), GlError>::Err(GlError::InvalidElementType)
            && view_post == view_pre && rc_post == rc_pre,
{
}

/// Slot absence tolerance, resolution side: a uniform role that none of
/// a program's entries carry resolves to 'absent'.
pub proof fn lemma_unresolved_uniform_absent(entries: Seq<(u32, UniformId)>, id: UniformId)
    requires
        forall|j: int| 0 <= j < entries.len() ==> (#[trigger] entries[j]).1 != id,
    ensures
        spec_uniform_of(entries, id) is None,
    decreases entries.len(),
{
    if entries.len() > 0 {
        lemma_unresolved_uniform_absent(entries.drop_first(), id);
    }
}

/// Slot absence tolerance, resolution side: a texture role that none of
/// a program's entries carry resolves to 'absent'.
pub proof fn lemma_unresolved_texture_absent(entries: Seq<(u32, TextureId, u32)>, id: TextureId)
    requires
        forall|j: int| 0 <= j < entries.len() ==> (#[trigger] entries[j]).1 != id,
    ensures
        spec_texture_uniform_of(entries, id) is None,
    decreases entries.len(),
{
    if entries.len() > 0 {
        lemma_unresolved_texture_absent(entries.drop_first(), id);
    }
}

/// Slot absence tolerance, end to end: a program resolved from maps that
/// never mention a uniform role answers 'absent' for it, so every later
/// write to that role is a no-op.
pub proof fn lemma_link_omits_role(
    linked: crate::program::LinkedProgram,
    named_attrs: Seq<(String, VertexAttr)>,
    named_uniforms: Seq<(String, UniformId)>,
    named_uniform_buffers: Seq<(String, usize)>,
    named_textures: Seq<(String, TextureId, u32)>,
    p: crate::program::Program,
    id: UniformId,
)
    requires
        crate::opengl::link_program_post(
            linked,
            named_attrs,
            named_uniforms,
            named_uniform_buffers,
            named_textures,
            Result::<crate::program::Program, GlError>::Ok(p),
        ),
        forall|j: int| 0 <= j < named_uniforms.len() ==> (#[trigger] named_uniforms[j]).1 != id,
        forall|j: int|
            0 <= j < named_uniform_buffers.len() ==> UniformId::Buffer(
                (#[trigger] named_uniform_buffers[j]).1 as u8,
            ) != id,
    ensures
        spec_uniform_of(p.uniforms@, id) is None,
{
    let ut = crate::program::table_view(linked.uniforms@);
    let bt = crate::program::table_view(linked.uniform_blocks@);
    let ru = crate::program::spec_resolved_uniforms(ut, named_uniforms);
    let rb = crate::program::spec_resolved_buffers(bt, named_uniform_buffers);
    assert(p.uniforms@ == ru + rb);
    assert forall|j: int| 0 <= j < p.uniforms@.len() implies (#[trigger] p.uniforms@[j]).1
        != id by {
        if j < ru.len() {
            assert(p.uniforms@[j] == ru[j]);
            assert(ru[j].1 == named_uniforms[j].1);
        } else {
            assert(p.uniforms@[j] == rb[j - ru.len()]);
            assert(rb[j - ru.len()].1 == UniformId::Buffer(
                named_uniform_buffers[j - ru.len()].1 as u8,
            ));
        }
    }
    lemma_unresolved_uniform_absent(p.uniforms@, id);
}

/// Slot absence tolerance, draw side: a write to an absent uniform role
/// emits nothing at all - the draw completes while the write is skipped.
pub proof fn lemma_absent_role_writes_nothing(prog: crate::program::Program, id: UniformId, mat:
    Mat4)
    requires
        spec_uniform_of(prog.uniforms@, id) is None,
    ensures
        spec_uniform_mat4_cmds(prog, id, mat) == Seq::<GlCommand>::empty(),
{
}

/// Resource release on last drop: giving up `k` of the `n` references to
/// a live buffer releases nothing while `k < n`, and releases the driver
/// resource exactly once when `k == n` - at the last release and not
/// before.
pub proof fn lemma_release_on_last_drop(bufs: Seq<BufferRec>, hs: Seq<u32>, i: int, h: u32)
    requires
        0 <= i <= hs.len(),
        forall|j: int| i <= j < hs.len() ==> hs[j] == h,
        1 <= h <= bufs.len(),
        hs.len() - i <= bufs[h - 1].refs,
        hs.len() - i > 0 ==> bufs[h - 1].live,
    ensures
        spec_release_all_buffers(bufs, hs, i).len() == bufs.len(),
        forall|g: int|
            0 <= g < bufs.len() && g != h - 1 ==> spec_release_all_buffers(bufs, hs, i)[g]
                == bufs[g],
        hs.len() - i < bufs[h - 1].refs ==> spec_release_all_cmds(bufs, hs, i) == Seq::<
            GlCommand,
        >::empty() && spec_release_all_buffers(bufs, hs, i)[h - 1] == (BufferRec {
            refs: (bufs[h - 1].refs - (hs.len() - i)) as u32,
            live: bufs[h - 1].live,
        }),
        hs.len() - i == bufs[h - 1].refs && hs.len() - i > 0 ==> spec_release_all_cmds(bufs, hs, i)
            == seq![GlCommand::DeleteBuffer { handle: h }] && spec_release_all_buffers(
            bufs,
            hs,
            i,
        )[h - 1] == (BufferRec { refs: 0, live: false }),
    decreases hs.len() - i,
{
    if i < hs.len() {
        let bufs2 = crate::opengl::spec_release_buffers(bufs, h);
        assert(bufs[h - 1].refs >= 1);
        assert(bufs2.len() == bufs.len());
        assert(bufs2[h - 1].refs == bufs[h - 1].refs - 1);
        assert(hs.len() - (i + 1) > 0 ==> bufs2[h - 1].live);
        assert(forall|g: int| 0 <= g < bufs.len() && g != h - 1 ==> bufs2[g] == bufs[g]);
        lemma_release_on_last_drop(bufs2, hs, i + 1, h);
        if bufs[h - 1].refs == 1 {
            assert(spec_release_all_cmds(bufs, hs, i) =~= seq![
                GlCommand::DeleteBuffer { handle: h },
            ] + spec_release_all_cmds(bufs2, hs, i + 1));
            assert(spec_release_all_cmds(bufs2, hs, i + 1) =~= Seq::<GlCommand>::empty());
            assert(spec_release_all_cmds(bufs, hs, i) =~= seq![
                GlCommand::DeleteBuffer { handle: h },
            ]);
        } else {
            assert(spec_release_all_cmds(bufs, hs, i) =~= Seq::empty() + spec_release_all_cmds(
                bufs2,
                hs,
                i + 1,
            ));
            if hs.len() - i < bufs[h - 1].refs {
                assert(spec_release_all_cmds(bufs, hs, i) =~= Seq::<GlCommand>::empty());
            } else {
                assert(spec_release_all_cmds(bufs, hs, i) =~= seq![
                    GlCommand::DeleteBuffer { handle: h },
                ]);
            }
        }
    }
}

/// How many material uniform-block pushes a command stream holds.
pub open spec fn spec_count_material_pushes(cmds: Seq<GlCommand>) -> nat
    decreases cmds.len(),
{
    if cmds.len() == 0 {
        0
    } else {
        (if cmds[0] is SetUniformFloats {
            1nat
        } else {
            0nat
        }) + spec_count_material_pushes(cmds.drop_first())
    }
}

/// The push count of a one-command stream.
proof fn lemma_count_one(c: GlCommand)
    ensures
        spec_count_material_pushes(seq![c]) == (if c is SetUniformFloats {
            1nat
        } else {
            0nat
        }),
{
    assert(seq![c].len() == 1);
    assert(seq![c][0] == c);
    assert(seq![c].drop_first() =~= Seq::<GlCommand>::empty());
    assert(spec_count_material_pushes(Seq::<GlCommand>::empty()) == 0);
}

/// The push count of a two-command stream.
proof fn lemma_count_two(a: GlCommand, b: GlCommand)
    ensures
        spec_count_material_pushes(seq![a, b]) == (if a is SetUniformFloats {
            1nat
        } else {
            0nat
        }) + (if b is SetUniformFloats {
            1nat
        } else {
            0nat
        }),
{
    assert(seq![a, b].drop_first() =~= seq![b]);
    lemma_count_one(b);
}

/// The push count distributes over concatenation.
proof fn lemma_count_concat(a: Seq<GlCommand>, b: Seq<GlCommand>)
    ensures
        spec_count_material_pushes(a + b) == spec_count_material_pushes(a)
            + spec_count_material_pushes(b),
    decreases a.len(),
{
    if a.len() == 0 {
        assert(a + b =~= b);
    } else {
        assert((a + b).drop_first() =~= a.drop_first() + b);
        assert((a + b)[0] == a[0]);
        lemma_count_concat(a.drop_first(), b);
    }
}

/// Texture rebinds push no material block.
proof fn lemma_count_textures_zero(
    prog: crate::program::Program,
    entries: Seq<(TextureId, ShortIndex)>,
    textures: Seq<Texture>,
    i: int,
)
    ensures
        spec_count_material_pushes(spec_mat_texture_cmds(prog, entries, textures, i)) == 0,
    decreases entries.len() - i,
{
    if 0 <= i < entries.len() {
        lemma_count_textures_zero(prog, entries, textures, i + 1);
        let head: Seq<GlCommand> = if !entries[i].1.spec_is_none() {
            crate::opengl::spec_use_texture_cmds(
                prog,
                entries[i].0,
                textures[entries[i].1.spec_index()].handle,
            )
        } else {
            Seq::empty()
        };
        lemma_count_concat(head, spec_mat_texture_cmds(prog, entries, textures, i + 1));
        if !entries[i].1.spec_is_none() {
            match spec_texture_uniform_of(prog.textures@, entries[i].0) {
                Some((u, unit)) => {
                    lemma_count_one(
                        GlCommand::BindTexture {
                            slot: u,
                            unit,
                            texture: textures[entries[i].1.spec_index()].handle,
                        },
                    );
                },
                None => {},
            }
        }
        assert(spec_count_material_pushes(head) == 0);
    }
}

/// A material change pushes the block exactly once when the program
/// declares the material uniform, and not at all when it does not.
proof fn lemma_count_material_cmds(
    prog: crate::program::Program,
    mat: Material,
    textures: Seq<Texture>,
)
    ensures
        spec_count_material_pushes(spec_material_cmds(prog, mat, textures)) == (
        if spec_uniform_of(prog.uniforms@, UniformId::Material) is Some {
            1nat
        } else {
            0nat
        }),
{
    let head = crate::opengl::spec_uniform_floats_cmds(prog, UniformId::Material, mat.base_data);
    lemma_count_textures_zero(prog, mat.textures@, textures, 0);
    lemma_count_concat(head, spec_mat_texture_cmds(prog, mat.textures@, textures, 0));
    match spec_uniform_of(prog.uniforms@, UniformId::Material) {
        Some(u) => {
            lemma_count_one(GlCommand::SetUniformFloats { slot: u, data: mat.base_data });
        },
        None => {},
    }
    assert(spec_count_material_pushes(head) == (if spec_uniform_of(
        prog.uniforms@,
        UniformId::Material,
    ) is Some {
        1nat
    } else {
        0nat
    }));
}

/// Neither a matrix write nor a draw pushes a material block.
proof fn lemma_count_step_zero(
    prog: crate::program::Program,
    id: UniformId,
    mat: Mat4,
    vaos: Seq<Vao>,
    p: crate::shader_instantiable::Primitive,
)
    ensures
        spec_count_material_pushes(spec_uniform_mat4_cmds(prog, id, mat)) == 0,
        spec_count_material_pushes(spec_draw_primitive_cmds(vaos, p)) == 0,
{
    match spec_uniform_of(prog.uniforms@, id) {
        Some(u) => {
            lemma_count_one(GlCommand::SetUniformMat4 { slot: u, mat });
        },
        None => {},
    }
    if !p.vertices_index.spec_is_none() {
        let v = vaos[p.vertices_index.spec_index()];
        lemma_count_two(
            GlCommand::BindVao { vao: v.handle },
            GlCommand::DrawElements {
                mode: p.primitive_type,
                count: p.index_count,
                ele_type: v.index_type,
                byte_offset: p.byte_offset,
            },
        );
    } else {
        lemma_count_one(
            GlCommand::DrawArrays {
                mode: p.primitive_type,
                first: p.byte_offset,
                count: p.index_count,
            },
        );
    }
}

/// Minimal state change, first half: two primitives drawn back-to-back
/// with the same material push the material uniform block exactly once
/// (when the program declares it at all), not twice.
pub proof fn lemma_same_material_single_push(
    prog: crate::program::Program,
    inst: Instantiable,
    vaos: Seq<Vao>,
)
    requires
        inst.render_recipe.primitives@.len() == 2,
        inst.render_recipe.matrix_for_primitives@.len() == 2,
        inst.render_recipe.primitives@[0].material_index
            == inst.render_recipe.primitives@[1].material_index,
        !inst.render_recipe.primitives@[0].material_index.spec_is_none(),
    ensures
        spec_count_material_pushes(
            spec_gl_draw_cmds(prog, inst, vaos, 0, ShortIndex { value: 65535 }, false, 0),
        ) == (if spec_uniform_of(prog.uniforms@, UniformId::Material) is Some {
            1nat
        } else {
            0nat
        }),
{
    lemma_count_draw_pair(prog, inst, vaos);
}

/// Minimal state change, second half: two primitives with different
/// materials push the material uniform block once each, in primitive
/// order.
pub proof fn lemma_distinct_materials_two_pushes(
    prog: crate::program::Program,
    inst: Instantiable,
    vaos: Seq<Vao>,
)
    requires
        inst.render_recipe.primitives@.len() == 2,
        inst.render_recipe.matrix_for_primitives@.len() == 2,
        inst.render_recipe.primitives@[0].material_index
            != inst.render_recipe.primitives@[1].material_index,
        !inst.render_recipe.primitives@[0].material_index.spec_is_none(),
        !inst.render_recipe.primitives@[1].material_index.spec_is_none(),
    ensures
        spec_count_material_pushes(
            spec_gl_draw_cmds(prog, inst, vaos, 0, ShortIndex { value: 65535 }, false, 0),
        ) == 2 * (if spec_uniform_of(prog.uniforms@, UniformId::Material) is Some {
            1nat
        } else {
            0nat
        }),
{
    lemma_count_draw_pair(prog, inst, vaos);
}

/// The push count of a two-primitive draw: one material push per
/// primitive whose material differs from the one pushed before it.
proof fn lemma_count_draw_pair(
    prog: crate::program::Program,
    inst: Instantiable,
    vaos: Seq<Vao>,
)
    requires
        inst.render_recipe.primitives@.len() == 2,
        inst.render_recipe.matrix_for_primitives@.len() == 2,
    ensures
        spec_count_material_pushes(
            spec_gl_draw_cmds(prog, inst, vaos, 0, ShortIndex { value: 65535 }, false, 0),
        ) == ({
            let p0 = inst.render_recipe.primitives@[0];
            let p1 = inst.render_recipe.primitives@[1];
            let none = ShortIndex { value: 65535 };
            let push0 = !p0.material_index.spec_is_none() && p0.material_index != none;
            let last1 = if push0 {
                p0.material_index
            } else {
                none
            };
            let push1 = !p1.material_index.spec_is_none() && p1.material_index != last1;
            let per_push: nat = if spec_uniform_of(prog.uniforms@, UniformId::Material) is Some {
                1nat
            } else {
                0nat
            };
            ((if push0 {
                1nat
            } else {
                0nat
            }) + (if push1 {
                1nat
            } else {
                0nat
            })) * per_push
        }),
{
    let none = ShortIndex { value: 65535 };
    let prims = inst.render_recipe.primitives@;
    let p0 = prims[0];
    let p1 = prims[1];
    let push0 = !p0.material_index.spec_is_none() && p0.material_index != none;
    let last1 = if push0 {
        p0.material_index
    } else {
        none
    };
    let push1 = !p1.material_index.spec_is_none() && p1.material_index != last1;
    let mat_cmds0: Seq<GlCommand> = if push0 {
        spec_material_cmds(prog, inst.materials@[p0.material_index.spec_index()], inst.textures@)
    } else {
        Seq::empty()
    };
    let m0 = inst.render_recipe.matrix_for_primitives@[0] as int;
    let mtx_cmds0 = spec_uniform_mat4_cmds(
        prog,
        UniformId::MeshMatrix,
        inst.render_recipe.matrices@[m0],
    );
    let draw0 = spec_draw_primitive_cmds(vaos, p0);
    let rest1 = spec_gl_draw_cmds(prog, inst, vaos, 1, last1, true, m0);
    assert(spec_gl_draw_cmds(prog, inst, vaos, 0, none, false, 0) == mat_cmds0 + mtx_cmds0 + draw0
        + rest1);
    let mat_cmds1: Seq<GlCommand> = if push1 {
        spec_material_cmds(prog, inst.materials@[p1.material_index.spec_index()], inst.textures@)
    } else {
        Seq::empty()
    };
    let m1 = inst.render_recipe.matrix_for_primitives@[1] as int;
    let mtx_cmds1: Seq<GlCommand> = if m1 != m0 {
        spec_uniform_mat4_cmds(prog, UniformId::MeshMatrix, inst.render_recipe.matrices@[m1])
    } else {
        Seq::empty()
    };
    let draw1 = spec_draw_primitive_cmds(vaos, p1);
    let last2 = if push1 {
        p1.material_index
    } else {
        last1
    };
    let rest2 = spec_gl_draw_cmds(prog, inst, vaos, 2, last2, true, m1);
    assert(rest1 == mat_cmds1 + mtx_cmds1 + draw1 + rest2);
    assert(rest2 =~= Seq::<GlCommand>::empty());
    lemma_count_concat(mat_cmds0 + mtx_cmds0 + draw0, rest1);
    lemma_count_concat(mat_cmds0 + mtx_cmds0, draw0);
    lemma_count_concat(mat_cmds0, mtx_cmds0);
    lemma_count_concat(mat_cmds1 + mtx_cmds1 + draw1, rest2);
    lemma_count_concat(mat_cmds1 + mtx_cmds1, draw1);
    lemma_count_concat(mat_cmds1, mtx_cmds1);
    lemma_count_step_zero(prog, UniformId::MeshMatrix, inst.render_recipe.matrices@[m0], vaos, p0);
    lemma_count_step_zero(prog, UniformId::MeshMatrix, inst.render_recipe.matrices@[m1], vaos, p1);
    if push0 {
        lemma_count_material_cmds(
            prog,
            inst.materials@[p0.material_index.spec_index()],
            inst.textures@,
        );
    }
    if push1 {
        lemma_count_material_cmds(
            prog,
            inst.materials@[p1.material_index.spec_index()],
            inst.textures@,
        );
    }
    if m1 != m0 {
        lemma_count_step_zero(
            prog,
            UniformId::MeshMatrix,
            inst.render_recipe.matrices@[m1],
            vaos,
            p1,
        );
    }
    assert(spec_count_material_pushes(rest2) == 0);
}

} // verus!
