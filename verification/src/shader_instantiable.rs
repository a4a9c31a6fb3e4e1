//! Per-shader instantiation of a renderable: the material uniform block
//! layout, the render-recipe data a draw walks, and (further down) the
//! orchestration that owns one vertex-array object per mesh.

use vstd::prelude::*;

use crate::buffer::VertexBuffer;
use crate::command::GlCommand;
use crate::material::Material;
use crate::opengl::{
    spec_draw_primitive_cmds, spec_uniform_floats_cmds, spec_uniform_mat4_cmds,
    spec_use_texture_cmds, Model3DOpenGL, Vao,
};
use crate::program::Program;
use crate::texture::Texture;
use crate::types::{Mat4, PrimitiveType, ShortIndex, TextureId, UniformId, VertexAttr};
use crate::vertices::Vertices;

verus! {

/// The fixed-layout head of the material uniform block, bit-exact to what
/// the shader expects: four packed 32-bit floats for the base color
/// (r, g, b, a), then one float each for metallic, roughness, occlusion
/// factor and emissive factor - in that order, with no padding.
///
/// The entries are carried as IEEE-754 bit patterns; this layer never does
/// arithmetic on them.
#[derive(Debug, Clone, Copy, PartialEq, Eq)]
pub struct ShaderMaterialBaseData {
    /// The base color (r, g, b, a), each normalised to [0, 1]
    pub base_color: [u32; 4],
    /// The metallic factor
    pub metallic: u32,
    /// The roughness factor
    pub roughness: u32,
    /// The occlusion factor
    pub occlusion_factor: u32,
    /// The emissive factor
    pub emissive_factor: u32,
}

impl ShaderMaterialBaseData {
    /// The words of the block in shader order: base color, metallic,
    /// roughness, occlusion factor, emissive factor.
    pub open spec fn spec_words(self) -> Seq<u32> {
        seq![
            self.base_color[0],
            self.base_color[1],
            self.base_color[2],
            self.base_color[3],
            self.metallic,
            self.roughness,
            self.occlusion_factor,
            self.emissive_factor,
        ]
    }

    /// Build the block head from a material's base data; the occlusion and
    /// emissive factors start at zero.
    pub fn of_material(base_color: [u32; 4], metallic: u32, roughness: u32) -> (r: Self)
        ensures
            r.base_color == base_color,
            r.metallic == metallic,
            r.roughness == roughness,
            r.occlusion_factor == 0,
            r.emissive_factor == 0,
    {
        Self { base_color, metallic, roughness, occlusion_factor: 0, emissive_factor: 0 }
    }

    /// The block as the flat run of words the shader reads, in layout
    /// order.
    pub fn as_slice(&self) -> (r: Vec<u32>)
        ensures
            r@ == self.spec_words(),
    {
        let mut r: Vec<u32> = Vec::new();
        r.push(self.base_color[0]);
        r.push(self.base_color[1]);
        r.push(self.base_color[2]);
        r.push(self.base_color[3]);
        r.push(self.metallic);
        r.push(self.roughness);
        r.push(self.occlusion_factor);
        r.push(self.emissive_factor);
        proof {
            assert(r@ =~= self.spec_words());
        }
        r
    }
}

impl Default for ShaderMaterialBaseData {
    /// All words zero.
    fn default() -> (r: Self)
        ensures
            r.spec_words() =~= seq![0u32, 0u32, 0u32, 0u32, 0u32, 0u32, 0u32, 0u32],
    {
        Self {
            base_color: [0, 0, 0, 0],
            metallic: 0,
            roughness: 0,
            occlusion_factor: 0,
            emissive_factor: 0,
        }
    }
}

/// One primitive of a render recipe: its topology, index range, and which
/// vertex set and material it draws with.
#[derive(Debug, Clone, Copy, PartialEq, Eq, Structural)]
pub struct Primitive {
    /// The offset in bytes of the first index to use - or the first vertex,
    /// when no vertex set is referenced
    pub byte_offset: u32,
    /// The number of indices (or vertices) to use
    pub index_count: u32,
    /// The material to draw with, if any
    pub material_index: ShortIndex,
    /// The vertex set to draw from, if any
    pub vertices_index: ShortIndex,
    /// The topology to draw
    pub primitive_type: PrimitiveType,
}

impl Primitive {
    /// Describe one primitive.
    pub fn new(
        primitive_type: PrimitiveType,
        vertices_index: ShortIndex,
        byte_offset: u32,
        index_count: u32,
        material_index: ShortIndex,
    ) -> (r: Self)
        ensures
            r == (Primitive {
                byte_offset,
                index_count,
                material_index,
                vertices_index,
                primitive_type,
            }),
    {
        Self { byte_offset, index_count, material_index, vertices_index, primitive_type }
    }

    /// The material to draw with, if any.
    pub fn material(&self) -> (r: ShortIndex)
        ensures
            r == self.material_index,
    {
        self.material_index
    }

    /// The vertex set to draw from, if any.
    pub fn vertices_index(&self) -> (r: ShortIndex)
        ensures
            r == self.vertices_index,
    {
        self.vertices_index
    }

    /// The number of indices (or vertices) to use.
    pub fn index_count(&self) -> (r: u32)
        ensures
            r == self.index_count,
    {
        self.index_count
    }

    /// The offset in bytes of the first index (or the first vertex).
    pub fn byte_offset(&self) -> (r: u32)
        ensures
            r == self.byte_offset,
    {
        self.byte_offset
    }

    /// The topology to draw.
    pub fn primitive_type(&self) -> (r: PrimitiveType)
        ensures
            r == self.primitive_type,
    {
        self.primitive_type
    }
}

/// The ordered list of primitives an instance draws, with the mesh matrix
/// each primitive uses.
#[derive(Debug, Clone, PartialEq)]
pub struct RenderRecipe {
    /// The primitives, in draw order
    pub primitives: Vec<Primitive>,
    /// For each primitive, the index of its mesh matrix in `matrices`
    pub matrix_for_primitives: Vec<usize>,
    /// The mesh matrices the recipe refers to
    pub matrices: Vec<Mat4>,
}

/// Everything needed to draw instances of one renderable object: its vertex
/// sets, materials and textures, and the recipe that walks them.
#[derive(Debug, Clone, PartialEq)]
pub struct Instantiable {
    /// The vertex sets the recipe refers to
    pub vertices: Vec<Vertices>,
    /// The materials the recipe refers to
    pub materials: Vec<Material>,
    /// The textures the materials refer to
    pub textures: Vec<Texture>,
    /// The ordered draw plan
    pub render_recipe: RenderRecipe,
}

/// One placed instance of a renderable: its model transformation.
#[derive(Debug, Clone, Copy, PartialEq, Eq)]
pub struct Instance {
    /// The model matrix of the instance
    pub transformation: Mat4,
}


/// The command binding one vertex view to a program attribute slot.
pub open spec fn spec_bind_attr_cmd(slot: u32, vb: VertexBuffer) -> GlCommand {
    GlCommand::BindAttribute {
        attr: slot,
        buffer: vb.gpu_buffer.handle,
        count: vb.count,
        ele_type: vb.ele_type,
        byte_offset: vb.byte_offset,
        stride: vb.stride,
    }
}

/// The commands binding every attribute view of role `role` (from index
/// `i` on) to slot `slot`, in order.
pub open spec fn spec_bind_matching_cmds(
    attrs: Seq<(VertexAttr, VertexBuffer)>,
    slot: u32,
    role: VertexAttr,
    i: int,
) -> Seq<GlCommand>
    decreases attrs.len() - i,
{
    if i < 0 || i >= attrs.len() {
        Seq::empty()
    } else {
        let head: Seq<GlCommand> = if attrs[i].0 == role {
            seq![spec_bind_attr_cmd(slot, attrs[i].1)]
        } else {
            Seq::empty()
        };
        head + spec_bind_matching_cmds(attrs, slot, role, i + 1)
    }
}

/// The commands binding a mesh's streams to the program's attribute slots
/// (from slot index `i` on): the position view feeds the position role;
/// any other role binds every attribute view that carries it, and a role
/// the mesh does not supply is silently left unbound.
pub open spec fn spec_vao_attr_cmds(
    pattrs: Seq<(u32, VertexAttr)>,
    vertices: Vertices,
    i: int,
) -> Seq<GlCommand>
    decreases pattrs.len() - i,
{
    if i < 0 || i >= pattrs.len() {
        Seq::empty()
    } else {
        let head: Seq<GlCommand> = if pattrs[i].1 == VertexAttr::Position {
            seq![spec_bind_attr_cmd(pattrs[i].0, vertices.position)]
        } else {
            spec_bind_matching_cmds(vertices.attrs@, pattrs[i].0, pattrs[i].1, 0)
        };
        head + spec_vao_attr_cmds(pattrs, vertices, i + 1)
    }
}

/// The commands building one vertex-array object for a (program, mesh)
/// pairing: create it around the index buffer, attach the attribute
/// streams, and unbind so the current-bind state does not leak.
pub open spec fn spec_new_vao_cmds(program: Program, vertices: Vertices, vao_handle: u32) -> Seq<
    GlCommand,
> {
    seq![
        GlCommand::CreateVao {
            handle: vao_handle,
            index_buffer: vertices.indices.gpu_buffer.handle,
        },
    ] + spec_vao_attr_cmds(program.attributes@, vertices, 0) + seq![GlCommand::BindVao { vao: 0 }]
}

/// The commands building one vertex-array object per mesh of a set, from
/// mesh index `i` on, with consecutive handles from `base + i`.
pub open spec fn spec_vaos_cmds(
    program: Program,
    vertices: Seq<Vertices>,
    base: u32,
    i: int,
) -> Seq<GlCommand>
    decreases vertices.len() - i,
{
    if i < 0 || i >= vertices.len() {
        Seq::empty()
    } else {
        spec_new_vao_cmds(program, vertices[i], (base + i) as u32) + spec_vaos_cmds(
            program,
            vertices,
            base,
            i + 1,
        )
    }
}

/// The commands rebinding a material's textures (from entry `i` on): each
/// non-empty texture role is looked up in the program and bound, and roles
/// the program never declared are skipped.
pub open spec fn spec_mat_texture_cmds(
    prog: Program,
    entries: Seq<(TextureId, ShortIndex)>,
    textures: Seq<Texture>,
    i: int,
) -> Seq<GlCommand>
    decreases entries.len() - i,
{
    if i < 0 || i >= entries.len() {
        Seq::empty()
    } else {
        let head: Seq<GlCommand> = if !entries[i].1.spec_is_none() {
            spec_use_texture_cmds(prog, entries[i].0, textures[entries[i].1.spec_index()].handle)
        } else {
            Seq::empty()
        };
        head + spec_mat_texture_cmds(prog, entries, textures, i + 1)
    }
}

/// The commands a material change emits: push the material uniform block,
/// then rebind every non-empty texture role the material declares.
pub open spec fn spec_material_cmds(prog: Program, mat: Material, textures: Seq<Texture>) -> Seq<
    GlCommand,
> {
    spec_uniform_floats_cmds(prog, UniformId::Material, mat.base_data) + spec_mat_texture_cmds(
        prog,
        mat.textures@,
        textures,
        0,
    )
}

/// The commands drawing a recipe's primitives from index `i` on, given
/// the material last pushed and the mesh matrix last set: a primitive
/// re-pushes material state only when its material differs from the last
/// one pushed, re-sets the mesh matrix only when its matrix index differs
/// from the last one set, and then draws.
pub open spec fn spec_gl_draw_cmds(
    prog: Program,
    inst: Instantiable,
    vaos: Seq<Vao>,
    i: int,
    last_mat: ShortIndex,
    have_mtx: bool,
    last_mtx: int,
) -> Seq<GlCommand>
    decreases inst.render_recipe.primitives.len() - i,
{
    if i < 0 || i >= inst.render_recipe.primitives.len() {
        Seq::empty()
    } else {
        let p = inst.render_recipe.primitives[i];
        let change_mat = !p.material_index.spec_is_none() && p.material_index != last_mat;
        let mat_cmds: Seq<GlCommand> = if change_mat {
            spec_material_cmds(prog, inst.materials[p.material_index.spec_index()], inst.textures@)
        } else {
            Seq::empty()
        };
        let last_mat2 = if change_mat {
            p.material_index
        } else {
            last_mat
        };
        let m = inst.render_recipe.matrix_for_primitives[i] as int;
        let mtx_cmds: Seq<GlCommand> = if !have_mtx || m != last_mtx {
            spec_uniform_mat4_cmds(prog, UniformId::MeshMatrix, inst.render_recipe.matrices[m])
        } else {
            Seq::empty()
        };
        mat_cmds + mtx_cmds + spec_draw_primitive_cmds(vaos, p) + spec_gl_draw_cmds(
            prog,
            inst,
            vaos,
            i + 1,
            last_mat2,
            true,
            m,
        )
    }
}

/// Well-formedness of an instantiable against a vertex-array set of
/// `n_vaos` objects: every index its recipe and materials hold is in
/// range.
pub open spec fn spec_wf_instantiable(inst: Instantiable, n_vaos: int) -> bool {
    let prims = inst.render_recipe.primitives@;
    &&& inst.render_recipe.matrix_for_primitives@.len() == prims.len()
    &&& forall|i: int|
        0 <= i < prims.len() ==> (#[trigger] inst.render_recipe.matrix_for_primitives@[i])
            < inst.render_recipe.matrices@.len()
    &&& forall|i: int|
        0 <= i < prims.len() ==> (!(#[trigger] prims[i]).material_index.spec_is_none()
            ==> prims[i].material_index.spec_index() < inst.materials@.len())
    &&& forall|i: int|
        0 <= i < prims.len() ==> (!(#[trigger] prims[i]).vertices_index.spec_is_none()
            ==> prims[i].vertices_index.spec_index() < n_vaos)
    &&& forall|k: int, j: int|
        0 <= k < inst.materials@.len() && 0 <= j < inst.materials@[k].textures@.len() ==> (!(
        #[trigger] inst.materials@[k].textures@[j]).1.spec_is_none()
            ==> inst.materials@[k].textures@[j].1.spec_index() < inst.textures@.len())
}

/// A shader-specific instantiable: one vertex-array object per mesh of an
/// [`Instantiable`], owned together with the resolved program they were
/// built against, so that neither is outlived.
#[derive(Debug, Clone, PartialEq)]
pub struct ShaderInstantiable {
    /// One vertex-array object per mesh, in mesh order
    pub vaos: Vec<Vao>,
    /// The resolved program the objects were built against
    pub program: Program,
}

impl ShaderInstantiable {
    /// Bind every attribute view of role `role` to slot `slot`.
    fn bind_matching(
        context: &mut Model3DOpenGL,
        attrs: &Vec<(VertexAttr, VertexBuffer)>,
        slot: u32,
        role: VertexAttr,
    )
        ensures
            final(context).commands@ == old(context).commands@ + spec_bind_matching_cmds(
                attrs@,
                slot,
                role,
                0,
            ),
            final(context).buffers == old(context).buffers,
            final(context).next_vao == old(context).next_vao,
    {
        let n = attrs.len();
        let mut i: usize = 0;
        while i < n
            invariant
                i <= n,
                n == attrs@.len(),
                context.buffers == old(context).buffers,
                context.next_vao == old(context).next_vao,
                old(context).commands@ + spec_bind_matching_cmds(attrs@, slot, role, 0)
                    =~= context.commands@ + spec_bind_matching_cmds(attrs@, slot, role, i as int),
            decreases n - i,
        {
            let (va, buffer) = &attrs[i];
            if *va == role {
                buffer.bind_to_vao_attr(context, slot);
            }
            proof {
                assert(old(context).commands@ + spec_bind_matching_cmds(attrs@, slot, role, 0)
                    =~= context.commands@ + spec_bind_matching_cmds(
                    attrs@,
                    slot,
                    role,
                    i + 1,
                ));
            }
            i = i + 1;
        }
        proof {
            assert(spec_bind_matching_cmds(attrs@, slot, role, n as int) =~= Seq::empty());
            assert(final(context).commands@ =~= old(context).commands@ + spec_bind_matching_cmds(
                attrs@,
                slot,
                role,
                0,
            ));
        }
    }

    /// Build one vertex-array object for `vertices` against `program`:
    /// create it around the index buffer, bind the program's attribute
    /// slots to the mesh's streams, and unbind.
    fn new_vao(context: &mut Model3DOpenGL, program: &Program, vertices: &Vertices) -> (r: Result<
        Vao,
        (),
    >)
        requires
            old(context).next_vao < 0xffff_ffff,
        ensures
            r is Ok,
            r matches Ok(vao) ==> ({
                &&& vao.handle == old(context).next_vao
                &&& vao.index_type == vertices.indices.ele_type
                &&& final(context).next_vao == old(context).next_vao + 1
                &&& final(context).buffers == old(context).buffers
                &&& final(context).commands@ == old(context).commands@ + spec_new_vao_cmds(
                    *program,
                    *vertices,
                    old(context).next_vao,
                )
            }),
    {
        let (indices, position, attrs) = vertices.borrow();
        let gl_vao = match context.vao_create_from_indices(indices) {
            Ok(v) => v,
            Err(_) => {
                return Err(());
            },
        };
        let pattrs = program.attributes();
        let n = pattrs.len();
        let ghost created = old(context).commands@.push(
            GlCommand::CreateVao {
                handle: old(context).next_vao,
                index_buffer: vertices.indices.gpu_buffer.handle,
            },
        );
        let mut i: usize = 0;
        while i < n
            invariant
                i <= n,
                n == pattrs@.len(),
                pattrs@ == program.attributes@,
                *vertices == (Vertices {
                    indices: *indices,
                    position: *position,
                    attrs: *attrs,
                }),
                context.buffers == old(context).buffers,
                context.next_vao == old(context).next_vao + 1,
                created + spec_vao_attr_cmds(pattrs@, *vertices, 0) =~= context.commands@
                    + spec_vao_attr_cmds(pattrs@, *vertices, i as int),
            decreases n - i,
        {
            let (index, vertex_attr) = pattrs[i];
            if vertex_attr == VertexAttr::Position {
                position.bind_to_vao_attr(context, index);
            } else {
                Self::bind_matching(context, attrs, index, vertex_attr);
            }
            proof {
                assert(created + spec_vao_attr_cmds(pattrs@, *vertices, 0) =~= context.commands@
                    + spec_vao_attr_cmds(pattrs@, *vertices, i + 1));
            }
            i = i + 1;
        }
        context.bind_vao(None);
        proof {
            assert(spec_vao_attr_cmds(pattrs@, *vertices, n as int) =~= Seq::empty());
            assert(context.commands@ =~= old(context).commands@ + spec_new_vao_cmds(
                *program,
                *vertices,
                old(context).next_vao,
            ));
        }
        Ok(gl_vao)
    }

    /// Build the shader-specific instantiable: one vertex-array object per
    /// mesh of `instantiable`, with consecutive handles, against
    /// `program`, which it takes ownership of.
    pub fn new(
        context: &mut Model3DOpenGL,
        program: Program,
        instantiable: &Instantiable,
    ) -> (r: Result<Self, ()>)
        requires
            old(context).next_vao + instantiable.vertices@.len() < 0xffff_ffff,
        ensures
            r is Ok,
            r matches Ok(si) ==> ({
                &&& si.program == program
                &&& si.vaos@.len() == instantiable.vertices@.len()
                &&& forall|j: int|
                    0 <= j < instantiable.vertices@.len() ==> si.vaos@[j] == (Vao {
                        handle: (old(context).next_vao + j) as u32,
                        index_type: instantiable.vertices@[j].indices.ele_type,
                    })
                &&& final(context).next_vao == old(context).next_vao
                    + instantiable.vertices@.len()
                &&& final(context).buffers == old(context).buffers
                &&& final(context).commands@ == old(context).commands@ + spec_vaos_cmds(
                    program,
                    instantiable.vertices@,
                    old(context).next_vao,
                    0,
                )
            }),
    {
        let mut vaos: Vec<Vao> = Vec::new();
        let n = instantiable.vertices.len();
        let mut i: usize = 0;
        while i < n
            invariant
                i <= n,
                n == instantiable.vertices@.len(),
                old(context).next_vao + n < 0xffff_ffff,
                context.buffers == old(context).buffers,
                context.next_vao == old(context).next_vao + i,
                vaos@.len() == i,
                forall|j: int|
                    0 <= j < i ==> vaos@[j] == (Vao {
                        handle: (old(context).next_vao + j) as u32,
                        index_type: instantiable.vertices@[j].indices.ele_type,
                    }),
                old(context).commands@ + spec_vaos_cmds(
                    program,
                    instantiable.vertices@,
                    old(context).next_vao,
                    0,
                ) =~= context.commands@ + spec_vaos_cmds(
                    program,
                    instantiable.vertices@,
                    old(context).next_vao,
                    i as int,
                ),
            decreases n - i,
        {
            let vao = match Self::new_vao(context, &program, &instantiable.vertices[i]) {
                Ok(v) => v,
                Err(_) => {
                    return Err(());
                },
            };
            vaos.push(vao);
            proof {
                assert(old(context).commands@ + spec_vaos_cmds(
                    program,
                    instantiable.vertices@,
                    old(context).next_vao,
                    0,
                ) =~= context.commands@ + spec_vaos_cmds(
                    program,
                    instantiable.vertices@,
                    old(context).next_vao,
                    i + 1,
                ));
            }
            i = i + 1;
        }
        proof {
            assert(spec_vaos_cmds(program, instantiable.vertices@, old(context).next_vao, n as int)
                =~= Seq::empty());
            assert(context.commands@ =~= old(context).commands@ + spec_vaos_cmds(
                program,
                instantiable.vertices@,
                old(context).next_vao,
                0,
            ));
        }
        Ok(Self { vaos, program })
    }

    /// Push a material: its uniform block, then every non-empty texture
    /// role it declares.
    fn push_material(
        context: &mut Model3DOpenGL,
        program: &Program,
        mat: &Material,
        textures: &Vec<Texture>,
    )
        requires
            forall|j: int|
                0 <= j < mat.textures@.len() ==> (!(#[trigger] mat.textures@[j]).1.spec_is_none()
                    ==> mat.textures@[j].1.spec_index() < textures@.len()),
        ensures
            final(context).commands@ == old(context).commands@ + spec_material_cmds(
                *program,
                *mat,
                textures@,
            ),
            final(context).buffers == old(context).buffers,
            final(context).next_vao == old(context).next_vao,
    {
        context.program_set_uniform_floats_4(program, UniformId::Material, mat.base_data());
        let ghost pushed = old(context).commands@ + spec_uniform_floats_cmds(
            *program,
            UniformId::Material,
            mat.base_data,
        );
        let entries = mat.textures();
        let n = entries.len();
        let mut j: usize = 0;
        while j < n
            invariant
                j <= n,
                n == entries@.len(),
                entries@ == mat.textures@,
                forall|t: int|
                    0 <= t < n ==> (!(#[trigger] entries@[t]).1.spec_is_none() ==> entries@[t].1.spec_index()
                        < textures@.len()),
                context.buffers == old(context).buffers,
                context.next_vao == old(context).next_vao,
                pushed + spec_mat_texture_cmds(*program, entries@, textures@, 0)
                    =~= context.commands@ + spec_mat_texture_cmds(
                    *program,
                    entries@,
                    textures@,
                    j as int,
                ),
            decreases n - j,
        {
            let (texture_id, ti) = entries[j];
            if ti.is_some() {
                context.program_use_texture(program, texture_id, &textures[ti.as_usize()]);
            }
            proof {
                assert(pushed + spec_mat_texture_cmds(*program, entries@, textures@, 0)
                    =~= context.commands@ + spec_mat_texture_cmds(
                    *program,
                    entries@,
                    textures@,
                    j + 1,
                ));
            }
            j = j + 1;
        }
        proof {
            assert(spec_mat_texture_cmds(*program, entries@, textures@, n as int)
                =~= Seq::empty());
            assert(context.commands@ =~= old(context).commands@ + spec_material_cmds(
                *program,
                *mat,
                textures@,
            ));
        }
    }

    /// Draw one instance: set its model matrix once, then walk the recipe
    /// in primitive order, pushing material state only when the material
    /// changes, the mesh matrix only when its index changes, and drawing
    /// each primitive against the vertex-array object of its vertex set.
    pub fn gl_draw(&self, context: &mut Model3DOpenGL, instantiable: &Instantiable, instance:
        &Instance)
        requires
            spec_wf_instantiable(*instantiable, self.vaos@.len() as int),
        ensures
            final(context).commands@ == old(context).commands@ + spec_uniform_mat4_cmds(
                self.program,
                UniformId::ModelMatrix,
                instance.transformation,
            ) + spec_gl_draw_cmds(
                self.program,
                *instantiable,
                self.vaos@,
                0,
                ShortIndex { value: 65535 },
                false,
                0,
            ),
            final(context).buffers == old(context).buffers,
            final(context).next_vao == old(context).next_vao,
    {
        context.program_set_uniform_mat4(
            &self.program,
            UniformId::ModelMatrix,
            &instance.transformation,
        );
        let ghost after_model = old(context).commands@ + spec_uniform_mat4_cmds(
            self.program,
            UniformId::ModelMatrix,
            instance.transformation,
        );
        let mut last_material: ShortIndex = ShortIndex::none();
        let mut have_matrix: bool = false;
        let mut last_matrix: usize = 0;
        let n = instantiable.render_recipe.primitives.len();
        let mut i: usize = 0;
        proof {
            assert(after_model + spec_gl_draw_cmds(
                self.program,
                *instantiable,
                self.vaos@,
                0,
                ShortIndex { value: 65535 },
                false,
                0,
            ) =~= context.commands@ + spec_gl_draw_cmds(
                self.program,
                *instantiable,
                self.vaos@,
                0,
                last_material,
                have_matrix,
                last_matrix as int,
            ));
        }
        while i < n
            invariant
                i <= n,
                n == instantiable.render_recipe.primitives@.len(),
                spec_wf_instantiable(*instantiable, self.vaos@.len() as int),
                context.buffers == old(context).buffers,
                context.next_vao == old(context).next_vao,
                after_model + spec_gl_draw_cmds(
                    self.program,
                    *instantiable,
                    self.vaos@,
                    0,
                    ShortIndex { value: 65535 },
                    false,
                    0,
                ) =~= context.commands@ + spec_gl_draw_cmds(
                    self.program,
                    *instantiable,
                    self.vaos@,
                    i as int,
                    last_material,
                    have_matrix,
                    last_matrix as int,
                ),
            decreases n - i,
        {
            let p = instantiable.render_recipe.primitives[i];
            let ghost last_mat_pre = last_material;
            let ghost have_mtx_pre = have_matrix;
            let ghost last_mtx_pre = last_matrix as int;
            if p.material_index.is_some() && p.material_index != last_material {
                let mi = p.material_index.as_usize();
                Self::push_material(
                    context,
                    &self.program,
                    &instantiable.materials[mi],
                    &instantiable.textures,
                );
                last_material = p.material_index;
            }
            let m = instantiable.render_recipe.matrix_for_primitives[i];
            if !have_matrix || m != last_matrix {
                context.program_set_uniform_mat4(
                    &self.program,
                    UniformId::MeshMatrix,
                    &instantiable.render_recipe.matrices[m],
                );
            }
            have_matrix = true;
            last_matrix = m;
            context.draw_primitive(&self.vaos, &p);
            proof {
                assert(after_model + spec_gl_draw_cmds(
                    self.program,
                    *instantiable,
                    self.vaos@,
                    0,
                    ShortIndex { value: 65535 },
                    false,
                    0,
                ) =~= context.commands@ + spec_gl_draw_cmds(
                    self.program,
                    *instantiable,
                    self.vaos@,
                    i + 1,
                    last_material,
                    true,
                    m as int,
                ));
            }
            i = i + 1;
        }
        proof {
            assert(spec_gl_draw_cmds(
                self.program,
                *instantiable,
                self.vaos@,
                n as int,
                last_material,
                have_matrix,
                last_matrix as int,
            ) =~= Seq::empty());
            assert(context.commands@ =~= after_model + spec_gl_draw_cmds(
                self.program,
                *instantiable,
                self.vaos@,
                0,
                ShortIndex { value: 65535 },
                false,
                0,
            ));
        }
    }
}

} // verus!
