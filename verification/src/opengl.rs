//! The rendering context: the one owner of driver-global state.
//!
//! [`Model3DOpenGL`] allocates the handles that stand for driver buffers and
//! vertex-array objects, counts the references that share each buffer, and
//! records every driver operation it decides on as a [`GlCommand`]. The
//! stream is replayed, in order, by a host that owns the real driver; the
//! contracts here pin down exactly which commands each operation appends.

use vstd::prelude::*;

use crate::buffer::{init_view_post, BufferAccessor, BufferData, BufferView, GpuBuffer, UniformBuffer};
use crate::command::GlCommand;
use crate::error::GlError;
use crate::program::{
    names_of_pairs, names_of_triples, spec_first_missing, spec_resolved_attrs,
    spec_resolved_buffers, spec_resolved_textures, spec_resolved_uniforms, spec_texture_uniform_of,
    spec_uniform_of, table_view, LinkedProgram, Program,
};
use crate::shader_instantiable::{Primitive, ShaderMaterialBaseData};
use crate::texture::Texture;
use crate::types::{BufferElementType, Mat4, TextureId, UniformId, VertexAttr};

verus! {

/// The context's record of one allocated buffer handle.
#[derive(Debug, Clone, Copy, PartialEq, Eq, Structural)]
pub struct BufferRec {
    /// How many [`GpuBuffer`] references share the buffer
    pub refs: u32,
    /// Whether the driver resource still exists
    pub live: bool,
}

/// A vertex-array object built for one (program, vertices) pairing.
///
/// It must not outlive the program or the vertices it was built from; it is
/// owned by the [`crate::ShaderInstantiable`] that owns both.
#[derive(Debug, Clone, Copy, PartialEq, Eq, Structural)]
pub struct Vao {
    /// The context's handle for the vertex-array object
    pub handle: u32,
    /// The element type of the index buffer attached to it
    pub index_type: BufferElementType,
}

/// The rendering context.
///
/// `buffers` is indexed by handle minus one: handle `h` (1-based, 0 meaning
/// 'none') is described by `buffers[h - 1]`. `commands` is the stream of
/// driver operations decided on so far, oldest first.
#[derive(Debug)]
pub struct Model3DOpenGL {
    /// One record per allocated buffer handle
    pub buffers: Vec<BufferRec>,
    /// The next unused vertex-array handle
    pub next_vao: u32,
    /// The driver operations decided on so far
    pub commands: Vec<GlCommand>,
}

/// The buffer records after one more reference to handle `h` is taken;
/// taking a reference to 'none' changes nothing.
pub open spec fn spec_clone_buffers(bufs: Seq<BufferRec>, h: u32) -> Seq<BufferRec> {
    if h == 0 {
        bufs
    } else {
        bufs.update(
            h - 1,
            BufferRec { refs: (bufs[h - 1].refs + 1) as u32, live: bufs[h - 1].live },
        )
    }
}

/// Whether giving up one reference to handle `h` releases the driver
/// resource: true exactly when the last reference to a live buffer goes.
pub open spec fn spec_release_frees(bufs: Seq<BufferRec>, h: u32) -> bool {
    h != 0 && bufs[h - 1].refs == 1 && bufs[h - 1].live
}

/// The buffer records after one reference to handle `h` is given up;
/// releasing 'none' or an exhausted record changes nothing.
pub open spec fn spec_release_buffers(bufs: Seq<BufferRec>, h: u32) -> Seq<BufferRec> {
    if h == 0 || bufs[h - 1].refs == 0 {
        bufs
    } else {
        bufs.update(
            h - 1,
            BufferRec {
                refs: (bufs[h - 1].refs - 1) as u32,
                live: bufs[h - 1].live && !spec_release_frees(bufs, h),
            },
        )
    }
}

/// The buffer records after one reference to each of `hs[i..]` is given
/// up, in order.
pub open spec fn spec_release_all_buffers(bufs: Seq<BufferRec>, hs: Seq<u32>, i: int) -> Seq<
    BufferRec,
>
    decreases hs.len() - i,
{
    if i < 0 || i >= hs.len() {
        bufs
    } else {
        spec_release_all_buffers(spec_release_buffers(bufs, hs[i]), hs, i + 1)
    }
}

/// The delete commands that giving up one reference to each of `hs[i..]`
/// emits, in order.
pub open spec fn spec_release_all_cmds(bufs: Seq<BufferRec>, hs: Seq<u32>, i: int) -> Seq<
    GlCommand,
>
    decreases hs.len() - i,
{
    if i < 0 || i >= hs.len() {
        Seq::empty()
    } else {
        let head: Seq<GlCommand> = if spec_release_frees(bufs, hs[i]) {
            seq![GlCommand::DeleteBuffer { handle: hs[i] }]
        } else {
            Seq::empty()
        };
        head + spec_release_all_cmds(spec_release_buffers(bufs, hs[i]), hs, i + 1)
    }
}

/// The command a matrix-uniform write emits: one write when the program
/// declares the role, nothing when it does not.
pub open spec fn spec_uniform_mat4_cmds(
    prog: Program,
    id: UniformId,
    mat: Mat4,
) -> Seq<GlCommand> {
    match spec_uniform_of(prog.uniforms@, id) {
        Some(u) => seq![GlCommand::SetUniformMat4 { slot: u, mat }],
        None => Seq::empty(),
    }
}

/// The command a float-block uniform write emits: one write when the
/// program declares the role, nothing when it does not.
pub open spec fn spec_uniform_floats_cmds(
    prog: Program,
    id: UniformId,
    data: ShaderMaterialBaseData,
) -> Seq<GlCommand> {
    match spec_uniform_of(prog.uniforms@, id) {
        Some(u) => seq![GlCommand::SetUniformFloats { slot: u, data }],
        None => Seq::empty(),
    }
}

/// The command a texture bind emits: one bind when the program declares
/// the role, nothing when it does not.
pub open spec fn spec_use_texture_cmds(
    prog: Program,
    texture_id: TextureId,
    texture: u32,
) -> Seq<GlCommand> {
    match spec_texture_uniform_of(prog.textures@, texture_id) {
        Some((u, unit)) => seq![GlCommand::BindTexture { slot: u, unit, texture }],
        None => Seq::empty(),
    }
}

/// The command tying a program's uniform block to a binding point emits:
/// one binding when the program declares the buffer role, nothing when it
/// does not.
pub open spec fn spec_bind_uniform_index_cmds(prog: Program, id: u8, gl_uindex: u32) -> Seq<
    GlCommand,
> {
    match spec_uniform_of(prog.uniforms@, UniformId::Buffer(id)) {
        Some(u) => seq![
            GlCommand::UniformBlockBinding { program: prog.id, slot: u, binding: gl_uindex },
        ],
        None => Seq::empty(),
    }
}

/// The commands one primitive's draw emits: bind its vertex set's
/// vertex-array object and draw the index range - or, with no vertex set,
/// draw a plain vertex run.
pub open spec fn spec_draw_primitive_cmds(vaos: Seq<Vao>, p: Primitive) -> Seq<GlCommand> {
    if !p.vertices_index.spec_is_none() {
        let v = vaos[p.vertices_index.spec_index()];
        seq![
            GlCommand::BindVao { vao: v.handle },
            GlCommand::DrawElements {
                mode: p.primitive_type,
                count: p.index_count,
                ele_type: v.index_type,
                byte_offset: p.byte_offset,
            },
        ]
    } else {
        seq![
            GlCommand::DrawArrays {
                mode: p.primitive_type,
                first: p.byte_offset,
                count: p.index_count,
            },
        ]
    }
}

/// What resolving a program against a configuration yields: a slot table
/// holding every declared name's location when they all resolve, or a
/// name-resolution failure carrying the first name, in configuration order
/// (attributes, uniforms, uniform blocks, texture samplers), that the
/// linked program lacks.
pub open spec fn link_program_post(
    linked: LinkedProgram,
    named_attrs: Seq<(String, VertexAttr)>,
    named_uniforms: Seq<(String, UniformId)>,
    named_uniform_buffers: Seq<(String, usize)>,
    named_textures: Seq<(String, TextureId, u32)>,
    r: Result<Program, GlError>,
) -> bool {
    let at = table_view(linked.attributes@);
    let ut = table_view(linked.uniforms@);
    let bt = table_view(linked.uniform_blocks@);
    let m_a = spec_first_missing(at, names_of_pairs(named_attrs), 0);
    let m_u = spec_first_missing(ut, names_of_pairs(named_uniforms), 0);
    let m_b = spec_first_missing(bt, names_of_pairs(named_uniform_buffers), 0);
    let m_t = spec_first_missing(ut, names_of_triples(named_textures), 0);
    &&& (r is Ok <==> m_a is None && m_u is None && m_b is None && m_t is None)
    &&& (r matches Ok(p) ==> {
        &&& p.id == linked.id
        &&& p.attributes@ == spec_resolved_attrs(at, named_attrs)
        &&& p.uniforms@ == spec_resolved_uniforms(ut, named_uniforms) + spec_resolved_buffers(
            bt,
            named_uniform_buffers,
        )
        &&& p.textures@ == spec_resolved_textures(ut, named_textures)
    })
    &&& (r matches Err(e) ==> e matches GlError::NameResolution(n) && n@ == (if m_a is Some {
        m_a.unwrap()
    } else if m_u is Some {
        m_u.unwrap()
    } else if m_b is Some {
        m_b.unwrap()
    } else {
        m_t.unwrap()
    }))
}

impl Default for Model3DOpenGL {
    /// The default is a fresh context.
    fn default() -> (r: Self)
        ensures
            r.buffers@ == Seq::<BufferRec>::empty(),
            r.next_vao == 1,
            r.commands@ == Seq::<GlCommand>::empty(),
    {
        Self::new()
    }
}

impl Model3DOpenGL {
    /// True while `h` is a buffer handle this context has allocated.
    pub open spec fn spec_valid_buffer(self, h: u32) -> bool {
        1 <= h <= self.buffers.len()
    }

    /// The record of buffer handle `h`.
    pub open spec fn spec_buffer(self, h: u32) -> BufferRec {
        self.buffers[h - 1]
    }

    /// True while `h` (which may be 'none') can have further references
    /// taken, with ample headroom in its counter.
    pub open spec fn spec_clonable(self, h: u32) -> bool {
        h != 0 ==> (self.spec_valid_buffer(h) && self.spec_buffer(h).refs < 0xffff_0000)
    }

    /// A fresh context: no handles allocated, nothing decided on.
    pub fn new() -> (r: Self)
        ensures
            r.buffers@ == Seq::<BufferRec>::empty(),
            r.next_vao == 1,
            r.commands@ == Seq::<GlCommand>::empty(),
    {
        Self { buffers: Vec::new(), next_vao: 1, commands: Vec::new() }
    }

    /// The driver operations decided on so far, oldest first.
    pub fn commands(&self) -> (r: &Vec<GlCommand>)
        ensures
            r == &self.commands,
    {
        &self.commands
    }

    /// Hand the recorded operations to the host for replay, leaving the
    /// record empty.
    pub fn take_commands(&mut self) -> (r: Vec<GlCommand>)
        ensures
            r@ == old(self).commands@,
            final(self).commands@ == Seq::<GlCommand>::empty(),
            final(self).buffers == old(self).buffers,
            final(self).next_vao == old(self).next_vao,
    {
        let mut taken: Vec<GlCommand> = Vec::new();
        core::mem::swap(&mut taken, &mut self.commands);
        taken
    }

    /// Allocate a fresh buffer handle with one reference.
    fn alloc_buffer(&mut self) -> (h: u32)
        requires
            old(self).buffers.len() < 0xffff_ffff,
        ensures
            h == old(self).buffers.len() + 1,
            final(self).buffers@ == old(self).buffers@.push(BufferRec { refs: 1, live: true }),
            final(self).next_vao == old(self).next_vao,
            final(self).commands == old(self).commands,
    {
        self.buffers.push(BufferRec { refs: 1, live: true });
        self.buffers.len() as u32
    }

    /// Take one more reference to the buffer `b` names.
    ///
    /// The returned reference names the same driver resource; the resource
    /// will not be released before this reference is.
    pub fn buffer_clone(&mut self, b: &GpuBuffer) -> (r: GpuBuffer)
        requires
            !b.spec_is_none() ==> old(self).spec_valid_buffer(b.handle) && old(self).spec_buffer(
                b.handle,
            ).refs < 0xffff_ffff,
        ensures
            r == *b,
            final(self).commands == old(self).commands,
            final(self).next_vao == old(self).next_vao,
            final(self).buffers@ == spec_clone_buffers(old(self).buffers@, b.handle),
    {
        if b.handle != 0 {
            let i = (b.handle - 1) as usize;
            let rec = self.buffers[i];
            self.buffers.set(i, BufferRec { refs: rec.refs + 1, live: rec.live });
        }
        GpuBuffer { handle: b.handle }
    }

    /// Give up one reference to the buffer `b` names.
    ///
    /// When the last reference is given up the driver resource is released,
    /// exactly once; releasing an already-dead handle is a guarded no-op.
    pub fn buffer_release(&mut self, b: GpuBuffer) -> (released: bool)
        requires
            !b.spec_is_none() ==> old(self).spec_valid_buffer(b.handle),
        ensures
            final(self).next_vao == old(self).next_vao,
            released == spec_release_frees(old(self).buffers@, b.handle),
            final(self).buffers@ == spec_release_buffers(old(self).buffers@, b.handle),
            released ==> final(self).commands@ == old(self).commands@.push(
                GlCommand::DeleteBuffer { handle: b.handle },
            ),
            !released ==> final(self).commands == old(self).commands,
    {
        if b.handle == 0 {
            return false;
        }
        let i = (b.handle - 1) as usize;
        let rec = self.buffers[i];
        if rec.refs == 0 {
            return false;
        }
        let refs = rec.refs - 1;
        if refs == 0 && rec.live {
            self.buffers.set(i, BufferRec { refs, live: false });
            self.commands.push(GlCommand::DeleteBuffer { handle: b.handle });
            true
        } else {
            self.buffers.set(i, BufferRec { refs, live: rec.live });
            false
        }
    }

    /// Create the driver buffer for a raw data blob, on first use only.
    ///
    /// The first call uploads the blob and stores the new handle in
    /// `client`; later calls observe the handle already there and do
    /// nothing, so the upload happens at most once per blob.
    pub fn init_buffer_data_client(&mut self, client: &mut GpuBuffer, data: &BufferData)
        requires
            old(self).buffers.len() < 0xffff_ffff,
        ensures
            !old(client).spec_is_none() ==> *final(client) == *old(client) && final(self).buffers
                == old(self).buffers && final(self).commands == old(self).commands,
            old(client).spec_is_none() ==> ({
                &&& final(client).handle == old(self).buffers.len() + 1
                &&& final(self).buffers@ == old(self).buffers@.push(
                    BufferRec { refs: 1, live: true },
                )
                &&& final(self).commands@ == old(self).commands@.push(
                    GlCommand::CreateArrayBuffer {
                        handle: (old(self).buffers.len() + 1) as u32,
                        byte_length: data.byte_length,
                    },
                )
            }),
            final(self).next_vao == old(self).next_vao,
    {
        if client.is_none() {
            let h = self.alloc_buffer();
            self.commands.push(
                GlCommand::CreateArrayBuffer { handle: h, byte_length: data.byte_length },
            );
            client.handle = h;
        }
    }

    /// Create a dedicated element buffer for an index accessor.
    ///
    /// Index data always gets a buffer of its own, never shared with vertex
    /// views; the accessor's element type must be an integer kind, which the
    /// caller has already checked.
    pub fn init_buffer_of_indices(&mut self, buffer: &mut GpuBuffer, view: &BufferAccessor)
        requires
            old(self).buffers.len() < 0xffff_ffff,
            old(buffer).spec_is_none(),
            view.ele_type.is_int(),
            view.ele_type.spec_byte_length() * view.elements_per_data <= 0xffff_ffff,
        ensures
            final(buffer).handle == old(self).buffers.len() + 1,
            final(self).buffers@ == old(self).buffers@.push(BufferRec { refs: 1, live: true }),
            final(self).commands@ == old(self).commands@.push(
                GlCommand::CreateIndexBuffer {
                    handle: (old(self).buffers.len() + 1) as u32,
                    byte_offset: view.byte_offset,
                    byte_length: (view.ele_type.spec_byte_length()
                        * view.elements_per_data) as u32,
                    ele_type: view.ele_type,
                },
            ),
            final(self).next_vao == old(self).next_vao,
    {
        let ele_size = view.ele_type.byte_length();
        let byte_length = ele_size * view.elements_per_data;
        let h = self.alloc_buffer();
        self.commands.push(
            GlCommand::CreateIndexBuffer {
                handle: h,
                byte_offset: view.byte_offset,
                byte_length,
                ele_type: view.ele_type,
            },
        );
        buffer.handle = h;
    }

    /// Attach a vertex attribute stream to the currently bound vertex-array
    /// object.
    pub fn buffer_bind_to_vao_attr(
        &mut self,
        buffer: &GpuBuffer,
        attr_id: u32,
        count: u32,
        ele_type: BufferElementType,
        byte_offset: u32,
        stride: u32,
    )
        ensures
            final(self).commands@ == old(self).commands@.push(
                GlCommand::BindAttribute {
                    attr: attr_id,
                    buffer: buffer.handle,
                    count,
                    ele_type,
                    byte_offset,
                    stride,
                },
            ),
            final(self).buffers == old(self).buffers,
            final(self).next_vao == old(self).next_vao,
    {
        self.commands.push(
            GlCommand::BindAttribute {
                attr: attr_id,
                buffer: buffer.handle,
                count,
                ele_type,
                byte_offset,
                stride,
            },
        );
    }

    /// Create a vertex-array object with an index buffer attached, leaving
    /// the new object bound.
    pub fn vao_create_from_indices(&mut self, indices: &crate::buffer::IndexBuffer) -> (r: Result<
        Vao,
        (),
    >)
        requires
            old(self).next_vao < 0xffff_ffff,
        ensures
            r is Ok,
            r matches Ok(vao) ==> ({
                &&& vao.handle == old(self).next_vao
                &&& vao.index_type == indices.ele_type
                &&& final(self).next_vao == old(self).next_vao + 1
                &&& final(self).commands@ == old(self).commands@.push(
                    GlCommand::CreateVao {
                        handle: old(self).next_vao,
                        index_buffer: indices.gpu_buffer.handle,
                    },
                )
                &&& final(self).buffers == old(self).buffers
            }),
    {
        let handle = self.next_vao;
        self.next_vao = self.next_vao + 1;
        self.commands.push(
            GlCommand::CreateVao { handle, index_buffer: indices.gpu_buffer.handle },
        );
        Ok(Vao { handle, index_type: indices.ele_type })
    }

    /// Build a program's slot table from the driver's link report.
    ///
    /// Every configuration-declared name is resolved exactly once, in
    /// configuration order: attributes, uniforms, uniform blocks, then
    /// texture samplers. The first name the linked program lacks fails the
    /// whole construction with [`GlError::NameResolution`] carrying that
    /// name; when every name resolves, the slot table holds them all, in
    /// order.
    pub fn link_program(
        &self,
        linked: &LinkedProgram,
        named_attrs: &Vec<(String, VertexAttr)>,
        named_uniforms: &Vec<(String, UniformId)>,
        named_uniform_buffers: &Vec<(String, usize)>,
        named_textures: &Vec<(String, TextureId, u32)>,
    ) -> (r: Result<Program, GlError>)
        ensures
            link_program_post(
                *linked,
                named_attrs@,
                named_uniforms@,
                named_uniform_buffers@,
                named_textures@,
                r,
            ),
    {
        let mut program = Program::link_program(linked);
        let ghost at = table_view(linked.attributes@);
        let ghost ut = table_view(linked.uniforms@);
        let ghost bt = table_view(linked.uniform_blocks@);
        let ghost names_a = names_of_pairs(named_attrs@);
        let ghost names_u = names_of_pairs(named_uniforms@);
        let ghost names_b = names_of_pairs(named_uniform_buffers@);
        let ghost names_t = names_of_triples(named_textures@);

        let na = named_attrs.len();
        let mut i: usize = 0;
        while i < na
            invariant
                i <= na,
                na == named_attrs.len(),
                at == table_view(linked.attributes@),
                names_a == names_of_pairs(named_attrs@),
                program.id == linked.id,
                program.uniforms@.len() == 0,
                program.textures@.len() == 0,
                spec_first_missing(at, names_a, 0) == spec_first_missing(at, names_a, i as int),
                program.attributes@.len() == i,
                forall|j: int|
                    0 <= j < i ==> program.attributes@[j] == spec_resolved_attrs(
                        at,
                        named_attrs@,
                    )[j],
            decreases na - i,
        {
            proof {
                assert(names_a[i as int] == named_attrs@[i as int].0@);
            }
            match program.add_attr_name(linked, &named_attrs[i].0, named_attrs[i].1) {
                Ok(_) => {},
                Err(e) => {
                    return Err(e);
                },
            }
            i = i + 1;
        }
        proof {
            assert(program.attributes@ =~= spec_resolved_attrs(at, named_attrs@));
        }

        let nu = named_uniforms.len();
        let mut i: usize = 0;
        while i < nu
            invariant
                i <= nu,
                nu == named_uniforms.len(),
                at == table_view(linked.attributes@),
                ut == table_view(linked.uniforms@),
                names_a == names_of_pairs(named_attrs@),
                names_u == names_of_pairs(named_uniforms@),
                program.id == linked.id,
                program.attributes@ == spec_resolved_attrs(at, named_attrs@),
                spec_first_missing(at, names_a, 0) is None,
                program.textures@.len() == 0,
                spec_first_missing(ut, names_u, 0) == spec_first_missing(ut, names_u, i as int),
                program.uniforms@.len() == i,
                forall|j: int|
                    0 <= j < i ==> program.uniforms@[j] == spec_resolved_uniforms(
                        ut,
                        named_uniforms@,
                    )[j],
            decreases nu - i,
        {
            proof {
                assert(names_u[i as int] == named_uniforms@[i as int].0@);
            }
            match program.add_uniform_name(linked, &named_uniforms[i].0, named_uniforms[i].1) {
                Ok(_) => {},
                Err(e) => {
                    return Err(e);
                },
            }
            i = i + 1;
        }

        let nb = named_uniform_buffers.len();
        let mut i: usize = 0;
        while i < nb
            invariant
                i <= nb,
                nb == named_uniform_buffers.len(),
                nu == named_uniforms.len(),
                at == table_view(linked.attributes@),
                ut == table_view(linked.uniforms@),
                bt == table_view(linked.uniform_blocks@),
                names_a == names_of_pairs(named_attrs@),
                names_u == names_of_pairs(named_uniforms@),
                names_b == names_of_pairs(named_uniform_buffers@),
                program.id == linked.id,
                program.attributes@ == spec_resolved_attrs(at, named_attrs@),
                spec_first_missing(at, names_a, 0) is None,
                spec_first_missing(ut, names_u, 0) is None,
                program.textures@.len() == 0,
                spec_first_missing(bt, names_b, 0) == spec_first_missing(bt, names_b, i as int),
                program.uniforms@.len() == nu + i,
                forall|j: int|
                    0 <= j < nu ==> program.uniforms@[j] == spec_resolved_uniforms(
                        ut,
                        named_uniforms@,
                    )[j],
                forall|j: int|
                    0 <= j < i ==> program.uniforms@[nu + j] == spec_resolved_buffers(
                        bt,
                        named_uniform_buffers@,
                    )[j],
            decreases nb - i,
        {
            proof {
                assert(names_b[i as int] == named_uniform_buffers@[i as int].0@);
            }
            match program.add_uniform_buffer_name(
                linked,
                &named_uniform_buffers[i].0,
                named_uniform_buffers[i].1,
            ) {
                Ok(_) => {},
                Err(e) => {
                    return Err(e);
                },
            }
            i = i + 1;
        }
        proof {
            assert(program.uniforms@ =~= spec_resolved_uniforms(ut, named_uniforms@)
                + spec_resolved_buffers(bt, named_uniform_buffers@));
        }

        let nt = named_textures.len();
        let mut i: usize = 0;
        while i < nt
            invariant
                i <= nt,
                nt == named_textures.len(),
                at == table_view(linked.attributes@),
                ut == table_view(linked.uniforms@),
                bt == table_view(linked.uniform_blocks@),
                names_a == names_of_pairs(named_attrs@),
                names_u == names_of_pairs(named_uniforms@),
                names_b == names_of_pairs(named_uniform_buffers@),
                names_t == names_of_triples(named_textures@),
                program.id == linked.id,
                program.attributes@ == spec_resolved_attrs(at, named_attrs@),
                program.uniforms@ == spec_resolved_uniforms(ut, named_uniforms@)
                    + spec_resolved_buffers(bt, named_uniform_buffers@),
                spec_first_missing(at, names_a, 0) is None,
                spec_first_missing(ut, names_u, 0) is None,
                spec_first_missing(bt, names_b, 0) is None,
                spec_first_missing(ut, names_t, 0) == spec_first_missing(ut, names_t, i as int),
                program.textures@.len() == i,
                forall|j: int|
                    0 <= j < i ==> program.textures@[j] == spec_resolved_textures(
                        ut,
                        named_textures@,
                    )[j],
            decreases nt - i,
        {
            proof {
                assert(names_t[i as int] == named_textures@[i as int].0@);
            }
            match program.add_uniform_texture_name(
                linked,
                &named_textures[i].0,
                named_textures[i].1,
                named_textures[i].2,
            ) {
                Ok(_) => {},
                Err(e) => {
                    return Err(e);
                },
            }
            i = i + 1;
        }
        proof {
            assert(program.textures@ =~= spec_resolved_textures(ut, named_textures@));
        }
        Ok(program)
    }

    /// Realize a buffer view for an attribute role, creating what the
    /// driver needs; the view's kind is fixed the first time.
    pub fn init_buffer_view_client(
        &mut self,
        client: &mut BufferView,
        buffer_view: &BufferAccessor,
        attr: VertexAttr,
        data: &BufferData,
        data_client: &mut GpuBuffer,
    ) -> (r: Result<(), GlError>)
        requires
            old(self).buffers.len() < 0xffff_ffff,
            buffer_view.ele_type.spec_byte_length() * buffer_view.elements_per_data <= 0xffff_ffff,
            !old(data_client).spec_is_none() ==> old(self).spec_valid_buffer(
                old(data_client).handle,
            ) && old(self).spec_buffer(old(data_client).handle).refs < 0xffff_ffff,
            old(client).spec_handle() != 0 ==> old(self).spec_valid_buffer(
                old(client).spec_handle(),
            ),
        ensures
            init_view_post(
                *old(client),
                *final(client),
                *buffer_view,
                attr,
                *data,
                *old(data_client),
                *final(data_client),
                *old(self),
                *final(self),
                r,
            ),
    {
        client.init_buffer_view_client(buffer_view, attr, data, data_client, self)
    }

    /// Bind a vertex-array object, or unbind with `None`.
    pub fn bind_vao(&mut self, vao: Option<&Vao>)
        ensures
            final(self).commands@ == old(self).commands@.push(
                GlCommand::BindVao {
                    vao: match vao {
                        Some(v) => v.handle,
                        None => 0,
                    },
                },
            ),
            final(self).buffers == old(self).buffers,
            final(self).next_vao == old(self).next_vao,
    {
        match vao {
            Some(v) => self.commands.push(GlCommand::BindVao { vao: v.handle }),
            None => self.commands.push(GlCommand::BindVao { vao: 0 }),
        }
    }

    /// Make a program current, or make none current.
    pub fn use_program(&mut self, program: Option<&Program>)
        ensures
            final(self).commands@ == old(self).commands@.push(
                GlCommand::UseProgram {
                    program: match program {
                        Some(p) => p.id,
                        None => 0,
                    },
                },
            ),
            final(self).buffers == old(self).buffers,
            final(self).next_vao == old(self).next_vao,
    {
        match program {
            Some(p) => self.commands.push(GlCommand::UseProgram { program: p.id }),
            None => self.commands.push(GlCommand::UseProgram { program: 0 }),
        }
    }

    /// Write a matrix uniform, or skip the write silently when the program
    /// never declared the role.
    pub fn program_set_uniform_mat4(
        &mut self,
        program: &Program,
        id: UniformId,
        mat4: &Mat4,
    )
        ensures
            final(self).commands@ == old(self).commands@ + spec_uniform_mat4_cmds(
                *program,
                id,
                *mat4,
            ),
            final(self).buffers == old(self).buffers,
            final(self).next_vao == old(self).next_vao,
    {
        match program.uniform(id) {
            Some(u) => {
                self.commands.push(GlCommand::SetUniformMat4 { slot: u, mat: *mat4 });
                proof {
                    assert(self.commands@ =~= old(self).commands@ + spec_uniform_mat4_cmds(
                        *program,
                        id,
                        *mat4,
                    ));
                }
            },
            None => {
                proof {
                    assert(self.commands@ =~= old(self).commands@ + spec_uniform_mat4_cmds(
                        *program,
                        id,
                        *mat4,
                    ));
                }
            },
        }
    }

    /// Write a block of float uniforms, four at a time, or skip the write
    /// silently when the program never declared the role. The one such
    /// block this layer pushes is the material head.
    pub fn program_set_uniform_floats_4(
        &mut self,
        program: &Program,
        id: UniformId,
        floats: &ShaderMaterialBaseData,
    )
        ensures
            final(self).commands@ == old(self).commands@ + spec_uniform_floats_cmds(
                *program,
                id,
                *floats,
            ),
            final(self).buffers == old(self).buffers,
            final(self).next_vao == old(self).next_vao,
    {
        let ghost data = *floats;
        match program.uniform(id) {
            Some(u) => {
                self.commands.push(GlCommand::SetUniformFloats { slot: u, data: *floats });
                proof {
                    assert(self.commands@ =~= old(self).commands@ + spec_uniform_floats_cmds(
                        *program,
                        id,
                        data,
                    ));
                }
            },
            None => {
                proof {
                    assert(self.commands@ =~= old(self).commands@ + spec_uniform_floats_cmds(
                        *program,
                        id,
                        data,
                    ));
                }
            },
        }
    }

    /// Tie a program's uniform block to a binding point, or skip silently
    /// when the program never declared that buffer role.
    pub fn program_bind_uniform_index(
        &mut self,
        program: &Program,
        uniform_buffer_id: usize,
        gl_uindex: u32,
    ) -> (r: Result<(), ()>)
        ensures
            r is Ok,
            final(self).commands@ == old(self).commands@ + spec_bind_uniform_index_cmds(
                *program,
                (uniform_buffer_id as u8),
                gl_uindex,
            ),
            final(self).buffers == old(self).buffers,
            final(self).next_vao == old(self).next_vao,
    {
        let id = #[verifier::truncate] (uniform_buffer_id as u8);
        match program.uniform(UniformId::Buffer(id)) {
            Some(u) => {
                self.commands.push(
                    GlCommand::UniformBlockBinding {
                        program: program.id,
                        slot: u,
                        binding: gl_uindex,
                    },
                );
                proof {
                    assert(self.commands@ =~= old(self).commands@ + spec_bind_uniform_index_cmds(
                        *program,
                        id,
                        gl_uindex,
                    ));
                }
            },
            None => {
                proof {
                    assert(self.commands@ =~= old(self).commands@ + spec_bind_uniform_index_cmds(
                        *program,
                        id,
                        gl_uindex,
                    ));
                }
            },
        }
        Ok(())
    }

    /// Bind a texture to its unit and point the program's sampler at it,
    /// or skip silently when the program never declared the role.
    ///
    /// The program must be current.
    pub fn program_use_texture(
        &mut self,
        program: &Program,
        texture_id: TextureId,
        gl_texture: &Texture,
    )
        ensures
            final(self).commands@ == old(self).commands@ + spec_use_texture_cmds(
                *program,
                texture_id,
                gl_texture.handle,
            ),
            final(self).buffers == old(self).buffers,
            final(self).next_vao == old(self).next_vao,
    {
        match program.texture_uniform(texture_id) {
            Some((u, unit)) => {
                self.commands.push(
                    GlCommand::BindTexture { slot: u, unit, texture: gl_texture.handle },
                );
                proof {
                    assert(self.commands@ =~= old(self).commands@ + spec_use_texture_cmds(
                        *program,
                        texture_id,
                        gl_texture.handle,
                    ));
                }
            },
            None => {
                proof {
                    assert(self.commands@ =~= old(self).commands@ + spec_use_texture_cmds(
                        *program,
                        texture_id,
                        gl_texture.handle,
                    ));
                }
            },
        }
    }

    /// Draw one primitive: bind the vertex-array object of its vertex set
    /// and draw its index range, or draw a plain vertex run when it
    /// references no vertex set.
    pub fn draw_primitive(&mut self, vaos: &Vec<Vao>, primitive: &Primitive)
        requires
            !primitive.vertices_index.spec_is_none() ==> primitive.vertices_index.spec_index()
                < vaos@.len(),
        ensures
            final(self).commands@ == old(self).commands@ + spec_draw_primitive_cmds(
                vaos@,
                *primitive,
            ),
            final(self).buffers == old(self).buffers,
            final(self).next_vao == old(self).next_vao,
    {
        if primitive.vertices_index.is_some() {
            let v = vaos[primitive.vertices_index.as_usize()];
            self.commands.push(GlCommand::BindVao { vao: v.handle });
            self.commands.push(
                GlCommand::DrawElements {
                    mode: primitive.primitive_type,
                    count: primitive.index_count,
                    ele_type: v.index_type,
                    byte_offset: primitive.byte_offset,
                },
            );
            proof {
                assert(self.commands@ =~= old(self).commands@ + spec_draw_primitive_cmds(
                    vaos@,
                    *primitive,
                ));
            }
        } else {
            self.commands.push(
                GlCommand::DrawArrays {
                    mode: primitive.primitive_type,
                    first: primitive.byte_offset,
                    count: primitive.index_count,
                },
            );
            proof {
                assert(self.commands@ =~= old(self).commands@ + spec_draw_primitive_cmds(
                    vaos@,
                    *primitive,
                ));
            }
        }
    }

    /// Allocate a uniform buffer of `byte_length` bytes, filled by the
    /// host with the data it was created for.
    pub fn uniform_buffer_create(&mut self, byte_length: u32, is_dynamic: bool) -> (r: Result<
        UniformBuffer,
        (),
    >)
        requires
            old(self).buffers.len() < 0xffff_ffff,
        ensures
            r is Ok,
            r matches Ok(ub) ==> ({
                &&& ub.gl_buffer.handle == old(self).buffers.len() + 1
                &&& ub.byte_length == byte_length
                &&& final(self).buffers@ == old(self).buffers@.push(
                    BufferRec { refs: 1, live: true },
                )
                &&& final(self).commands@ == old(self).commands@.push(
                    GlCommand::CreateUniformBuffer {
                        handle: (old(self).buffers.len() + 1) as u32,
                        byte_length,
                        is_dynamic,
                    },
                )
                &&& final(self).next_vao == old(self).next_vao
            }),
    {
        let h = self.alloc_buffer();
        self.commands.push(GlCommand::CreateUniformBuffer { handle: h, byte_length, is_dynamic });
        Ok(UniformBuffer { gl_buffer: GpuBuffer { handle: h }, byte_length })
    }

    /// Overwrite part of a uniform buffer with new data of `byte_length`
    /// bytes.
    pub fn uniform_buffer_update_data(
        &mut self,
        uniform_buffer: &UniformBuffer,
        byte_offset: u32,
        byte_length: u32,
    )
        ensures
            final(self).commands@ == old(self).commands@.push(
                GlCommand::UpdateUniformBuffer {
                    handle: uniform_buffer.gl_buffer.handle,
                    byte_offset,
                    byte_length,
                },
            ),
            final(self).buffers == old(self).buffers,
            final(self).next_vao == old(self).next_vao,
    {
        self.commands.push(
            GlCommand::UpdateUniformBuffer {
                handle: uniform_buffer.gl_buffer.handle,
                byte_offset,
                byte_length,
            },
        );
    }

    /// Bind a range of a uniform buffer to a binding point; a zero length
    /// selects the whole buffer.
    pub fn uniform_index_of_range(
        &mut self,
        uniform_buffer: &UniformBuffer,
        gl_uindex: u32,
        byte_offset: u32,
        byte_length: u32,
    )
        ensures
            final(self).commands@ == old(self).commands@.push(
                GlCommand::BindBufferRange {
                    binding: gl_uindex,
                    handle: uniform_buffer.gl_buffer.handle,
                    byte_offset,
                    byte_length: if byte_length == 0 {
                        uniform_buffer.byte_length
                    } else {
                        byte_length
                    },
                },
            ),
            final(self).buffers == old(self).buffers,
            final(self).next_vao == old(self).next_vao,
    {
        let (byte_offset, byte_length) = uniform_buffer.offset_and_length(byte_offset, byte_length);
        self.commands.push(
            GlCommand::BindBufferRange {
                binding: gl_uindex,
                handle: uniform_buffer.gl_buffer.handle,
                byte_offset,
                byte_length,
            },
        );
    }
}

} // verus!
