//! Shader program binding resolution.
//!
//! A linked program's attribute and uniform locations are queried from the
//! driver once, by name, right after linking; the answers come in as a
//! [`LinkedProgram`] value. Resolution turns a configuration's name-to-role
//! maps into a [`Program`]: an immutable table from semantic role to driver
//! slot. A configuration name the program lacks fails resolution with
//! [`GlError::NameResolution`] carrying that name; a semantic role that was
//! never declared simply resolves to 'absent' at draw time, and writes to
//! it are skipped.

use vstd::prelude::*;

use crate::error::GlError;
use crate::types::{TextureId, UniformId, VertexAttr};

verus! {

/// What the driver reported about a freshly linked program: its handle and
/// the locations of the names that are active in it.
#[derive(Debug, Clone, PartialEq)]
pub struct LinkedProgram {
    /// The driver handle of the linked program
    pub id: u32,
    /// The active vertex attributes, by name
    pub attributes: Vec<(String, u32)>,
    /// The active uniforms, by name
    pub uniforms: Vec<(String, u32)>,
    /// The active uniform blocks, by name
    pub uniform_blocks: Vec<(String, u32)>,
}

/// The location a name resolves to in a table of (name, location) pairs:
/// the first match, or `None` if the name is absent.
pub open spec fn spec_lookup(table: Seq<(Seq<char>, u32)>, name: Seq<char>) -> Option<u32>
    decreases table.len(),
{
    if table.len() == 0 {
        None
    } else if table[0].0 == name {
        Some(table[0].1)
    } else {
        spec_lookup(table.drop_first(), name)
    }
}

/// The view of a (name, location) table.
pub open spec fn table_view(table: Seq<(String, u32)>) -> Seq<(Seq<char>, u32)> {
    table.map_values(|p: (String, u32)| (p.0@, p.1))
}

/// Find a name in a (name, location) table: the first match, or `None`.
fn lookup(table: &Vec<(String, u32)>, name: &String) -> (r: Option<u32>)
    ensures
        r == spec_lookup(table_view(table@), name@),
{
    let n = table.len();
    let mut i: usize = 0;
    proof {
        assert(table_view(table@).skip(0) =~= table_view(table@));
    }
    while i < n
        invariant
            i <= n,
            n == table.len(),
            spec_lookup(table_view(table@), name@) == spec_lookup(
                table_view(table@).skip(i as int),
                name@,
            ),
        decreases n - i,
    {
        proof {
            let iv = i as int;
            assert(table_view(table@).skip(iv)[0] == (table@[iv].0@, table@[iv].1));
            assert(table_view(table@).skip(iv).drop_first() =~= table_view(table@).skip(iv + 1));
        }
        if table[i].0 == *name {
            return Some(table[i].1);
        }
        i = i + 1;
    }
    proof {
        assert(table_view(table@).skip(n as int).len() == 0);
    }
    None
}

/// The first of `names` that does not resolve in `table`, scanning from
/// index `i`; `None` if they all resolve.
pub open spec fn spec_first_missing(table: Seq<(Seq<char>, u32)>, names: Seq<Seq<char>>, i: int) -> Option<
    Seq<char>,
>
    decreases names.len() - i,
{
    if i < 0 || i >= names.len() {
        None
    } else if spec_lookup(table, names[i]) is None {
        Some(names[i])
    } else {
        spec_first_missing(table, names, i + 1)
    }
}

/// The names of a configuration's attribute or uniform map.
pub open spec fn names_of_pairs<T>(named: Seq<(String, T)>) -> Seq<Seq<char>> {
    named.map_values(|p: (String, T)| p.0@)
}

/// The names of a configuration's texture map.
pub open spec fn names_of_triples(named: Seq<(String, TextureId, u32)>) -> Seq<Seq<char>> {
    named.map_values(|p: (String, TextureId, u32)| p.0@)
}

/// The slots a fully resolving attribute map produces: each name's location
/// paired with its role, in configuration order. Meaningful only when no
/// name is missing.
pub open spec fn spec_resolved_attrs(
    table: Seq<(Seq<char>, u32)>,
    named: Seq<(String, VertexAttr)>,
) -> Seq<(u32, VertexAttr)> {
    named.map_values(
        |p: (String, VertexAttr)| (spec_lookup(table, p.0@).unwrap(), p.1),
    )
}

/// The slots a fully resolving uniform map produces.
pub open spec fn spec_resolved_uniforms(
    table: Seq<(Seq<char>, u32)>,
    named: Seq<(String, UniformId)>,
) -> Seq<(u32, UniformId)> {
    named.map_values(|p: (String, UniformId)| (spec_lookup(table, p.0@).unwrap(), p.1))
}

/// The uniform entries a fully resolving uniform-buffer map produces: the
/// block index paired with the buffer role for the configured id.
pub open spec fn spec_resolved_buffers(
    table: Seq<(Seq<char>, u32)>,
    named: Seq<(String, usize)>,
) -> Seq<(u32, UniformId)> {
    named.map_values(
        |p: (String, usize)| (spec_lookup(table, p.0@).unwrap(), UniformId::Buffer(p.1 as u8)),
    )
}

/// The texture entries a fully resolving texture map produces: the sampler
/// location, the texture role, and the configured texture unit.
pub open spec fn spec_resolved_textures(
    table: Seq<(Seq<char>, u32)>,
    named: Seq<(String, TextureId, u32)>,
) -> Seq<(u32, TextureId, u32)> {
    named.map_values(
        |p: (String, TextureId, u32)| (spec_lookup(table, p.0@).unwrap(), p.1, p.2),
    )
}

/// The location of the first entry for a uniform role, or `None` if the
/// program never declared it.
pub open spec fn spec_uniform_of(entries: Seq<(u32, UniformId)>, id: UniformId) -> Option<u32>
    decreases entries.len(),
{
    if entries.len() == 0 {
        None
    } else if entries[0].1 == id {
        Some(entries[0].0)
    } else {
        spec_uniform_of(entries.drop_first(), id)
    }
}

/// The (location, unit) of the first entry for a texture role, or `None`
/// if the program never declared it.
pub open spec fn spec_texture_uniform_of(
    entries: Seq<(u32, TextureId, u32)>,
    id: TextureId,
) -> Option<(u32, u32)>
    decreases entries.len(),
{
    if entries.len() == 0 {
        None
    } else if entries[0].1 == id {
        Some((entries[0].0, entries[0].2))
    } else {
        spec_texture_uniform_of(entries.drop_first(), id)
    }
}

/// A shader program with its resolved attribute, uniform and texture
/// slots.
#[derive(Debug, Clone, PartialEq)]
pub struct Program {
    /// The driver handle of the linked program
    pub id: u32,
    /// Attribute slot for each resolved attribute role
    pub attributes: Vec<(u32, VertexAttr)>,
    /// Uniform location for each resolved uniform role
    pub uniforms: Vec<(u32, UniformId)>,
    /// Sampler location and texture unit for each resolved texture role
    pub textures: Vec<(u32, TextureId, u32)>,
}

impl Program {
    /// A program fresh from the driver's linker, with nothing resolved yet.
    pub fn link_program(linked: &LinkedProgram) -> (r: Self)
        ensures
            r.id == linked.id,
            r.attributes@ == Seq::<(u32, VertexAttr)>::empty(),
            r.uniforms@ == Seq::<(u32, UniformId)>::empty(),
            r.textures@ == Seq::<(u32, TextureId, u32)>::empty(),
    {
        Self { id: linked.id, attributes: Vec::new(), uniforms: Vec::new(), textures: Vec::new() }
    }

    /// Resolve an attribute name (which should be in the shader source) and
    /// record its slot for the given role.
    pub fn add_attr_name(&mut self, linked: &LinkedProgram, name: &String, vertex_attr: VertexAttr)
        -> (r: Result<(), GlError>)
        ensures
            r is Ok <==> spec_lookup(table_view(linked.attributes@), name@) is Some,
            r is Ok ==> final(self).attributes@ == old(self).attributes@.push(
                (spec_lookup(table_view(linked.attributes@), name@).unwrap(), vertex_attr),
            ) && final(self).uniforms == old(self).uniforms && final(self).textures == old(self).textures && final(self).id == old(self).id,
            r matches Err(e) ==> e == GlError::NameResolution(*name) && *final(self) == *old(self),
    {
        match lookup(&linked.attributes, name) {
            Some(loc) => {
                self.attributes.push((loc, vertex_attr));
                Ok(())
            },
            None => Err(GlError::NameResolution(name.clone())),
        }
    }

    /// Resolve a uniform name (which should be in the shader source) and
    /// record its location for the given role.
    pub fn add_uniform_name(&mut self, linked: &LinkedProgram, name: &String, uniform_id: UniformId)
        -> (r: Result<(), GlError>)
        ensures
            r is Ok <==> spec_lookup(table_view(linked.uniforms@), name@) is Some,
            r is Ok ==> final(self).uniforms@ == old(self).uniforms@.push(
                (spec_lookup(table_view(linked.uniforms@), name@).unwrap(), uniform_id),
            ) && final(self).attributes == old(self).attributes && final(self).textures == old(self).textures && final(self).id == old(self).id,
            r matches Err(e) ==> e == GlError::NameResolution(*name) && *final(self) == *old(self),
    {
        match lookup(&linked.uniforms, name) {
            Some(loc) => {
                self.uniforms.push((loc, uniform_id));
                Ok(())
            },
            None => Err(GlError::NameResolution(name.clone())),
        }
    }

    /// Resolve a uniform block name (which should be in the shader source)
    /// and record its index for the given buffer id.
    pub fn add_uniform_buffer_name(&mut self, linked: &LinkedProgram, name: &String, id: usize)
        -> (r: Result<(), GlError>)
        ensures
            r is Ok <==> spec_lookup(table_view(linked.uniform_blocks@), name@) is Some,
            r is Ok ==> final(self).uniforms@ == old(self).uniforms@.push(
                (
                    spec_lookup(table_view(linked.uniform_blocks@), name@).unwrap(),
                    UniformId::Buffer(id as u8),
                ),
            ) && final(self).attributes == old(self).attributes && final(self).textures == old(self).textures && final(self).id == old(self).id,
            r matches Err(e) ==> e == GlError::NameResolution(*name) && *final(self) == *old(self),
    {
        match lookup(&linked.uniform_blocks, name) {
            Some(loc) => {
                self.uniforms.push((loc, UniformId::Buffer(#[verifier::truncate] (id as u8))));
                Ok(())
            },
            None => Err(GlError::NameResolution(name.clone())),
        }
    }

    /// Resolve a sampler uniform name (which should be in the shader
    /// source) and record its location, texture role and texture unit.
    pub fn add_uniform_texture_name(
        &mut self,
        linked: &LinkedProgram,
        name: &String,
        texture_id: TextureId,
        unit: u32,
    ) -> (r: Result<(), GlError>)
        ensures
            r is Ok <==> spec_lookup(table_view(linked.uniforms@), name@) is Some,
            r is Ok ==> final(self).textures@ == old(self).textures@.push(
                (spec_lookup(table_view(linked.uniforms@), name@).unwrap(), texture_id, unit),
            ) && final(self).attributes == old(self).attributes && final(self).uniforms == old(self).uniforms && final(self).id == old(self).id,
            r matches Err(e) ==> e == GlError::NameResolution(*name) && *final(self) == *old(self),
    {
        match lookup(&linked.uniforms, name) {
            Some(loc) => {
                self.textures.push((loc, texture_id, unit));
                Ok(())
            },
            None => Err(GlError::NameResolution(name.clone())),
        }
    }

    /// Make this program current.
    pub fn set_used(&self, context: &mut crate::opengl::Model3DOpenGL)
        ensures
            final(context).commands@ == old(context).commands@.push(
                crate::command::GlCommand::UseProgram { program: self.id },
            ),
            final(context).buffers == old(context).buffers,
            final(context).next_vao == old(context).next_vao,
    {
        context.use_program(Some(self))
    }

    /// The driver handle of the linked program.
    pub fn id(&self) -> (r: u32)
        ensures
            r == self.id,
    {
        self.id
    }

    /// The resolved attribute slots, in configuration order.
    pub fn attributes(&self) -> (r: &Vec<(u32, VertexAttr)>)
        ensures
            r == &self.attributes,
    {
        &self.attributes
    }

    /// The location of a uniform role, or `None` if this program never
    /// declared it - the caller then skips the write.
    pub fn uniform(&self, uniform_id: UniformId) -> (r: Option<u32>)
        ensures
            r == spec_uniform_of(self.uniforms@, uniform_id),
    {
        let n = self.uniforms.len();
        let mut i: usize = 0;
        proof {
            assert(self.uniforms@.skip(0) =~= self.uniforms@);
        }
        while i < n
            invariant
                i <= n,
                n == self.uniforms.len(),
                spec_uniform_of(self.uniforms@, uniform_id) == spec_uniform_of(
                    self.uniforms@.skip(i as int),
                    uniform_id,
                ),
            decreases n - i,
        {
            proof {
                assert(self.uniforms@.skip(i as int).drop_first() =~= self.uniforms@.skip(i + 1));
            }
            if self.uniforms[i].1 == uniform_id {
                return Some(self.uniforms[i].0);
            }
            i = i + 1;
        }
        None
    }

    /// The sampler location and texture unit of a texture role, or `None`
    /// if this program never declared it - the caller then skips the bind.
    pub fn texture_uniform(&self, texture_id: TextureId) -> (r: Option<(u32, u32)>)
        ensures
            r == spec_texture_uniform_of(self.textures@, texture_id),
    {
        let n = self.textures.len();
        let mut i: usize = 0;
        proof {
            assert(self.textures@.skip(0) =~= self.textures@);
        }
        while i < n
            invariant
                i <= n,
                n == self.textures.len(),
                spec_texture_uniform_of(self.textures@, texture_id) == spec_texture_uniform_of(
                    self.textures@.skip(i as int),
                    texture_id,
                ),
            decreases n - i,
        {
            proof {
                assert(self.textures@.skip(i as int).drop_first() =~= self.textures@.skip(i + 1));
            }
            if self.textures[i].1 == texture_id {
                return Some((self.textures[i].0, self.textures[i].2));
            }
            i = i + 1;
        }
        None
    }
}


/// A shader program descriptor, as configuration supplies it: where the
/// stage sources come from, and the name-to-role maps that resolution
/// turns into a [`Program`].
///
/// Reading and compiling the sources is the host's business; the
/// resolution of the maps against the linked program's report happens
/// here, in [`ShaderProgramDesc::resolve`].
#[derive(Debug, Clone, PartialEq)]
pub struct ShaderProgramDesc {
    /// Where the vertex shader source comes from
    pub vertex_src: String,
    /// Where the fragment shader source comes from
    pub fragment_src: String,
    /// Shader attribute names and the roles they carry
    pub attribute_map: Vec<(String, VertexAttr)>,
    /// Shader uniform names and the roles they carry
    pub uniform_map: Vec<(String, UniformId)>,
    /// Shader uniform block names and their configured buffer ids
    pub uniform_buffer_map: Vec<(String, usize)>,
    /// Shader sampler names, their texture roles, and their texture units
    pub texture_map: Vec<(String, TextureId, u32)>,
}

impl ShaderProgramDesc {
    /// Resolve every name this descriptor declares against a linked
    /// program's report, yielding the program's slot table - or the first
    /// name the program lacks, as a [`GlError::NameResolution`].
    pub fn resolve(&self, gl: &crate::opengl::Model3DOpenGL, linked: &LinkedProgram) -> (r: Result<
        Program,
        GlError,
    >)
        ensures
            crate::opengl::link_program_post(
                *linked,
                self.attribute_map@,
                self.uniform_map@,
                self.uniform_buffer_map@,
                self.texture_map@,
                r,
            ),
    {
        gl.link_program(
            linked,
            &self.attribute_map,
            &self.uniform_map,
            &self.uniform_buffer_map,
            &self.texture_map,
        )
    }
}

} // verus!
