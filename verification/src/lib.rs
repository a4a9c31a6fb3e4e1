//! A backend-agnostic GPU resource and draw-submission layer for a 3D
//! renderer.
//!
//! The crate maps a generic scene description (meshes made of typed
//! vertex/index buffers, materials, textures) onto a graphics backend's draw
//! calls while minimising redundant state changes and guaranteeing that GPU
//! resources are created at most once and released exactly when unreferenced.
//!
//! The concrete driver is kept outside: the [`Model3DOpenGL`] context records
//! every driver operation it decides on as a [`GlCommand`], and the answers a
//! driver gives back (attribute and uniform locations of a linked program)
//! are handed in as plain values ([`LinkedProgram`]). An executor that owns a
//! real GL context replays the command stream; a test inspects it directly.

mod types;
pub use types::{
    BufferElementType, GlShaderType, Mat4, MaterialAspect, PrimitiveType, ShortIndex, TextureId,
    UniformId, VertexAttr,
};

mod command;
pub use command::GlCommand;

mod error;
pub use error::GlError;

mod opengl;
pub use opengl::{
    link_program_post, spec_bind_uniform_index_cmds, spec_clone_buffers, spec_draw_primitive_cmds,
    spec_release_all_buffers, spec_release_all_cmds, spec_release_buffers, spec_release_frees,
    spec_uniform_floats_cmds, spec_uniform_mat4_cmds, spec_use_texture_cmds, BufferRec,
    Model3DOpenGL, Vao,
};

mod buffer;
pub use buffer::{
    init_view_post, of_view_post, BufferAccessor, BufferData, BufferView, GpuBuffer, IndexBuffer,
    UniformBuffer, VertexBuffer,
};

mod program;
pub use program::{
    names_of_pairs, names_of_triples, spec_first_missing, spec_lookup, spec_resolved_attrs,
    spec_resolved_buffers, spec_resolved_textures, spec_resolved_uniforms,
    spec_texture_uniform_of, spec_uniform_of, table_view, LinkedProgram, Program,
    ShaderProgramDesc,
};

mod material;
pub use material::{spec_packed_textures, Material};

mod texture;
pub use texture::Texture;

mod vertices;
pub use vertices::{spec_attr_refs, Vertices};

mod shader_instantiable;
pub use shader_instantiable::{
    spec_bind_attr_cmd, spec_bind_matching_cmds, spec_gl_draw_cmds, spec_mat_texture_cmds,
    spec_material_cmds, spec_new_vao_cmds, spec_vao_attr_cmds, spec_vaos_cmds,
    spec_wf_instantiable, Instance, Instantiable, Primitive, RenderRecipe, ShaderInstantiable,
    ShaderMaterialBaseData,
};

mod laws;
pub use laws::{
    lemma_absent_role_writes_nothing, lemma_buffer_creation_idempotent,
    lemma_distinct_materials_two_pushes, lemma_index_element_type_validation,
    lemma_link_omits_role, lemma_release_on_last_drop, lemma_same_material_single_push,
    lemma_unresolved_texture_absent, lemma_unresolved_uniform_absent, lemma_view_kind_immutable,
    spec_count_material_pushes,
};
