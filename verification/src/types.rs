//! The small enumerations and index types that the rest of the crate is
//! built from: element types, semantic attribute/uniform/texture roles, and
//! the packed optional index used by render recipes.

use vstd::prelude::*;

verus! {

/// A 4x4 matrix, stored as the IEEE-754 bit patterns of its 16 entries in
/// column-major order.
///
/// This layer never does arithmetic on matrix entries; it only routes them
/// from the scene description into uniform-write commands, so it carries
/// them as opaque 32-bit words.
pub type Mat4 = [u32; 16];

/// The type of one element of a raw data buffer.
#[derive(Debug, Clone, Copy, PartialEq, Eq, Structural)]
pub enum BufferElementType {
    /// 8-bit integer
    Int8,
    /// 16-bit integer
    Int16,
    /// 32-bit integer
    Int32,
    /// 16-bit floating point
    Float16,
    /// 32-bit floating point
    Float32,
}

impl BufferElementType {
    /// True for the integer element types, which are the only ones an index
    /// buffer may use.
    pub open spec fn is_int(self) -> bool {
        match self {
            BufferElementType::Int8 => true,
            BufferElementType::Int16 => true,
            BufferElementType::Int32 => true,
            BufferElementType::Float16 => false,
            BufferElementType::Float32 => false,
        }
    }

    /// The size in bytes of one element.
    pub open spec fn spec_byte_length(self) -> nat {
        match self {
            BufferElementType::Int8 => 1,
            BufferElementType::Int16 => 2,
            BufferElementType::Int32 => 4,
            BufferElementType::Float16 => 2,
            BufferElementType::Float32 => 4,
        }
    }

    /// The size in bytes of one element.
    pub fn byte_length(self) -> (r: u32)
        ensures
            r == self.spec_byte_length(),
    {
        match self {
            BufferElementType::Int8 => 1,
            BufferElementType::Int16 => 2,
            BufferElementType::Int32 => 4,
            BufferElementType::Float16 => 2,
            BufferElementType::Float32 => 4,
        }
    }
}

/// The semantic role of a vertex attribute buffer within a mesh.
#[derive(Debug, Clone, Copy, PartialEq, Eq, Structural)]
pub enum VertexAttr {
    /// Indices of the elements for the primitives of a mesh
    Indices,
    /// Vertex position
    Position,
    /// Vertex normal
    Normal,
    /// Vertex color
    Color,
    /// Vertex tangent
    Tangent,
    /// Bone joints a vertex belongs to
    Joints,
    /// Weights of the bone joints
    Weights,
    /// First texture coordinates
    TexCoords0,
    /// Second texture coordinates
    TexCoords1,
}

/// The topology a primitive is drawn with.
#[derive(Debug, Clone, Copy, PartialEq, Eq, Structural)]
pub enum PrimitiveType {
    /// Individual points
    Points,
    /// Individual lines
    Lines,
    /// A closed loop of lines
    LineLoop,
    /// An open strip of lines
    LineStrip,
    /// Individual triangles
    Triangles,
    /// A fan of triangles around the first vertex
    TriangleFan,
    /// A strip of triangles
    TriangleStrip,
}

/// The stage a shader is compiled for.
#[derive(Debug, Clone, Copy, PartialEq, Eq, Structural)]
pub enum GlShaderType {
    /// A vertex shader
    Vertex,
    /// A fragment shader
    Fragment,
}

/// A compact optional index into a small array, with a sentinel for 'none'.
#[derive(Debug, Clone, Copy, PartialEq, Eq, Structural)]
pub struct ShortIndex {
    /// The index, with 65535 standing for 'none'
    pub value: u16,
}

impl ShortIndex {
    /// True if the index holds no value.
    pub open spec fn spec_is_none(self) -> bool {
        self.value == 65535
    }

    /// The index held; meaningful only when `!spec_is_none()`.
    pub open spec fn spec_index(self) -> int {
        self.value as int
    }

    /// Create a 'none' value.
    pub fn none() -> (r: Self)
        ensures
            r.spec_is_none(),
    {
        Self { value: 65535 }
    }

    /// Create an index holding `value`.
    pub fn of_index(value: u16) -> (r: Self)
        requires
            value != 65535,
        ensures
            !r.spec_is_none(),
            r.spec_index() == value,
    {
        Self { value }
    }

    /// True if the index holds no value.
    pub fn is_none(self) -> (r: bool)
        ensures
            r == self.spec_is_none(),
    {
        self.value == 65535
    }

    /// True if the index holds a value.
    pub fn is_some(self) -> (r: bool)
        ensures
            r == !self.spec_is_none(),
    {
        self.value != 65535
    }

    /// The index held.
    ///
    /// Reading a 'none' value is a caller defect, so it is ruled out rather
    /// than handled.
    pub fn as_usize(self) -> (r: usize)
        requires
            !self.spec_is_none(),
        ensures
            r == self.spec_index(),
    {
        self.value as usize
    }
}

impl Default for ShortIndex {
    /// The default is the 'none' value.
    fn default() -> (r: Self)
        ensures
            r.spec_is_none(),
    {
        Self { value: 65535 }
    }
}

/// An enumeration of the uniforms that this crate particularly cares about.
#[derive(Debug, Clone, Copy, PartialEq, Eq, Structural)]
pub enum UniformId {
    /// The view matrix uniform - once per framebuffer render
    ViewMatrix,
    /// The model matrix uniform - once per model instance
    ModelMatrix,
    /// The mesh matrix uniform - once per model mesh
    MeshMatrix,
    /// The bone scale uniform - once per model
    BoneScale,
    /// The bone matrices uniform - once per model
    BoneMatrices,
    /// The material data uniform, starting with a `ShaderMaterialBaseData`
    Material,
    /// A texture uniform - dependent on the program
    Texture(TextureId),
    /// A user uniform - dependent on the program
    User(u8),
    /// A user uniform buffer - dependent on the program
    Buffer(u8),
}

impl UniformId {
    /// The uniform a configuration name stands for, if it names one.
    pub open spec fn spec_from_str(s: Seq<char>) -> Option<UniformId> {
        if s == "ViewMatrix"@ {
            Some(UniformId::ViewMatrix)
        } else if s == "ModelMatrix"@ {
            Some(UniformId::ModelMatrix)
        } else if s == "MeshMatrix"@ {
            Some(UniformId::MeshMatrix)
        } else if s == "BoneScale"@ {
            Some(UniformId::BoneScale)
        } else if s == "BoneMatrices"@ {
            Some(UniformId::BoneMatrices)
        } else if s == "Material"@ {
            Some(UniformId::Material)
        } else {
            None
        }
    }

    /// Parse a configuration name into the uniform it stands for.
    pub fn from_str(s: &str) -> (r: Option<UniformId>)
        ensures
            r == Self::spec_from_str(s@),
    {
        let owned = s.to_owned();
        if owned == "ViewMatrix".to_owned() {
            Some(UniformId::ViewMatrix)
        } else if owned == "ModelMatrix".to_owned() {
            Some(UniformId::ModelMatrix)
        } else if owned == "MeshMatrix".to_owned() {
            Some(UniformId::MeshMatrix)
        } else if owned == "BoneScale".to_owned() {
            Some(UniformId::BoneScale)
        } else if owned == "BoneMatrices".to_owned() {
            Some(UniformId::BoneMatrices)
        } else if owned == "Material".to_owned() {
            Some(UniformId::Material)
        } else {
            None
        }
    }
}

/// An enumeration of the textures that this crate particularly cares about.
#[derive(Debug, Clone, Copy, PartialEq, Eq, Structural)]
pub enum TextureId {
    /// No texture
    NoTexture,
    /// The base color texture
    BaseColor,
    /// A normal texture
    Normal,
    /// The occlusion texture
    Occlusion,
    /// The emission texture
    Emission,
    /// The metallic-roughness texture
    MetallicRoughness,
    /// User 0
    User0,
}

impl TextureId {
    /// The texture role a configuration name stands for, if it names one.
    pub open spec fn spec_from_str(s: Seq<char>) -> Option<TextureId> {
        if s == "BaseColor"@ {
            Some(TextureId::BaseColor)
        } else if s == "Normal"@ {
            Some(TextureId::Normal)
        } else if s == "Occlusion"@ {
            Some(TextureId::Occlusion)
        } else if s == "Emission"@ {
            Some(TextureId::Emission)
        } else if s == "MetallicRoughness"@ {
            Some(TextureId::MetallicRoughness)
        } else if s == "User0"@ {
            Some(TextureId::User0)
        } else {
            None
        }
    }

    /// Parse a configuration name into the texture role it stands for.
    pub fn from_str(s: &str) -> (r: Option<TextureId>)
        ensures
            r == Self::spec_from_str(s@),
    {
        let owned = s.to_owned();
        if owned == "BaseColor".to_owned() {
            Some(TextureId::BaseColor)
        } else if owned == "Normal".to_owned() {
            Some(TextureId::Normal)
        } else if owned == "Occlusion".to_owned() {
            Some(TextureId::Occlusion)
        } else if owned == "Emission".to_owned() {
            Some(TextureId::Emission)
        } else if owned == "MetallicRoughness".to_owned() {
            Some(TextureId::MetallicRoughness)
        } else if owned == "User0".to_owned() {
            Some(TextureId::User0)
        } else {
            None
        }
    }

    /// The texture role that carries a given material aspect.
    pub open spec fn spec_of_material_aspect(m: MaterialAspect) -> TextureId {
        match m {
            MaterialAspect::Color => TextureId::BaseColor,
            MaterialAspect::Normal => TextureId::Normal,
            MaterialAspect::MetallicRoughness => TextureId::MetallicRoughness,
            MaterialAspect::Occlusion => TextureId::Occlusion,
            MaterialAspect::Emission => TextureId::Emission,
        }
    }

    /// The texture role that carries a given material aspect.
    pub fn of_material_aspect(m: MaterialAspect) -> (r: Self)
        ensures
            r == Self::spec_of_material_aspect(m),
    {
        match m {
            MaterialAspect::Color => TextureId::BaseColor,
            MaterialAspect::Normal => TextureId::Normal,
            MaterialAspect::MetallicRoughness => TextureId::MetallicRoughness,
            MaterialAspect::Occlusion => TextureId::Occlusion,
            MaterialAspect::Emission => TextureId::Emission,
        }
    }
}

impl Default for TextureId {
    /// The default is 'no texture'.
    fn default() -> (r: Self)
        ensures
            r == TextureId::NoTexture,
    {
        TextureId::NoTexture
    }
}

/// An aspect of a material that may be backed by a texture.
#[derive(Debug, Clone, Copy, PartialEq, Eq, Structural)]
pub enum MaterialAspect {
    /// The base color
    Color,
    /// The normal map
    Normal,
    /// The metallic-roughness map
    MetallicRoughness,
    /// The occlusion map
    Occlusion,
    /// The emission map
    Emission,
}

} // verus!
