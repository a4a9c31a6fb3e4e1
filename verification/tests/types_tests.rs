//! The small enumerations: parsing, aspect mapping, sizes, indices.

use mod3d_gl::{
    BufferElementType, GlCommand, GlError, LinkedProgram, MaterialAspect, Model3DOpenGL,
    ShortIndex, Texture, TextureId, UniformId,
};

#[test]
fn uniform_id_from_str_known_names() {
    assert_eq!(UniformId::from_str("ViewMatrix"), Some(UniformId::ViewMatrix));
    assert_eq!(UniformId::from_str("ModelMatrix"), Some(UniformId::ModelMatrix));
    assert_eq!(UniformId::from_str("MeshMatrix"), Some(UniformId::MeshMatrix));
    assert_eq!(UniformId::from_str("BoneScale"), Some(UniformId::BoneScale));
    assert_eq!(UniformId::from_str("BoneMatrices"), Some(UniformId::BoneMatrices));
    assert_eq!(UniformId::from_str("Material"), Some(UniformId::Material));
}

#[test]
fn uniform_id_from_str_unknown_name() {
    assert_eq!(UniformId::from_str("NotAUniform"), None);
    assert_eq!(UniformId::from_str(""), None);
    assert_eq!(UniformId::from_str("viewmatrix"), None);
}

#[test]
fn texture_id_from_str_known_names() {
    assert_eq!(TextureId::from_str("BaseColor"), Some(TextureId::BaseColor));
    assert_eq!(TextureId::from_str("Normal"), Some(TextureId::Normal));
    assert_eq!(TextureId::from_str("Occlusion"), Some(TextureId::Occlusion));
    assert_eq!(TextureId::from_str("Emission"), Some(TextureId::Emission));
    assert_eq!(
        TextureId::from_str("MetallicRoughness"),
        Some(TextureId::MetallicRoughness)
    );
    assert_eq!(TextureId::from_str("User0"), Some(TextureId::User0));
}

#[test]
fn texture_id_from_str_unknown_name() {
    assert_eq!(TextureId::from_str("Albedo"), None);
}

#[test]
fn texture_id_of_material_aspect() {
    assert_eq!(
        TextureId::of_material_aspect(MaterialAspect::Color),
        TextureId::BaseColor
    );
    assert_eq!(
        TextureId::of_material_aspect(MaterialAspect::Normal),
        TextureId::Normal
    );
    assert_eq!(
        TextureId::of_material_aspect(MaterialAspect::MetallicRoughness),
        TextureId::MetallicRoughness
    );
    assert_eq!(
        TextureId::of_material_aspect(MaterialAspect::Occlusion),
        TextureId::Occlusion
    );
    assert_eq!(
        TextureId::of_material_aspect(MaterialAspect::Emission),
        TextureId::Emission
    );
}

#[test]
fn texture_id_default_is_no_texture() {
    assert_eq!(TextureId::default(), TextureId::NoTexture);
}

#[test]
fn element_type_byte_lengths() {
    assert_eq!(BufferElementType::Int8.byte_length(), 1);
    assert_eq!(BufferElementType::Int16.byte_length(), 2);
    assert_eq!(BufferElementType::Int32.byte_length(), 4);
    assert_eq!(BufferElementType::Float16.byte_length(), 2);
    assert_eq!(BufferElementType::Float32.byte_length(), 4);
}

#[test]
fn short_index_roundtrip() {
    let none = ShortIndex::none();
    assert!(none.is_none());
    assert!(!none.is_some());
    let three = ShortIndex::of_index(3);
    assert!(three.is_some());
    assert_eq!(three.as_usize(), 3);
    assert_eq!(ShortIndex::default(), ShortIndex::none());
}

#[test]
fn texture_handle_accessors() {
    let t = Texture::new(7);
    assert_eq!(t.gl_texture(), 7);
    assert_eq!(Texture::default().gl_texture(), 0);
}

#[test]
fn error_descriptions() {
    assert_eq!(
        GlError::NameResolution(String::from("uThing")).describe(),
        "name not found in program"
    );
    assert_eq!(
        GlError::InvalidElementType.describe(),
        "indices must have an integer element type"
    );
    assert_eq!(
        GlError::ViewKindMismatch.describe(),
        "buffer view is already realized as the other kind"
    );
}

#[test]
fn context_records_and_hands_over() {
    let mut gl = Model3DOpenGL::default();
    let program = gl
        .link_program(
            &LinkedProgram {
                id: 11,
                attributes: vec![],
                uniforms: vec![],
                uniform_blocks: vec![],
            },
            &vec![],
            &vec![],
            &vec![],
            &vec![],
        )
        .unwrap();
    program.set_used(&mut gl);
    gl.use_program(None);
    let taken = gl.take_commands();
    assert_eq!(
        taken,
        vec![
            GlCommand::UseProgram { program: 11 },
            GlCommand::UseProgram { program: 0 },
        ]
    );
    assert!(gl.commands().is_empty());
}
