//! Program binding resolution: every declared name resolved once, missing
//! names failing construction by name, undeclared roles absent.

use mod3d_gl::{
    GlError, LinkedProgram, Model3DOpenGL, Program, ShaderProgramDesc, TextureId, UniformId,
    VertexAttr,
};

fn linked() -> LinkedProgram {
    LinkedProgram {
        id: 42,
        attributes: vec![
            (String::from("aPos"), 0),
            (String::from("aNormal"), 1),
        ],
        uniforms: vec![
            (String::from("uModelMatrix"), 3),
            (String::from("uMeshMatrix"), 4),
            (String::from("uMaterial"), 5),
            (String::from("uBaseTexture"), 6),
        ],
        uniform_blocks: vec![(String::from("World"), 2)],
    }
}

#[test]
fn resolution_fills_slot_table() {
    let gl = Model3DOpenGL::new();
    let program = gl
        .link_program(
            &linked(),
            &vec![
                (String::from("aPos"), VertexAttr::Position),
                (String::from("aNormal"), VertexAttr::Normal),
            ],
            &vec![
                (String::from("uModelMatrix"), UniformId::ModelMatrix),
                (String::from("uMeshMatrix"), UniformId::MeshMatrix),
                (String::from("uMaterial"), UniformId::Material),
            ],
            &vec![(String::from("World"), 1)],
            &vec![(String::from("uBaseTexture"), TextureId::BaseColor, 0)],
        )
        .unwrap();
    assert_eq!(program.id(), 42);
    assert_eq!(
        program.attributes().as_slice(),
        &[(0, VertexAttr::Position), (1, VertexAttr::Normal)]
    );
    assert_eq!(program.uniform(UniformId::ModelMatrix), Some(3));
    assert_eq!(program.uniform(UniformId::MeshMatrix), Some(4));
    assert_eq!(program.uniform(UniformId::Material), Some(5));
    assert_eq!(program.uniform(UniformId::Buffer(1)), Some(2));
    assert_eq!(
        program.texture_uniform(TextureId::BaseColor),
        Some((6, 0))
    );
}

#[test]
fn missing_uniform_name_fails_with_that_name() {
    let gl = Model3DOpenGL::new();
    let r = gl.link_program(
        &linked(),
        &vec![(String::from("aPos"), VertexAttr::Position)],
        &vec![
            (String::from("uModelMatrix"), UniformId::ModelMatrix),
            (String::from("uViewMatrix"), UniformId::ViewMatrix),
        ],
        &vec![],
        &vec![],
    );
    assert_eq!(
        r,
        Err(GlError::NameResolution(String::from("uViewMatrix")))
    );
}

#[test]
fn missing_attribute_name_fails_first() {
    // the first unresolved name, in configuration order, is the one reported
    let gl = Model3DOpenGL::new();
    let r = gl.link_program(
        &linked(),
        &vec![(String::from("aTangent"), VertexAttr::Tangent)],
        &vec![(String::from("uAbsent"), UniformId::ViewMatrix)],
        &vec![],
        &vec![],
    );
    assert_eq!(r, Err(GlError::NameResolution(String::from("aTangent"))));
}

#[test]
fn missing_texture_name_fails() {
    let gl = Model3DOpenGL::new();
    let r = gl.link_program(
        &linked(),
        &vec![],
        &vec![],
        &vec![],
        &vec![(String::from("uNormalTexture"), TextureId::Normal, 1)],
    );
    assert_eq!(
        r,
        Err(GlError::NameResolution(String::from("uNormalTexture")))
    );
}

#[test]
fn missing_uniform_block_fails() {
    let gl = Model3DOpenGL::new();
    let r = gl.link_program(
        &linked(),
        &vec![],
        &vec![],
        &vec![(String::from("Bones"), 3)],
        &vec![],
    );
    assert_eq!(r, Err(GlError::NameResolution(String::from("Bones"))));
}

#[test]
fn undeclared_roles_are_absent() {
    let gl = Model3DOpenGL::new();
    let program = gl
        .link_program(
            &linked(),
            &vec![(String::from("aPos"), VertexAttr::Position)],
            &vec![(String::from("uModelMatrix"), UniformId::ModelMatrix)],
            &vec![],
            &vec![],
        )
        .unwrap();
    assert_eq!(program.uniform(UniformId::ViewMatrix), None);
    assert_eq!(program.uniform(UniformId::Material), None);
    assert_eq!(program.uniform(UniformId::Buffer(0)), None);
    assert_eq!(program.texture_uniform(TextureId::BaseColor), None);
    assert_eq!(program.texture_uniform(TextureId::Normal), None);
}

#[test]
fn empty_maps_resolve_to_empty_table() {
    let gl = Model3DOpenGL::new();
    let program: Program = gl
        .link_program(&linked(), &vec![], &vec![], &vec![], &vec![])
        .unwrap();
    assert_eq!(program.attributes().len(), 0);
    assert_eq!(program.uniform(UniformId::ModelMatrix), None);
}

#[test]
fn descriptor_resolves_like_link_program() {
    let gl = Model3DOpenGL::new();
    let desc = ShaderProgramDesc {
        vertex_src: String::from("shader.vert"),
        fragment_src: String::from("shader.frag"),
        attribute_map: vec![(String::from("aPos"), VertexAttr::Position)],
        uniform_map: vec![(String::from("uModelMatrix"), UniformId::ModelMatrix)],
        uniform_buffer_map: vec![(String::from("World"), 1)],
        texture_map: vec![(String::from("uBaseTexture"), TextureId::BaseColor, 0)],
    };
    let program = desc.resolve(&gl, &linked()).unwrap();
    assert_eq!(program.uniform(UniformId::ModelMatrix), Some(3));
    assert_eq!(program.uniform(UniformId::Buffer(1)), Some(2));
    assert_eq!(
        program.texture_uniform(TextureId::BaseColor),
        Some((6, 0))
    );

    let bad = ShaderProgramDesc {
        uniform_map: vec![(String::from("uGone"), UniformId::ViewMatrix)],
        ..desc
    };
    assert_eq!(
        bad.resolve(&gl, &linked()),
        Err(GlError::NameResolution(String::from("uGone")))
    );
}
