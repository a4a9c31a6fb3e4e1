//! Draw orchestration end to end: one triangle drawn with exact
//! parameters, material state pushed only on change, absent roles skipped.

use mod3d_gl::{
    BufferAccessor, BufferData, BufferElementType, BufferView, GlCommand, GpuBuffer, Instance,
    Instantiable, LinkedProgram, Material, MaterialAspect, Model3DOpenGL, Primitive,
    PrimitiveType, RenderRecipe, ShaderInstantiable, ShaderMaterialBaseData, ShortIndex, Texture,
    TextureId, UniformId, VertexAttr, Vertices,
};

fn identity_mat4() -> [u32; 16] {
    let mut m = [0u32; 16];
    let one = 1.0f32.to_bits();
    m[0] = one;
    m[5] = one;
    m[10] = one;
    m[15] = one;
    m
}

/// One triangle: three positions of three floats, three 16-bit indices.
fn triangle_vertices(gl: &mut Model3DOpenGL) -> Vertices {
    let position_data = BufferData::new(36);
    let mut position_client = GpuBuffer::default();
    let mut position = BufferView::default();
    position
        .init_buffer_view_client(
            &BufferAccessor {
                count: 3,
                ele_type: BufferElementType::Float32,
                byte_offset: 0,
                stride: 0,
                elements_per_data: 9,
            },
            VertexAttr::Position,
            &position_data,
            &mut position_client,
            gl,
        )
        .unwrap();
    let index_data = BufferData::new(6);
    let mut index_client = GpuBuffer::default();
    let mut indices = BufferView::default();
    indices
        .init_buffer_view_client(
            &BufferAccessor {
                count: 3,
                ele_type: BufferElementType::Int16,
                byte_offset: 0,
                stride: 0,
                elements_per_data: 3,
            },
            VertexAttr::Indices,
            &index_data,
            &mut index_client,
            gl,
        )
        .unwrap();
    Vertices::create(&indices, &position, &vec![], gl)
}

fn linked_with(uniforms: Vec<(String, u32)>) -> LinkedProgram {
    LinkedProgram {
        id: 9,
        attributes: vec![(String::from("aPos"), 0)],
        uniforms,
        uniform_blocks: vec![],
    }
}

#[test]
fn scenario_one_triangle_one_draw() {
    let mut gl = Model3DOpenGL::new();
    let vertices = triangle_vertices(&mut gl);
    let program = gl
        .link_program(
            &linked_with(vec![(String::from("uModelMatrix"), 1)]),
            &vec![(String::from("aPos"), VertexAttr::Position)],
            &vec![(String::from("uModelMatrix"), UniformId::ModelMatrix)],
            &vec![],
            &vec![],
        )
        .unwrap();
    let instantiable = Instantiable {
        vertices: vec![vertices],
        materials: vec![],
        textures: vec![],
        render_recipe: RenderRecipe {
            primitives: vec![Primitive::new(
                PrimitiveType::Triangles,
                ShortIndex::of_index(0),
                0,
                3,
                ShortIndex::none(),
            )],
            matrix_for_primitives: vec![0],
            matrices: vec![identity_mat4()],
        },
    };
    let si = ShaderInstantiable::new(&mut gl, program, &instantiable).unwrap();
    assert_eq!(si.vaos.len(), 1);
    let vao_handle = si.vaos[0].handle;

    gl.take_commands();
    let instance = Instance {
        transformation: identity_mat4(),
    };
    si.gl_draw(&mut gl, &instantiable, &instance);

    let cmds = gl.commands();
    // the model matrix is set once for the instance; the mesh matrix role
    // is absent from this program, so its write is skipped silently
    assert_eq!(
        cmds.as_slice(),
        &[
            GlCommand::SetUniformMat4 {
                slot: 1,
                mat: identity_mat4()
            },
            GlCommand::BindVao { vao: vao_handle },
            GlCommand::DrawElements {
                mode: PrimitiveType::Triangles,
                count: 3,
                ele_type: BufferElementType::Int16,
                byte_offset: 0
            },
        ]
    );
}

fn material_with_color(r_bits: u32) -> Material {
    Material::create(
        ShaderMaterialBaseData::of_material([r_bits, 0, 0, 0], 0, 0),
        &vec![(MaterialAspect::Color, ShortIndex::of_index(0))],
    )
    .unwrap()
}

fn two_primitive_instantiable(
    gl: &mut Model3DOpenGL,
    first_material: u16,
    second_material: u16,
) -> Instantiable {
    let vertices = triangle_vertices(gl);
    Instantiable {
        vertices: vec![vertices],
        materials: vec![material_with_color(7), material_with_color(8)],
        textures: vec![Texture::new(77)],
        render_recipe: RenderRecipe {
            primitives: vec![
                Primitive::new(
                    PrimitiveType::Triangles,
                    ShortIndex::of_index(0),
                    0,
                    3,
                    ShortIndex::of_index(first_material),
                ),
                Primitive::new(
                    PrimitiveType::Triangles,
                    ShortIndex::of_index(0),
                    0,
                    3,
                    ShortIndex::of_index(second_material),
                ),
            ],
            matrix_for_primitives: vec![0, 0],
            matrices: vec![identity_mat4()],
        },
    }
}

fn material_program(gl: &Model3DOpenGL) -> mod3d_gl::Program {
    gl.link_program(
        &linked_with(vec![
            (String::from("uModelMatrix"), 1),
            (String::from("uMaterial"), 2),
            (String::from("uBaseTexture"), 3),
        ]),
        &vec![(String::from("aPos"), VertexAttr::Position)],
        &vec![
            (String::from("uModelMatrix"), UniformId::ModelMatrix),
            (String::from("uMaterial"), UniformId::Material),
        ],
        &vec![],
        &vec![(String::from("uBaseTexture"), TextureId::BaseColor, 0)],
    )
    .unwrap()
}

fn count_material_pushes(cmds: &[GlCommand]) -> usize {
    cmds.iter()
        .filter(|c| matches!(c, GlCommand::SetUniformFloats { .. }))
        .count()
}

#[test]
fn scenario_same_material_pushed_once() {
    let mut gl = Model3DOpenGL::new();
    let instantiable = two_primitive_instantiable(&mut gl, 0, 0);
    let program = material_program(&gl);
    let si = ShaderInstantiable::new(&mut gl, program, &instantiable).unwrap();
    gl.take_commands();
    si.gl_draw(
        &mut gl,
        &instantiable,
        &Instance {
            transformation: identity_mat4(),
        },
    );
    assert_eq!(count_material_pushes(gl.commands()), 1);
    // both primitives were still drawn
    let draws = gl
        .commands()
        .iter()
        .filter(|c| matches!(c, GlCommand::DrawElements { .. }))
        .count();
    assert_eq!(draws, 2);
}

#[test]
fn scenario_distinct_materials_pushed_in_order() {
    let mut gl = Model3DOpenGL::new();
    let instantiable = two_primitive_instantiable(&mut gl, 0, 1);
    let program = material_program(&gl);
    let si = ShaderInstantiable::new(&mut gl, program, &instantiable).unwrap();
    gl.take_commands();
    si.gl_draw(
        &mut gl,
        &instantiable,
        &Instance {
            transformation: identity_mat4(),
        },
    );
    let pushes: Vec<&GlCommand> = gl
        .commands()
        .iter()
        .filter(|c| matches!(c, GlCommand::SetUniformFloats { .. }))
        .collect();
    assert_eq!(pushes.len(), 2);
    // in primitive order: first the first material's block, then the second's
    assert_eq!(
        *pushes[0],
        GlCommand::SetUniformFloats {
            slot: 2,
            data: ShaderMaterialBaseData::of_material([7, 0, 0, 0], 0, 0)
        }
    );
    assert_eq!(
        *pushes[1],
        GlCommand::SetUniformFloats {
            slot: 2,
            data: ShaderMaterialBaseData::of_material([8, 0, 0, 0], 0, 0)
        }
    );
    // each material change also rebinds the material's texture
    let binds = gl
        .commands()
        .iter()
        .filter(|c| matches!(c, GlCommand::BindTexture { .. }))
        .count();
    assert_eq!(binds, 2);
    assert!(gl
        .commands()
        .iter()
        .any(|c| *c == GlCommand::BindTexture { slot: 3, unit: 0, texture: 77 }));
}

#[test]
fn draw_with_absent_roles_skips_writes() {
    // a program that never declared the material or texture roles draws
    // fine: the writes are skipped, not errors
    let mut gl = Model3DOpenGL::new();
    let instantiable = two_primitive_instantiable(&mut gl, 0, 1);
    let program = gl
        .link_program(
            &linked_with(vec![(String::from("uModelMatrix"), 1)]),
            &vec![(String::from("aPos"), VertexAttr::Position)],
            &vec![(String::from("uModelMatrix"), UniformId::ModelMatrix)],
            &vec![],
            &vec![],
        )
        .unwrap();
    let si = ShaderInstantiable::new(&mut gl, program, &instantiable).unwrap();
    gl.take_commands();
    si.gl_draw(
        &mut gl,
        &instantiable,
        &Instance {
            transformation: identity_mat4(),
        },
    );
    assert_eq!(count_material_pushes(gl.commands()), 0);
    assert!(!gl
        .commands()
        .iter()
        .any(|c| matches!(c, GlCommand::BindTexture { .. })));
    let draws = gl
        .commands()
        .iter()
        .filter(|c| matches!(c, GlCommand::DrawElements { .. }))
        .count();
    assert_eq!(draws, 2);
}

#[test]
fn mesh_matrix_set_only_on_change() {
    let mut gl = Model3DOpenGL::new();
    let vertices = triangle_vertices(&mut gl);
    let mut second = identity_mat4();
    second[12] = 2.5f32.to_bits();
    let instantiable = Instantiable {
        vertices: vec![vertices],
        materials: vec![],
        textures: vec![],
        render_recipe: RenderRecipe {
            primitives: vec![
                Primitive::new(
                    PrimitiveType::Triangles,
                    ShortIndex::of_index(0),
                    0,
                    3,
                    ShortIndex::none(),
                ),
                Primitive::new(
                    PrimitiveType::Triangles,
                    ShortIndex::of_index(0),
                    6,
                    3,
                    ShortIndex::none(),
                ),
                Primitive::new(
                    PrimitiveType::Triangles,
                    ShortIndex::of_index(0),
                    12,
                    3,
                    ShortIndex::none(),
                ),
            ],
            matrix_for_primitives: vec![0, 0, 1],
            matrices: vec![identity_mat4(), second],
        },
    };
    let program = gl
        .link_program(
            &linked_with(vec![(String::from("uMeshMatrix"), 4)]),
            &vec![(String::from("aPos"), VertexAttr::Position)],
            &vec![(String::from("uMeshMatrix"), UniformId::MeshMatrix)],
            &vec![],
            &vec![],
        )
        .unwrap();
    let si = ShaderInstantiable::new(&mut gl, program, &instantiable).unwrap();
    gl.take_commands();
    si.gl_draw(
        &mut gl,
        &instantiable,
        &Instance {
            transformation: identity_mat4(),
        },
    );
    // the mesh matrix is set for the first primitive and again only when
    // its index changes: twice in all, not three times
    let mesh_sets: Vec<&GlCommand> = gl
        .commands()
        .iter()
        .filter(|c| matches!(c, GlCommand::SetUniformMat4 { slot: 4, .. }))
        .collect();
    assert_eq!(mesh_sets.len(), 2);
    assert_eq!(
        *mesh_sets[1],
        GlCommand::SetUniformMat4 {
            slot: 4,
            mat: second
        }
    );
}

#[test]
fn vao_binds_program_attributes() {
    let mut gl = Model3DOpenGL::new();
    let data = BufferData::new(72);
    let mut client = GpuBuffer::default();
    let mut position = BufferView::default();
    position
        .init_buffer_view_client(
            &BufferAccessor {
                count: 3,
                ele_type: BufferElementType::Float32,
                byte_offset: 0,
                stride: 24,
                elements_per_data: 18,
            },
            VertexAttr::Position,
            &data,
            &mut client,
            &mut gl,
        )
        .unwrap();
    let mut normal = BufferView::default();
    normal
        .init_buffer_view_client(
            &BufferAccessor {
                count: 3,
                ele_type: BufferElementType::Float32,
                byte_offset: 12,
                stride: 24,
                elements_per_data: 18,
            },
            VertexAttr::Normal,
            &data,
            &mut client,
            &mut gl,
        )
        .unwrap();
    let index_data = BufferData::new(6);
    let mut index_client = GpuBuffer::default();
    let mut indices = BufferView::default();
    indices
        .init_buffer_view_client(
            &BufferAccessor {
                count: 3,
                ele_type: BufferElementType::Int16,
                byte_offset: 0,
                stride: 0,
                elements_per_data: 3,
            },
            VertexAttr::Indices,
            &index_data,
            &mut index_client,
            &mut gl,
        )
        .unwrap();
    let vertices = Vertices::create(&indices, &position, &vec![(VertexAttr::Normal, normal)], &mut gl);
    let shared = vertices.position.gpu_buffer.handle;
    let index_handle = vertices.indices.gpu_buffer.handle;

    let program = gl
        .link_program(
            &LinkedProgram {
                id: 5,
                attributes: vec![
                    (String::from("aPos"), 0),
                    (String::from("aNormal"), 1),
                    (String::from("aColor"), 2),
                ],
                uniforms: vec![],
                uniform_blocks: vec![],
            },
            &vec![
                (String::from("aPos"), VertexAttr::Position),
                (String::from("aNormal"), VertexAttr::Normal),
                (String::from("aColor"), VertexAttr::Color),
            ],
            &vec![],
            &vec![],
            &vec![],
        )
        .unwrap();
    gl.take_commands();
    let instantiable = Instantiable {
        vertices: vec![vertices],
        materials: vec![],
        textures: vec![],
        render_recipe: RenderRecipe {
            primitives: vec![],
            matrix_for_primitives: vec![],
            matrices: vec![],
        },
    };
    let si = ShaderInstantiable::new(&mut gl, program, &instantiable).unwrap();
    let vao = si.vaos[0].handle;
    // the vertex-array object is created around the index buffer, the
    // position and normal streams are bound, the color slot (which the
    // mesh does not supply) is silently left unbound, and the object is
    // unbound afterwards
    assert_eq!(
        gl.commands().as_slice(),
        &[
            GlCommand::CreateVao {
                handle: vao,
                index_buffer: index_handle
            },
            GlCommand::BindAttribute {
                attr: 0,
                buffer: shared,
                count: 3,
                ele_type: BufferElementType::Float32,
                byte_offset: 0,
                stride: 24
            },
            GlCommand::BindAttribute {
                attr: 1,
                buffer: shared,
                count: 3,
                ele_type: BufferElementType::Float32,
                byte_offset: 12,
                stride: 24
            },
            GlCommand::BindVao { vao: 0 },
        ]
    );
}

#[test]
fn material_packs_aspect_textures() {
    let mat = Material::create(
        ShaderMaterialBaseData::of_material([1, 2, 3, 4], 5, 6),
        &vec![
            (MaterialAspect::Color, ShortIndex::of_index(2)),
            (MaterialAspect::Normal, ShortIndex::none()),
            (MaterialAspect::MetallicRoughness, ShortIndex::of_index(0)),
            (MaterialAspect::Occlusion, ShortIndex::none()),
            (MaterialAspect::Emission, ShortIndex::none()),
        ],
    )
    .unwrap();
    let entries = mat.textures();
    assert_eq!(entries.len(), 8);
    assert_eq!(entries[0], (TextureId::BaseColor, ShortIndex::of_index(2)));
    assert_eq!(
        entries[1],
        (TextureId::MetallicRoughness, ShortIndex::of_index(0))
    );
    for entry in entries.iter().skip(2) {
        assert_eq!(*entry, (TextureId::NoTexture, ShortIndex::none()));
    }
}

#[test]
fn material_block_layout() {
    let base = ShaderMaterialBaseData::of_material([10, 20, 30, 40], 50, 60);
    assert_eq!(base.as_slice(), vec![10, 20, 30, 40, 50, 60, 0, 0]);
    let zero = ShaderMaterialBaseData::default();
    assert_eq!(zero.as_slice(), vec![0; 8]);
}

#[test]
fn draw_without_vertex_set_uses_arrays() {
    let mut gl = Model3DOpenGL::new();
    let p = Primitive::new(PrimitiveType::LineStrip, ShortIndex::none(), 5, 10, ShortIndex::none());
    assert_eq!(p.primitive_type(), PrimitiveType::LineStrip);
    assert_eq!(p.index_count(), 10);
    assert_eq!(p.byte_offset(), 5);
    assert!(p.material().is_none());
    assert!(p.vertices_index().is_none());
    gl.draw_primitive(&vec![], &p);
    assert_eq!(
        gl.commands().as_slice(),
        &[GlCommand::DrawArrays {
            mode: PrimitiveType::LineStrip,
            first: 5,
            count: 10
        }]
    );
}
