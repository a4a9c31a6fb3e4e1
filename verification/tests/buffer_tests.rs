//! The buffer/view subsystem: idempotent creation, kind immutability,
//! element-type validation, and release on last drop.

use mod3d_gl::{
    BufferAccessor, BufferData, BufferElementType, BufferView, GlCommand, GlError, GpuBuffer,
    Model3DOpenGL, VertexAttr, Vertices,
};

fn vertex_accessor(count: u32, byte_offset: u32) -> BufferAccessor {
    BufferAccessor {
        count,
        ele_type: BufferElementType::Float32,
        byte_offset,
        stride: 0,
        elements_per_data: 9,
    }
}

fn index_accessor(ele_type: BufferElementType) -> BufferAccessor {
    BufferAccessor {
        count: 3,
        ele_type,
        byte_offset: 0,
        stride: 0,
        elements_per_data: 3,
    }
}

fn count_cmds(cmds: &[GlCommand], pred: impl Fn(&GlCommand) -> bool) -> usize {
    cmds.iter().filter(|c| pred(c)).count()
}

#[test]
fn idempotent_buffer_creation() {
    let mut gl = Model3DOpenGL::new();
    let data = BufferData::new(36);
    let mut client = GpuBuffer::default();

    let mut position = BufferView::default();
    let mut normal = BufferView::default();
    position
        .init_buffer_view_client(
            &vertex_accessor(3, 0),
            VertexAttr::Position,
            &data,
            &mut client,
            &mut gl,
        )
        .unwrap();
    normal
        .init_buffer_view_client(
            &vertex_accessor(3, 12),
            VertexAttr::Normal,
            &data,
            &mut client,
            &mut gl,
        )
        .unwrap();

    let p = position.as_vertex_buffer();
    let n = normal.as_vertex_buffer();
    // both views share the one driver buffer
    assert_eq!(p.gl_buffer().gl_buffer(), n.gl_buffer().gl_buffer());
    assert!(p.gl_buffer().gl_buffer() != 0);
    // and the allocation was decided on exactly once
    let creates = count_cmds(gl.commands(), |c| {
        matches!(c, GlCommand::CreateArrayBuffer { .. })
    });
    assert_eq!(creates, 1);
    assert_eq!(
        gl.commands()[0],
        GlCommand::CreateArrayBuffer {
            handle: client.gl_buffer(),
            byte_length: 36
        }
    );
}

#[test]
fn kind_fixed_once_indices() {
    let mut gl = Model3DOpenGL::new();
    let data = BufferData::new(6);
    let mut client = GpuBuffer::default();
    let mut view = BufferView::default();
    view.init_buffer_view_client(
        &index_accessor(BufferElementType::Int16),
        VertexAttr::Indices,
        &data,
        &mut client,
        &mut gl,
    )
    .unwrap();
    let commands_before = gl.commands().clone();
    // realizing the other kind must fail deterministically and change nothing
    let r = view.init_buffer_view_client(
        &vertex_accessor(3, 0),
        VertexAttr::Position,
        &data,
        &mut client,
        &mut gl,
    );
    assert_eq!(r, Err(GlError::ViewKindMismatch));
    assert_eq!(gl.commands(), &commands_before);
    // the view is still an index view
    assert_eq!(view.as_index_buffer().ele_type, BufferElementType::Int16);
}

#[test]
fn kind_fixed_once_vertices() {
    let mut gl = Model3DOpenGL::new();
    let data = BufferData::new(36);
    let mut client = GpuBuffer::default();
    let mut view = BufferView::default();
    view.init_buffer_view_client(
        &vertex_accessor(3, 0),
        VertexAttr::Position,
        &data,
        &mut client,
        &mut gl,
    )
    .unwrap();
    let r = view.init_buffer_view_client(
        &index_accessor(BufferElementType::Int16),
        VertexAttr::Indices,
        &data,
        &mut client,
        &mut gl,
    );
    assert_eq!(r, Err(GlError::ViewKindMismatch));
    assert_eq!(view.as_vertex_buffer().count, 3);
}

#[test]
fn index_element_type_validation() {
    for (ele_type, ok) in [
        (BufferElementType::Int8, true),
        (BufferElementType::Int16, true),
        (BufferElementType::Int32, true),
        (BufferElementType::Float16, false),
        (BufferElementType::Float32, false),
    ] {
        let mut gl = Model3DOpenGL::new();
        let data = BufferData::new(12);
        let mut client = GpuBuffer::default();
        let mut view = BufferView::default();
        let r = view.init_buffer_view_client(
            &index_accessor(ele_type),
            VertexAttr::Indices,
            &data,
            &mut client,
            &mut gl,
        );
        if ok {
            assert_eq!(r, Ok(()));
            assert_eq!(view.as_index_buffer().ele_type, ele_type);
        } else {
            assert_eq!(r, Err(GlError::InvalidElementType));
            assert_eq!(gl.commands().len(), 0);
        }
    }
}

#[test]
fn index_buffer_is_dedicated() {
    // an index view never shares the vertex views' buffer
    let mut gl = Model3DOpenGL::new();
    let data = BufferData::new(36);
    let mut client = GpuBuffer::default();
    let mut position = BufferView::default();
    position
        .init_buffer_view_client(
            &vertex_accessor(3, 0),
            VertexAttr::Position,
            &data,
            &mut client,
            &mut gl,
        )
        .unwrap();
    let mut indices = BufferView::default();
    indices
        .init_buffer_view_client(
            &index_accessor(BufferElementType::Int16),
            VertexAttr::Indices,
            &data,
            &mut client,
            &mut gl,
        )
        .unwrap();
    let ph = position.as_vertex_buffer().gl_buffer().gl_buffer();
    let ih = indices.as_index_buffer().gl_buffer().gl_buffer();
    assert!(ph != ih);
}

#[test]
fn release_on_last_drop() {
    let mut gl = Model3DOpenGL::new();
    let data = BufferData::new(24);
    let mut client = GpuBuffer::default();
    gl.init_buffer_data_client(&mut client, &data);
    // the shared buffer now has one reference (the client's); take three more
    let c1 = gl.buffer_clone(&client);
    let c2 = gl.buffer_clone(&client);
    let c3 = gl.buffer_clone(&client);
    assert!(!gl.buffer_release(c1));
    assert!(!gl.buffer_release(c2));
    assert!(!gl.buffer_release(c3));
    let deletes_before_last = count_cmds(gl.commands(), |c| {
        matches!(c, GlCommand::DeleteBuffer { .. })
    });
    assert_eq!(deletes_before_last, 0);
    // the last reference releases the driver resource, exactly once
    assert!(gl.buffer_release(client));
    let deletes = count_cmds(gl.commands(), |c| {
        matches!(c, GlCommand::DeleteBuffer { .. })
    });
    assert_eq!(deletes, 1);
    assert_eq!(
        gl.commands().last(),
        Some(&GlCommand::DeleteBuffer {
            handle: client.gl_buffer()
        })
    );
    // a further release of the dead handle is a guarded no-op
    assert!(!gl.buffer_release(client));
    let deletes_after = count_cmds(gl.commands(), |c| {
        matches!(c, GlCommand::DeleteBuffer { .. })
    });
    assert_eq!(deletes_after, 1);
}

#[test]
fn vertices_share_and_release() {
    let mut gl = Model3DOpenGL::new();
    let data = BufferData::new(36);
    let mut client = GpuBuffer::default();
    let mut position = BufferView::default();
    position
        .init_buffer_view_client(
            &vertex_accessor(3, 0),
            VertexAttr::Position,
            &data,
            &mut client,
            &mut gl,
        )
        .unwrap();
    let mut normal = BufferView::default();
    normal
        .init_buffer_view_client(
            &vertex_accessor(3, 12),
            VertexAttr::Normal,
            &data,
            &mut client,
            &mut gl,
        )
        .unwrap();
    let index_data = BufferData::new(6);
    let mut index_client = GpuBuffer::default();
    let mut indices = BufferView::default();
    indices
        .init_buffer_view_client(
            &index_accessor(BufferElementType::Int16),
            VertexAttr::Indices,
            &index_data,
            &mut index_client,
            &mut gl,
        )
        .unwrap();

    let attrs = vec![(VertexAttr::Normal, normal)];
    let vertices = Vertices::create(&indices, &position, &attrs, &mut gl);
    let clone = vertices.clone_in(&mut gl);
    // cloning a bundle decides on no driver work at all
    let cmds_after_clone = gl.commands().len();

    // releasing one bundle frees nothing: the other still shares everything
    clone.release(&mut gl);
    let deletes = count_cmds(gl.commands(), |c| {
        matches!(c, GlCommand::DeleteBuffer { .. })
    });
    assert_eq!(deletes, 0);
    assert_eq!(gl.commands().len(), cmds_after_clone);

    // the second bundle's release frees nothing either: the first-made views
    // and the data client still hold references of their own
    vertices.release(&mut gl);
    let deletes = count_cmds(gl.commands(), |c| {
        matches!(c, GlCommand::DeleteBuffer { .. })
    });
    assert_eq!(deletes, 0);

    // giving the index view's own reference back frees the dedicated
    // element buffer - its last reference is gone
    let ib = *indices.as_index_buffer();
    assert!(ib.release(&mut gl));
    // the vertex views' shared buffer goes only when the last of the two
    // views and the data client have all let go
    let pb = *position.as_vertex_buffer();
    let nb = *normal.as_vertex_buffer();
    assert!(!pb.release(&mut gl));
    assert!(!nb.release(&mut gl));
    assert!(gl.buffer_release(client));
    let deletes = count_cmds(gl.commands(), |c| {
        matches!(c, GlCommand::DeleteBuffer { .. })
    });
    assert_eq!(deletes, 2);
}

#[test]
fn uniform_buffer_commands() {
    let mut gl = Model3DOpenGL::new();
    let ub = gl.uniform_buffer_create(64, true).unwrap();
    gl.uniform_buffer_update_data(&ub, 16, 32);
    gl.uniform_index_of_range(&ub, 2, 0, 0);
    let h = ub.gl_buffer().gl_buffer();
    assert_eq!(
        gl.commands().as_slice(),
        &[
            GlCommand::CreateUniformBuffer {
                handle: h,
                byte_length: 64,
                is_dynamic: true
            },
            GlCommand::UpdateUniformBuffer {
                handle: h,
                byte_offset: 16,
                byte_length: 32
            },
            GlCommand::BindBufferRange {
                binding: 2,
                handle: h,
                byte_offset: 0,
                byte_length: 64
            },
        ]
    );
    assert_eq!(ub.offset_and_length(4, 8), (4, 8));
    assert_eq!(ub.offset_and_length(4, 0), (4, 64));
}

#[test]
fn index_re_realization_replaces_buffer() {
    // realizing an index view again (same kind) builds a fresh dedicated
    // buffer and releases the one it held, which had no other reference
    let mut gl = Model3DOpenGL::new();
    let data = BufferData::new(12);
    let mut client = GpuBuffer::default();
    let mut view = BufferView::default();
    view.init_buffer_view_client(
        &index_accessor(BufferElementType::Int16),
        VertexAttr::Indices,
        &data,
        &mut client,
        &mut gl,
    )
    .unwrap();
    let first = view.as_index_buffer().gl_buffer().gl_buffer();
    view.init_buffer_view_client(
        &index_accessor(BufferElementType::Int32),
        VertexAttr::Indices,
        &data,
        &mut client,
        &mut gl,
    )
    .unwrap();
    let second = view.as_index_buffer().gl_buffer().gl_buffer();
    assert!(first != second);
    assert_eq!(view.as_index_buffer().ele_type, BufferElementType::Int32);
    assert_eq!(
        gl.commands().last(),
        Some(&GlCommand::DeleteBuffer { handle: first })
    );
}
