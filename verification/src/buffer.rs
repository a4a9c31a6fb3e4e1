//! Views of GPU-resident data.
//!
//! A raw data buffer ([`BufferData`]) is uploaded to the driver at most
//! once; every vertex view of it shares the one [`GpuBuffer`] handle through
//! the reference counts kept by [`crate::Model3DOpenGL`]. An index view gets
//! a dedicated element buffer of its own. A [`BufferView`] starts out
//! unrealized and is fixed as one of the two kinds the first time it is
//! bound to a role.

use vstd::prelude::*;

use crate::command::GlCommand;
use crate::error::GlError;
use crate::opengl::{BufferRec, Model3DOpenGL};
use crate::types::{BufferElementType, VertexAttr};

verus! {

/// A reference to a driver-side buffer, by the handle the context allocated
/// for it; 0 means no buffer has been created yet.
///
/// Copies of the same handle share the one driver resource; the context
/// counts them so the resource is released exactly once, when the last copy
/// is released.
#[derive(Debug, Clone, Copy, PartialEq, Eq, Structural)]
pub struct GpuBuffer {
    /// The context's handle for the buffer, 0 for none
    pub handle: u32,
}

impl GpuBuffer {
    /// True while no driver buffer has been created for this reference.
    pub open spec fn spec_is_none(self) -> bool {
        self.handle == 0
    }

    /// The handle of the driver buffer.
    pub fn gl_buffer(&self) -> (r: u32)
        ensures
            r == self.handle,
    {
        self.handle
    }

    /// True while no driver buffer has been created for this reference.
    pub fn is_none(&self) -> (r: bool)
        ensures
            r == self.spec_is_none(),
    {
        self.handle == 0
    }
}

impl Default for GpuBuffer {
    /// The default reference names no buffer.
    fn default() -> (r: Self)
        ensures
            r.spec_is_none(),
    {
        Self { handle: 0 }
    }
}

/// One raw data blob owned upstream, as this layer sees it: its length and
/// the driver buffer created for it on first use.
#[derive(Debug, Clone, Copy, PartialEq, Eq, Structural)]
pub struct BufferData {
    /// The length in bytes of the blob
    pub byte_length: u32,
    /// The driver buffer holding the blob, once one exists
    pub client: GpuBuffer,
}

impl BufferData {
    /// Describe a blob of `byte_length` bytes, not yet uploaded.
    pub fn new(byte_length: u32) -> (r: Self)
        ensures
            r.byte_length == byte_length,
            r.client.spec_is_none(),
    {
        Self { byte_length, client: GpuBuffer { handle: 0 } }
    }
}

/// A subset of a raw data buffer holding vertex attribute data.
///
/// A data buffer may hold many channels per vertex (position, normal,
/// color, ...); a `VertexBuffer` picks one of them out. All views of the
/// same blob share one driver buffer, so this is a reference-counted handle
/// plus the layout of the channel.
#[derive(Debug, Clone, Copy, PartialEq, Eq, Structural)]
pub struct VertexBuffer {
    /// The shared driver buffer holding the whole blob
    pub gpu_buffer: GpuBuffer,
    /// Elements per vertex - 1 to 4
    pub count: u32,
    /// The type of each element
    pub ele_type: BufferElementType,
    /// The offset in bytes from the start of the buffer to the first element
    pub byte_offset: u32,
    /// The stride in bytes between vertices - 0 for tightly packed
    pub stride: u32,
}

impl VertexBuffer {
    /// The driver buffer shared by every view of the same blob.
    pub fn gl_buffer(&self) -> (r: &GpuBuffer)
        ensures
            r == &self.gpu_buffer,
    {
        &self.gpu_buffer
    }

    /// Fill this view from an accessor, sharing the blob's driver buffer.
    ///
    /// The blob is uploaded only if no driver buffer exists for it yet; the
    /// view then takes a reference of its own to the shared buffer, giving
    /// up the one it held before, if any.
    fn of_view(
        &mut self,
        view: &BufferAccessor,
        data: &BufferData,
        client: &mut GpuBuffer,
        render_context: &mut Model3DOpenGL,
    )
        requires
            old(render_context).buffers.len() < 0xffff_ffff,
            !old(client).spec_is_none() ==> old(render_context).spec_valid_buffer(
                old(client).handle,
            ) && old(render_context).spec_buffer(old(client).handle).refs < 0xffff_ffff,
            !old(self).gpu_buffer.spec_is_none() ==> old(render_context).spec_valid_buffer(
                old(self).gpu_buffer.handle,
            ),
        ensures
            of_view_post(
                *old(self),
                *final(self),
                *view,
                *data,
                *old(client),
                *final(client),
                *old(render_context),
                *final(render_context),
            ),
    {
        render_context.init_buffer_data_client(client, data);
        let shared = render_context.buffer_clone(client);
        let previous = self.gpu_buffer;
        render_context.buffer_release(previous);
        self.count = view.count;
        self.ele_type = view.ele_type;
        self.byte_offset = view.byte_offset;
        self.stride = view.stride;
        self.gpu_buffer = shared;
    }

    /// Take a further reference to the same driver buffer.
    pub fn clone_in(&self, render_context: &mut Model3DOpenGL) -> (r: Self)
        requires
            !self.gpu_buffer.spec_is_none() ==> old(render_context).spec_valid_buffer(
                self.gpu_buffer.handle,
            ) && old(render_context).spec_buffer(self.gpu_buffer.handle).refs < 0xffff_ffff,
        ensures
            r == *self,
            final(render_context).buffers@ == crate::opengl::spec_clone_buffers(
                old(render_context).buffers@,
                self.gpu_buffer.handle,
            ),
            final(render_context).commands == old(render_context).commands,
            final(render_context).next_vao == old(render_context).next_vao,
    {
        let gpu_buffer = render_context.buffer_clone(&self.gpu_buffer);
        Self {
            gpu_buffer,
            count: self.count,
            ele_type: self.ele_type,
            byte_offset: self.byte_offset,
            stride: self.stride,
        }
    }

    /// Give the view's reference to the shared driver buffer back.
    pub fn release(self, render_context: &mut Model3DOpenGL) -> (released: bool)
        requires
            !self.gpu_buffer.spec_is_none() ==> old(render_context).spec_valid_buffer(
                self.gpu_buffer.handle,
            ),
        ensures
            released == crate::opengl::spec_release_frees(
                old(render_context).buffers@,
                self.gpu_buffer.handle,
            ),
            final(render_context).buffers@ == crate::opengl::spec_release_buffers(
                old(render_context).buffers@,
                self.gpu_buffer.handle,
            ),
            released ==> final(render_context).commands@ == old(render_context).commands@.push(
                GlCommand::DeleteBuffer { handle: self.gpu_buffer.handle },
            ),
            !released ==> final(render_context).commands == old(render_context).commands,
            final(render_context).next_vao == old(render_context).next_vao,
    {
        render_context.buffer_release(self.gpu_buffer)
    }

    /// Bind the view as a vertex attribute stream of the current
    /// vertex-array object.
    pub fn bind_to_vao_attr(&self, context: &mut Model3DOpenGL, attr_id: u32)
        ensures
            final(context).commands@ == old(context).commands@.push(
                GlCommand::BindAttribute {
                    attr: attr_id,
                    buffer: self.gpu_buffer.handle,
                    count: self.count,
                    ele_type: self.ele_type,
                    byte_offset: self.byte_offset,
                    stride: self.stride,
                },
            ),
            final(context).buffers == old(context).buffers,
            final(context).next_vao == old(context).next_vao,
    {
        context.buffer_bind_to_vao_attr(
            &self.gpu_buffer,
            attr_id,
            self.count,
            self.ele_type,
            self.byte_offset,
            self.stride,
        );
    }
}

impl Default for VertexBuffer {
    /// An unrealized view: no driver buffer, no layout.
    fn default() -> (r: Self)
        ensures
            r.gpu_buffer.spec_is_none(),
            r.count == 0,
            r.ele_type == BufferElementType::Float32,
            r.byte_offset == 0,
            r.stride == 0,
    {
        Self {
            gpu_buffer: GpuBuffer { handle: 0 },
            count: 0,
            ele_type: BufferElementType::Float32,
            byte_offset: 0,
            stride: 0,
        }
    }
}

/// What `VertexBuffer::of_view` does: the blob is uploaded if it had no
/// driver buffer yet, the view takes one reference to the shared buffer and
/// gives up the reference it held before, and the layout fields are copied
/// from the accessor.
pub open spec fn of_view_post(
    pre: VertexBuffer,
    post: VertexBuffer,
    view: BufferAccessor,
    data: BufferData,
    client_pre: GpuBuffer,
    client_post: GpuBuffer,
    rc_pre: Model3DOpenGL,
    rc_post: Model3DOpenGL,
) -> bool {
    let created = client_pre.spec_is_none();
    let h = if created {
        (rc_pre.buffers.len() + 1) as u32
    } else {
        client_pre.handle
    };
    let store1 = if created {
        rc_pre.buffers@.push(BufferRec { refs: 1, live: true })
    } else {
        rc_pre.buffers@
    };
    let store2 = crate::opengl::spec_clone_buffers(store1, h);
    let freed = crate::opengl::spec_release_frees(store2, pre.gpu_buffer.handle);
    let after_create: Seq<GlCommand> = if created {
        rc_pre.commands@.push(
            GlCommand::CreateArrayBuffer { handle: h, byte_length: data.byte_length },
        )
    } else {
        rc_pre.commands@
    };
    &&& client_post.handle == h
    &&& post.gpu_buffer.handle == h
    &&& post.count == view.count
    &&& post.ele_type == view.ele_type
    &&& post.byte_offset == view.byte_offset
    &&& post.stride == view.stride
    &&& rc_post.buffers@ == crate::opengl::spec_release_buffers(store2, pre.gpu_buffer.handle)
    &&& rc_post.next_vao == rc_pre.next_vao
    &&& if freed {
        rc_post.commands@ == after_create.push(
            GlCommand::DeleteBuffer { handle: pre.gpu_buffer.handle },
        )
    } else {
        rc_post.commands@ == after_create
    }
}

/// A typed slice of a raw data blob: which bytes hold which elements.
#[derive(Debug, Clone, Copy, PartialEq, Eq, Structural)]
pub struct BufferAccessor {
    /// Elements per vertex (1 to 4) for attribute data, or elements in all
    /// for index data
    pub count: u32,
    /// The type of each element
    pub ele_type: BufferElementType,
    /// The offset in bytes from the start of the blob to the first element
    pub byte_offset: u32,
    /// The stride in bytes between vertices, 0 for tightly packed
    pub stride: u32,
    /// The number of elements the slice holds in all
    pub elements_per_data: u32,
}


/// A subset of a raw data buffer holding index data.
///
/// An index view directly owns its driver buffer, a dedicated element
/// array never shared with vertex views.
#[derive(Debug, Clone, Copy, PartialEq, Eq, Structural)]
pub struct IndexBuffer {
    /// The dedicated driver buffer holding the indices
    pub gpu_buffer: GpuBuffer,
    /// The number of indices
    pub count: u32,
    /// The type of each index
    pub ele_type: BufferElementType,
}

impl IndexBuffer {
    /// The driver buffer holding the indices.
    pub fn gl_buffer(&self) -> (r: &GpuBuffer)
        ensures
            r == &self.gpu_buffer,
    {
        &self.gpu_buffer
    }

    /// Create an index view from an accessor, uploading the index slice to
    /// a dedicated element buffer.
    ///
    /// Indices must have an integer element type: a floating-point accessor
    /// is rejected with [`GlError::InvalidElementType`] and nothing is
    /// created.
    fn of_view(view: &BufferAccessor, render_context: &mut Model3DOpenGL) -> (r: Result<
        Self,
        GlError,
    >)
        requires
            old(render_context).buffers.len() < 0xffff_ffff,
            view.ele_type.spec_byte_length() * view.elements_per_data <= 0xffff_ffff,
        ensures
            r is Ok <==> view.ele_type.is_int(),
            r matches Ok(ib) ==> ({
                &&& ib.gpu_buffer.handle == old(render_context).buffers.len() + 1
                &&& ib.count == view.count
                &&& ib.ele_type == view.ele_type
                &&& final(render_context).buffers@ == old(render_context).buffers@.push(
                    BufferRec { refs: 1, live: true },
                )
                &&& final(render_context).commands@ == old(render_context).commands@.push(
                    GlCommand::CreateIndexBuffer {
                        handle: (old(render_context).buffers.len() + 1) as u32,
                        byte_offset: view.byte_offset,
                        byte_length: (view.ele_type.spec_byte_length()
                            * view.elements_per_data) as u32,
                        ele_type: view.ele_type,
                    },
                )
                &&& final(render_context).next_vao == old(render_context).next_vao
            }),
            r is Err ==> r == Result::<Self, GlError>::Err(GlError::InvalidElementType)
                && *final(render_context) == *old(render_context),
    {
        match view.ele_type {
            BufferElementType::Float16 => {
                return Err(GlError::InvalidElementType);
            },
            BufferElementType::Float32 => {
                return Err(GlError::InvalidElementType);
            },
            _ => {},
        }
        let mut gpu_buffer = GpuBuffer { handle: 0 };
        render_context.init_buffer_of_indices(&mut gpu_buffer, view);
        Ok(Self { gpu_buffer, count: view.count, ele_type: view.ele_type })
    }

    /// Take a further reference to the same driver buffer.
    pub fn clone_in(&self, render_context: &mut Model3DOpenGL) -> (r: Self)
        requires
            !self.gpu_buffer.spec_is_none() ==> old(render_context).spec_valid_buffer(
                self.gpu_buffer.handle,
            ) && old(render_context).spec_buffer(self.gpu_buffer.handle).refs < 0xffff_ffff,
        ensures
            r == *self,
            final(render_context).buffers@ == crate::opengl::spec_clone_buffers(
                old(render_context).buffers@,
                self.gpu_buffer.handle,
            ),
            final(render_context).commands == old(render_context).commands,
            final(render_context).next_vao == old(render_context).next_vao,
    {
        let gpu_buffer = render_context.buffer_clone(&self.gpu_buffer);
        Self { gpu_buffer, count: self.count, ele_type: self.ele_type }
    }

    /// Give the view's reference to its driver buffer back.
    pub fn release(self, render_context: &mut Model3DOpenGL) -> (released: bool)
        requires
            !self.gpu_buffer.spec_is_none() ==> old(render_context).spec_valid_buffer(
                self.gpu_buffer.handle,
            ),
        ensures
            released == crate::opengl::spec_release_frees(
                old(render_context).buffers@,
                self.gpu_buffer.handle,
            ),
            final(render_context).buffers@ == crate::opengl::spec_release_buffers(
                old(render_context).buffers@,
                self.gpu_buffer.handle,
            ),
            released ==> final(render_context).commands@ == old(render_context).commands@.push(
                GlCommand::DeleteBuffer { handle: self.gpu_buffer.handle },
            ),
            !released ==> final(render_context).commands == old(render_context).commands,
            final(render_context).next_vao == old(render_context).next_vao,
    {
        render_context.buffer_release(self.gpu_buffer)
    }
}

impl Default for IndexBuffer {
    /// An unrealized view: no driver buffer, no indices.
    fn default() -> (r: Self)
        ensures
            r.gpu_buffer.spec_is_none(),
            r.count == 0,
            r.ele_type == BufferElementType::Int8,
    {
        Self { gpu_buffer: GpuBuffer { handle: 0 }, count: 0, ele_type: BufferElementType::Int8 }
    }
}

/// A view of a slice of a raw data buffer, holding either vertex data or
/// index data.
///
/// A view starts out as an unrealized vertex view (no driver buffer); the
/// first time it is bound to a role it is realized as the kind that role
/// demands, and its kind is fixed from then on.
#[derive(Debug, Clone, Copy, PartialEq, Eq, Structural)]
pub enum BufferView {
    /// A view of vertex attribute data
    VertexBuffer(VertexBuffer),
    /// A view of index data
    IndexBuffer(IndexBuffer),
}

impl BufferView {
    /// True once the view has been realized as one of the two kinds.
    pub open spec fn spec_is_realized(self) -> bool {
        match self {
            BufferView::VertexBuffer(vb) => !vb.gpu_buffer.spec_is_none(),
            BufferView::IndexBuffer(_) => true,
        }
    }

    /// The handle of the driver buffer the view holds, 0 for none.
    pub open spec fn spec_handle(self) -> u32 {
        match self {
            BufferView::VertexBuffer(vb) => vb.gpu_buffer.handle,
            BufferView::IndexBuffer(ib) => ib.gpu_buffer.handle,
        }
    }

    /// The index view this is.
    ///
    /// Reading a vertex view as indices is a caller defect, ruled out
    /// rather than handled.
    pub fn as_index_buffer(&self) -> (r: &IndexBuffer)
        requires
            self is IndexBuffer,
        ensures
            *self == BufferView::IndexBuffer(*r),
    {
        match self {
            BufferView::IndexBuffer(index_buffer) => index_buffer,
            BufferView::VertexBuffer(_) => unreached(),
        }
    }

    /// The vertex view this is.
    ///
    /// Reading an index view as vertex data is a caller defect, ruled out
    /// rather than handled.
    pub fn as_vertex_buffer(&self) -> (r: &VertexBuffer)
        requires
            self is VertexBuffer,
        ensures
            *self == BufferView::VertexBuffer(*r),
    {
        match self {
            BufferView::VertexBuffer(vertex_buffer) => vertex_buffer,
            BufferView::IndexBuffer(_) => unreached(),
        }
    }

    /// Realize the view for a role, creating the driver-side data it needs.
    ///
    /// `data` describes the raw blob the accessor reads and `client` is
    /// the blob's create-on-first-use driver buffer, which the blob's
    /// owner keeps alongside it. The `Indices` role realizes the view as
    /// an index view with a dedicated element buffer; any other role
    /// realizes it as a vertex view sharing the blob's driver buffer. A
    /// view already realized as the other kind is left unchanged and the
    /// call fails with [`GlError::ViewKindMismatch`]; an index role with a
    /// floating-point element type fails with
    /// [`GlError::InvalidElementType`].
    pub fn init_buffer_view_client(
        &mut self,
        view: &BufferAccessor,
        attr: VertexAttr,
        data: &BufferData,
        client: &mut GpuBuffer,
        render_context: &mut Model3DOpenGL,
    ) -> (r: Result<(), GlError>)
        requires
            old(render_context).buffers.len() < 0xffff_ffff,
            view.ele_type.spec_byte_length() * view.elements_per_data <= 0xffff_ffff,
            !old(client).spec_is_none() ==> old(render_context).spec_valid_buffer(
                old(client).handle,
            ) && old(render_context).spec_buffer(old(client).handle).refs < 0xffff_ffff,
            old(self).spec_handle() != 0 ==> old(render_context).spec_valid_buffer(
                old(self).spec_handle(),
            ),
        ensures
            init_view_post(
                *old(self),
                *final(self),
                *view,
                attr,
                *data,
                *old(client),
                *final(client),
                *old(render_context),
                *final(render_context),
                r,
            ),
    {
        if attr == VertexAttr::Indices {
            let realized_vertex = match self {
                BufferView::VertexBuffer(vb) => vb.gpu_buffer.handle != 0,
                BufferView::IndexBuffer(_) => false,
            };
            if realized_vertex {
                return Err(GlError::ViewKindMismatch);
            }
            let previous: GpuBuffer = match self {
                BufferView::IndexBuffer(old_ib) => old_ib.gpu_buffer,
                BufferView::VertexBuffer(_) => GpuBuffer { handle: 0 },
            };
            match IndexBuffer::of_view(view, render_context) {
                Err(e) => Err(e),
                Ok(index_buffer) => {
                    render_context.buffer_release(previous);
                    *self = BufferView::IndexBuffer(index_buffer);
                    Ok(())
                },
            }
        } else {
            match self {
                BufferView::IndexBuffer(_) => Err(GlError::ViewKindMismatch),
                BufferView::VertexBuffer(vb) => {
                    vb.of_view(view, data, client, render_context);
                    Ok(())
                },
            }
        }
    }
}

/// What realizing a view for a role does.
///
/// A view already realized as the other kind is refused with
/// `ViewKindMismatch` and nothing changes; an index role with a
/// floating-point element type is refused with `InvalidElementType` and
/// nothing changes. Otherwise an index role builds a fresh dedicated
/// element buffer (releasing the one an index view held before), and any
/// other role fills the vertex view from the accessor, sharing the blob's
/// driver buffer.
pub open spec fn init_view_post(
    view_pre: BufferView,
    view_post: BufferView,
    acc: BufferAccessor,
    attr: VertexAttr,
    data: BufferData,
    client_pre: GpuBuffer,
    client_post: GpuBuffer,
    rc_pre: Model3DOpenGL,
    rc_post: Model3DOpenGL,
    r: Result<(), GlError>,
) -> bool {
    &&& (r is Err ==> view_post == view_pre && client_post == client_pre && rc_post == rc_pre)
    &&& (r is Err ==> (r == Result::<(), GlError>::Err(GlError::ViewKindMismatch) || r
        == Result::<(), GlError>::Err(GlError::InvalidElementType)))
    &&& ((r == Result::<(), GlError>::Err(GlError::ViewKindMismatch)) <==> ((attr
        == VertexAttr::Indices && view_pre is VertexBuffer && view_pre.spec_is_realized()) || (attr
        != VertexAttr::Indices && view_pre is IndexBuffer)))
    &&& ((r == Result::<(), GlError>::Err(GlError::InvalidElementType)) <==> (attr
        == VertexAttr::Indices && !(view_pre is VertexBuffer && view_pre.spec_is_realized())
        && !acc.ele_type.is_int()))
    &&& (r is Ok && attr == VertexAttr::Indices ==> ({
        let newh = (rc_pre.buffers.len() + 1) as u32;
        let store1 = rc_pre.buffers@.push(BufferRec { refs: 1, live: true });
        let oldh = view_pre.spec_handle();
        let freed = crate::opengl::spec_release_frees(store1, oldh);
        &&& view_post == BufferView::IndexBuffer(
            IndexBuffer {
                gpu_buffer: GpuBuffer { handle: newh },
                count: acc.count,
                ele_type: acc.ele_type,
            },
        )
        &&& client_post == client_pre
        &&& rc_post.buffers@ == crate::opengl::spec_release_buffers(store1, oldh)
        &&& rc_post.next_vao == rc_pre.next_vao
        &&& ({
            let after_create = rc_pre.commands@.push(
                GlCommand::CreateIndexBuffer {
                    handle: newh,
                    byte_offset: acc.byte_offset,
                    byte_length: (acc.ele_type.spec_byte_length() * acc.elements_per_data) as u32,
                    ele_type: acc.ele_type,
                },
            );
            if freed {
                rc_post.commands@ == after_create.push(GlCommand::DeleteBuffer { handle: oldh })
            } else {
                rc_post.commands@ == after_create
            }
        })
    }))
    &&& (r is Ok && attr != VertexAttr::Indices ==> (view_pre is VertexBuffer
        && view_post is VertexBuffer && of_view_post(
        view_pre->VertexBuffer_0,
        view_post->VertexBuffer_0,
        acc,
        data,
        client_pre,
        client_post,
        rc_pre,
        rc_post,
    )))
}

impl Default for BufferView {
    /// A view starts out as an unrealized vertex view.
    fn default() -> (r: Self)
        ensures
            r is VertexBuffer,
            !r.spec_is_realized(),
    {
        Self::VertexBuffer(VertexBuffer::default())
    }
}


/// A buffer-backed block of uniforms, bound to binding points range by
/// range.
#[derive(Debug, Clone, Copy, PartialEq, Eq, Structural)]
pub struct UniformBuffer {
    /// The driver buffer holding the block
    pub gl_buffer: GpuBuffer,
    /// The length in bytes of the block
    pub byte_length: u32,
}

impl UniformBuffer {
    /// Describe a uniform buffer of `byte_length` bytes held by
    /// `gl_buffer`.
    pub fn new(gl_buffer: GpuBuffer, byte_length: u32) -> (r: Self)
        ensures
            r.gl_buffer == gl_buffer,
            r.byte_length == byte_length,
    {
        Self { gl_buffer, byte_length }
    }

    /// The driver buffer holding the block.
    pub fn gl_buffer(&self) -> (r: &GpuBuffer)
        ensures
            r == &self.gl_buffer,
    {
        &self.gl_buffer
    }

    /// Resolve a requested range: a zero length selects the whole buffer.
    pub fn offset_and_length(&self, byte_offset: u32, byte_length: u32) -> (r: (u32, u32))
        ensures
            r.0 == byte_offset,
            r.1 == if byte_length == 0 {
                self.byte_length
            } else {
                byte_length
            },
    {
        if byte_length == 0 {
            (byte_offset, self.byte_length)
        } else {
            (byte_offset, byte_length)
        }
    }
}

} // verus!
