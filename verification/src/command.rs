//! The driver operations this layer decides on, as data.
//!
//! Every state change and draw that the core would ask of a graphics driver
//! is recorded as one [`GlCommand`] in the order it must be performed. An
//! executor that owns the real driver replays the stream; handles are the
//! small integers the [`crate::Model3DOpenGL`] context allocated, with 0
//! standing for 'none'.

use vstd::prelude::*;

use crate::shader_instantiable::ShaderMaterialBaseData;
use crate::types::{BufferElementType, Mat4, PrimitiveType};

verus! {

/// One operation to perform against the graphics driver.
#[derive(Debug, Clone, PartialEq)]
pub enum GlCommand {
    /// Allocate a vertex-data buffer and fill it with a raw data blob.
    CreateArrayBuffer {
        /// The handle the buffer is known by from now on
        handle: u32,
        /// The length in bytes of the blob to copy in
        byte_length: u32,
    },
    /// Allocate an index buffer and fill it from a slice of a raw data blob.
    CreateIndexBuffer {
        /// The handle the buffer is known by from now on
        handle: u32,
        /// The offset in bytes of the slice within the blob
        byte_offset: u32,
        /// The length in bytes of the slice
        byte_length: u32,
        /// The integer type of each index
        ele_type: BufferElementType,
    },
    /// Allocate a uniform buffer and fill it with a data block.
    CreateUniformBuffer {
        /// The handle the buffer is known by from now on
        handle: u32,
        /// The length in bytes of the block
        byte_length: u32,
        /// Whether the block will be updated after creation
        is_dynamic: bool,
    },
    /// Overwrite part of a uniform buffer.
    UpdateUniformBuffer {
        /// The buffer to update
        handle: u32,
        /// The offset in bytes at which the new data starts
        byte_offset: u32,
        /// The length in bytes of the new data
        byte_length: u32,
    },
    /// Release a buffer; its handle is never used again.
    DeleteBuffer {
        /// The buffer to release
        handle: u32,
    },
    /// Create a vertex-array object with an index buffer attached, leaving
    /// the new object bound.
    CreateVao {
        /// The handle the vertex-array object is known by from now on
        handle: u32,
        /// The index buffer attached to it
        index_buffer: u32,
    },
    /// Bind a vertex-array object, or unbind with 0.
    BindVao {
        /// The object to bind, or 0 for none
        vao: u32,
    },
    /// Attach a vertex attribute stream to the currently bound vertex-array
    /// object.
    BindAttribute {
        /// The program's attribute slot to feed
        attr: u32,
        /// The buffer the stream reads from
        buffer: u32,
        /// Elements per vertex, 1 to 4
        count: u32,
        /// The type of each element
        ele_type: BufferElementType,
        /// The offset in bytes of the first element
        byte_offset: u32,
        /// The stride in bytes between vertices, 0 for tightly packed
        stride: u32,
    },
    /// Make a program current, or make none current with 0.
    UseProgram {
        /// The program to use, or 0 for none
        program: u32,
    },
    /// Write a matrix uniform.
    SetUniformMat4 {
        /// The uniform location to write
        slot: u32,
        /// The matrix entries, as bit patterns
        mat: Mat4,
    },
    /// Write a block of float uniforms, four at a time. The one such block
    /// this layer pushes is the material head; its words, in layout order,
    /// are what `data.spec_words()` lists.
    SetUniformFloats {
        /// The uniform location to write
        slot: u32,
        /// The block to write, as bit patterns
        data: ShaderMaterialBaseData,
    },
    /// Bind a texture to a texture unit and point a sampler uniform at it.
    BindTexture {
        /// The sampler uniform location
        slot: u32,
        /// The texture unit to use
        unit: u32,
        /// The texture to bind
        texture: u32,
    },
    /// Tie a program's uniform block to a binding point.
    UniformBlockBinding {
        /// The program whose block is tied
        program: u32,
        /// The block index within the program
        slot: u32,
        /// The binding point
        binding: u32,
    },
    /// Bind a range of a buffer to a uniform-buffer binding point.
    BindBufferRange {
        /// The binding point
        binding: u32,
        /// The buffer the range is in
        handle: u32,
        /// The offset in bytes of the range
        byte_offset: u32,
        /// The length in bytes of the range
        byte_length: u32,
    },
    /// Draw indexed elements from the currently bound vertex-array object.
    DrawElements {
        /// The topology to draw
        mode: PrimitiveType,
        /// The number of indices to use
        count: u32,
        /// The type of each index
        ele_type: BufferElementType,
        /// The offset in bytes of the first index
        byte_offset: u32,
    },
    /// Draw a run of vertices without an index buffer.
    DrawArrays {
        /// The topology to draw
        mode: PrimitiveType,
        /// The first vertex to use
        first: u32,
        /// The number of vertices to use
        count: u32,
    },
}

} // verus!
