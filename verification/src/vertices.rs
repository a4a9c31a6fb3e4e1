//! The immutable per-mesh bundle of typed buffer views.
//!
//! A [`Vertices`] holds one index view, the required position view, and any
//! further named attribute views. Every view it holds is a
//! reference-counted share of a driver buffer, so cloning a `Vertices`
//! costs one reference per view and no driver work at all.

use vstd::prelude::*;

use crate::buffer::{BufferView, IndexBuffer, VertexBuffer};
use crate::opengl::{
    spec_release_all_buffers, spec_release_all_cmds, spec_release_buffers, spec_release_frees,
    BufferRec, Model3DOpenGL,
};
use crate::command::GlCommand;
use crate::types::VertexAttr;

verus! {

/// How many of the first `i` attribute views hold buffer handle `h`.
pub open spec fn spec_attr_refs(attrs: Seq<(VertexAttr, VertexBuffer)>, h: u32, i: int) -> nat
    decreases i,
{
    if i <= 0 {
        0
    } else {
        spec_attr_refs(attrs, h, i - 1) + (if attrs[i - 1].1.gpu_buffer.handle == h {
            1nat
        } else {
            0nat
        })
    }
}

/// A set of vertices with typed views for all of its contents.
#[derive(Debug, Clone, PartialEq)]
pub struct Vertices {
    /// The index view
    pub indices: IndexBuffer,
    /// The position view
    pub position: VertexBuffer,
    /// The further attribute views, by role
    pub attrs: Vec<(VertexAttr, VertexBuffer)>,
}

impl Vertices {
    /// How many references to buffer handle `h` this bundle holds.
    pub open spec fn spec_ref_count(self, h: u32) -> nat {
        (if self.indices.gpu_buffer.handle == h {
            1nat
        } else {
            0nat
        }) + (if self.position.gpu_buffer.handle == h {
            1nat
        } else {
            0nat
        }) + spec_attr_refs(self.attrs@, h, self.attrs@.len() as int)
    }

    /// The handles this bundle holds references to, in release order.
    pub open spec fn spec_handles(self) -> Seq<u32> {
        seq![self.indices.gpu_buffer.handle, self.position.gpu_buffer.handle]
            + self.attrs@.map_values(|p: (VertexAttr, VertexBuffer)| p.1.gpu_buffer.handle)
    }

    /// Bundle realized views into a `Vertices`, taking one reference per
    /// view.
    ///
    /// The index view must have been realized as indices and every other
    /// view as vertex data; handing a view of the wrong kind over is a
    /// caller defect, ruled out rather than handled.
    pub fn create(
        indices_view: &BufferView,
        position_view: &BufferView,
        attr_views: &Vec<(VertexAttr, BufferView)>,
        render_context: &mut Model3DOpenGL,
    ) -> (r: Self)
        requires
            indices_view is IndexBuffer,
            position_view is VertexBuffer,
            forall|j: int| 0 <= j < attr_views@.len() ==> attr_views@[j].1 is VertexBuffer,
            attr_views@.len() <= 1000,
            old(render_context).spec_clonable(indices_view.spec_handle()),
            old(render_context).spec_clonable(position_view.spec_handle()),
            forall|j: int|
                0 <= j < attr_views@.len() ==> old(render_context).spec_clonable(
                    #[trigger] attr_views@[j].1.spec_handle(),
                ),
        ensures
            r.indices == indices_view->IndexBuffer_0,
            r.position == position_view->VertexBuffer_0,
            r.attrs@.len() == attr_views@.len(),
            forall|j: int|
                0 <= j < attr_views@.len() ==> r.attrs@[j] == (
                    attr_views@[j].0,
                    attr_views@[j].1->VertexBuffer_0,
                ),
            final(render_context).commands == old(render_context).commands,
            final(render_context).next_vao == old(render_context).next_vao,
            final(render_context).buffers@.len() == old(render_context).buffers@.len(),
            forall|h: u32|
                1 <= h <= old(render_context).buffers@.len() ==> final(render_context).buffers@[h - 1] == (BufferRec {
                    refs: (old(render_context).buffers@[h - 1].refs + r.spec_ref_count(h)) as u32,
                    live: old(render_context).buffers@[h - 1].live,
                }),
    {
        let indices = indices_view.as_index_buffer().clone_in(render_context);
        let position = position_view.as_vertex_buffer().clone_in(render_context);
        let mut attrs: Vec<(VertexAttr, VertexBuffer)> = Vec::new();
        let n = attr_views.len();
        let mut i: usize = 0;
        while i < n
            invariant
                i <= n,
                n == attr_views@.len() <= 1000,
                indices == indices_view->IndexBuffer_0,
                position == position_view->VertexBuffer_0,
                forall|j: int| 0 <= j < n ==> attr_views@[j].1 is VertexBuffer,
                forall|j: int|
                    0 <= j < n ==> old(render_context).spec_clonable(
                        #[trigger] attr_views@[j].1.spec_handle(),
                    ),
                attrs@.len() == i,
                forall|j: int|
                    0 <= j < i ==> attrs@[j] == (
                        attr_views@[j].0,
                        attr_views@[j].1->VertexBuffer_0,
                    ),
                render_context.commands == old(render_context).commands,
                render_context.next_vao == old(render_context).next_vao,
                render_context.buffers@.len() == old(render_context).buffers@.len(),
                forall|h: u32|
                    1 <= h <= old(render_context).buffers@.len() ==> render_context.buffers@[h - 1]
                        == (BufferRec {
                        refs: (old(render_context).buffers@[h - 1].refs + (
                        if indices.gpu_buffer.handle == h {
                            1nat
                        } else {
                            0nat
                        }) + (if position.gpu_buffer.handle == h {
                            1nat
                        } else {
                            0nat
                        }) + spec_attr_refs(attrs@, h, i as int)) as u32,
                        live: old(render_context).buffers@[h - 1].live,
                    }),
            decreases n - i,
        {
            proof {
                let h = attr_views@[i as int].1.spec_handle();
                if h != 0 {
                    assert(spec_attr_refs(attrs@, h, i as int) <= i as nat) by {
                        lemma_attr_refs_bound(attrs@, h, i as int);
                    }
                }
            }
            let ghost attrs_pre = attrs@;
            let ghost bufs_pre = render_context.buffers@;
            let vb = attr_views[i].1.as_vertex_buffer().clone_in(render_context);
            attrs.push((attr_views[i].0, vb));
            proof {
                let bufs0 = old(render_context).buffers@;
                let hv = vb.gpu_buffer.handle;
                assert(old(render_context).spec_clonable(attr_views@[i as int].1.spec_handle()));
                assert forall|h: u32| 1 <= h <= bufs0.len() implies #[trigger] render_context.buffers@[h - 1]
                    == (BufferRec {
                    refs: (bufs0[h - 1].refs + (if indices.gpu_buffer.handle == h {
                        1nat
                    } else {
                        0nat
                    }) + (if position.gpu_buffer.handle == h {
                        1nat
                    } else {
                        0nat
                    }) + spec_attr_refs(attrs@, h, i + 1)) as u32,
                    live: bufs0[h - 1].live,
                }) by {
                    lemma_attr_refs_prefix(attrs@, attrs_pre, h, i as int);
                    lemma_attr_refs_bound(attrs_pre, h, i as int);
                    if hv != 0 && h == hv {
                        assert(render_context.buffers@[h - 1].refs == bufs_pre[h - 1].refs + 1);
                    } else {
                        assert(render_context.buffers@[h - 1] == bufs_pre[h - 1]);
                    }
                }
            }
            i = i + 1;
        }
        Self { indices, position, attrs }
    }

    /// Borrow the indices, the positions, and the other attributes.
    pub fn borrow(&self) -> (r: (&IndexBuffer, &VertexBuffer, &Vec<(VertexAttr, VertexBuffer)>))
        ensures
            r.0 == &self.indices,
            r.1 == &self.position,
            r.2 == &self.attrs,
    {
        (&self.indices, &self.position, &self.attrs)
    }

    /// Clone the bundle, taking one further reference per view; no driver
    /// work happens.
    pub fn clone_in(&self, render_context: &mut Model3DOpenGL) -> (r: Self)
        requires
            self.attrs@.len() <= 1000,
            old(render_context).spec_clonable(self.indices.gpu_buffer.handle),
            old(render_context).spec_clonable(self.position.gpu_buffer.handle),
            forall|j: int|
                0 <= j < self.attrs@.len() ==> old(render_context).spec_clonable(
                    #[trigger] self.attrs@[j].1.gpu_buffer.handle,
                ),
        ensures
            r.indices == self.indices,
            r.position == self.position,
            r.attrs@ == self.attrs@,
            final(render_context).commands == old(render_context).commands,
            final(render_context).next_vao == old(render_context).next_vao,
            final(render_context).buffers@.len() == old(render_context).buffers@.len(),
            forall|h: u32|
                1 <= h <= old(render_context).buffers@.len() ==> final(render_context).buffers@[h - 1] == (BufferRec {
                    refs: (old(render_context).buffers@[h - 1].refs + self.spec_ref_count(
                        h,
                    )) as u32,
                    live: old(render_context).buffers@[h - 1].live,
                }),
    {
        let indices = self.indices.clone_in(render_context);
        let position = self.position.clone_in(render_context);
        let mut attrs: Vec<(VertexAttr, VertexBuffer)> = Vec::new();
        let n = self.attrs.len();
        let mut i: usize = 0;
        while i < n
            invariant
                i <= n,
                n == self.attrs@.len() <= 1000,
                indices == self.indices,
                position == self.position,
                forall|j: int|
                    0 <= j < n ==> old(render_context).spec_clonable(
                        #[trigger] self.attrs@[j].1.gpu_buffer.handle,
                    ),
                attrs@.len() == i,
                forall|j: int| 0 <= j < i ==> attrs@[j] == self.attrs@[j],
                render_context.commands == old(render_context).commands,
                render_context.next_vao == old(render_context).next_vao,
                render_context.buffers@.len() == old(render_context).buffers@.len(),
                forall|h: u32|
                    1 <= h <= old(render_context).buffers@.len() ==> render_context.buffers@[h - 1]
                        == (BufferRec {
                        refs: (old(render_context).buffers@[h - 1].refs + (
                        if indices.gpu_buffer.handle == h {
                            1nat
                        } else {
                            0nat
                        }) + (if position.gpu_buffer.handle == h {
                            1nat
                        } else {
                            0nat
                        }) + spec_attr_refs(attrs@, h, i as int)) as u32,
                        live: old(render_context).buffers@[h - 1].live,
                    }),
            decreases n - i,
        {
            proof {
                let h = self.attrs@[i as int].1.gpu_buffer.handle;
                if h != 0 {
                    assert(spec_attr_refs(attrs@, h, i as int) <= i as nat) by {
                        lemma_attr_refs_bound(attrs@, h, i as int);
                    }
                }
            }
            let ghost attrs_pre = attrs@;
            let ghost bufs_pre = render_context.buffers@;
            let vb = self.attrs[i].1.clone_in(render_context);
            attrs.push((self.attrs[i].0, vb));
            proof {
                let bufs0 = old(render_context).buffers@;
                let hv = vb.gpu_buffer.handle;
                assert(old(render_context).spec_clonable(self.attrs@[i as int].1.gpu_buffer.handle));
                assert forall|h: u32| 1 <= h <= bufs0.len() implies #[trigger] render_context.buffers@[h - 1]
                    == (BufferRec {
                    refs: (bufs0[h - 1].refs + (if indices.gpu_buffer.handle == h {
                        1nat
                    } else {
                        0nat
                    }) + (if position.gpu_buffer.handle == h {
                        1nat
                    } else {
                        0nat
                    }) + spec_attr_refs(attrs@, h, i + 1)) as u32,
                    live: bufs0[h - 1].live,
                }) by {
                    lemma_attr_refs_prefix(attrs@, attrs_pre, h, i as int);
                    lemma_attr_refs_bound(attrs_pre, h, i as int);
                    if hv != 0 && h == hv {
                        assert(render_context.buffers@[h - 1].refs == bufs_pre[h - 1].refs + 1);
                    } else {
                        assert(render_context.buffers@[h - 1] == bufs_pre[h - 1]);
                    }
                }
            }
            i = i + 1;
        }
        proof {
            assert(attrs@ =~= self.attrs@);
        }
        Self { indices, position, attrs }
    }

    /// Give every reference this bundle holds back; each driver buffer
    /// whose last reference goes is released, exactly once, in view order.
    pub fn release(self, render_context: &mut Model3DOpenGL)
        requires
            self.indices.gpu_buffer.handle != 0 ==> old(render_context).spec_valid_buffer(
                self.indices.gpu_buffer.handle,
            ),
            self.position.gpu_buffer.handle != 0 ==> old(render_context).spec_valid_buffer(
                self.position.gpu_buffer.handle,
            ),
            forall|j: int|
                0 <= j < self.attrs@.len() ==> (#[trigger] self.attrs@[j].1.gpu_buffer.handle != 0
                    ==> old(render_context).spec_valid_buffer(self.attrs@[j].1.gpu_buffer.handle)),
        ensures
            final(render_context).buffers@ == spec_release_all_buffers(
                old(render_context).buffers@,
                self.spec_handles(),
                0,
            ),
            final(render_context).commands@ == old(render_context).commands@
                + spec_release_all_cmds(old(render_context).buffers@, self.spec_handles(), 0),
            final(render_context).next_vao == old(render_context).next_vao,
    {
        let ghost hs = self.spec_handles();
        let mut handle_vec: Vec<u32> = Vec::new();
        handle_vec.push(self.indices.gpu_buffer.handle);
        handle_vec.push(self.position.gpu_buffer.handle);
        let na = self.attrs.len();
        let mut j: usize = 0;
        while j < na
            invariant
                j <= na,
                na == self.attrs@.len(),
                handle_vec@.len() == 2 + j,
                handle_vec@[0] == self.indices.gpu_buffer.handle,
                handle_vec@[1] == self.position.gpu_buffer.handle,
                forall|t: int|
                    0 <= t < j ==> handle_vec@[2 + t] == self.attrs@[t].1.gpu_buffer.handle,
            decreases na - j,
        {
            handle_vec.push(self.attrs[j].1.gpu_buffer.handle);
            j = j + 1;
        }
        proof {
            assert(handle_vec@ =~= hs);
        }
        let n = handle_vec.len();
        let mut i: usize = 0;
        while i < n
            invariant
                i <= n,
                n == handle_vec@.len(),
                handle_vec@ == hs,
                forall|t: int|
                    0 <= t < n ==> (#[trigger] hs[t] != 0 ==> 1 <= hs[t] <= old(render_context).buffers@.len()),
                render_context.buffers@.len() == old(render_context).buffers@.len(),
                render_context.next_vao == old(render_context).next_vao,
                spec_release_all_buffers(old(render_context).buffers@, hs, 0)
                    == spec_release_all_buffers(render_context.buffers@, hs, i as int),
                old(render_context).commands@ + spec_release_all_cmds(
                    old(render_context).buffers@,
                    hs,
                    0,
                ) =~= render_context.commands@ + spec_release_all_cmds(
                    render_context.buffers@,
                    hs,
                    i as int,
                ),
            decreases n - i,
        {
            let ghost bufs_pre = render_context.buffers@;
            let ghost cmds_pre = render_context.commands@;
            render_context.buffer_release(crate::buffer::GpuBuffer { handle: handle_vec[i] });
            proof {
                lemma_release_step(bufs_pre, hs, i as int, cmds_pre, render_context.commands@);
                assert(old(render_context).commands@ + spec_release_all_cmds(
                    old(render_context).buffers@,
                    hs,
                    0,
                ) =~= render_context.commands@ + spec_release_all_cmds(
                    render_context.buffers@,
                    hs,
                    i + 1,
                ));
            }
            i = i + 1;
        }
        proof {
            assert(spec_release_all_cmds(render_context.buffers@, hs, n as int) =~= Seq::empty());
            assert(render_context.commands@ =~= old(render_context).commands@
                + spec_release_all_cmds(old(render_context).buffers@, hs, 0));
        }
    }
}

impl Default for Vertices {
    /// An empty bundle: unrealized index and position views, no further
    /// attributes.
    fn default() -> (r: Self)
        ensures
            r.indices.gpu_buffer.spec_is_none(),
            r.position.gpu_buffer.spec_is_none(),
            r.attrs@ == Seq::<(VertexAttr, VertexBuffer)>::empty(),
    {
        Self {
            indices: IndexBuffer::default(),
            position: VertexBuffer::default(),
            attrs: Vec::new(),
        }
    }
}

/// The count over the first `i` entries reads only those entries.
proof fn lemma_attr_refs_prefix(
    a: Seq<(VertexAttr, VertexBuffer)>,
    b: Seq<(VertexAttr, VertexBuffer)>,
    h: u32,
    i: int,
)
    requires
        forall|j: int| 0 <= j < i ==> a[j] == b[j],
    ensures
        spec_attr_refs(a, h, i) == spec_attr_refs(b, h, i),
    decreases i,
{
    if i > 0 {
        lemma_attr_refs_prefix(a, b, h, i - 1);
    }
}

/// A count over an attribute prefix never exceeds the prefix length.
proof fn lemma_attr_refs_bound(attrs: Seq<(VertexAttr, VertexBuffer)>, h: u32, i: int)
    requires
        i >= 0,
    ensures
        spec_attr_refs(attrs, h, i) <= i,
    decreases i,
{
    if i > 0 {
        lemma_attr_refs_bound(attrs, h, i - 1);
    }
}

/// Releasing one handle commutes with the release-all fold: one step of
/// the fold is one `buffer_release`.
proof fn lemma_release_step(
    bufs: Seq<BufferRec>,
    hs: Seq<u32>,
    i: int,
    cmds_pre: Seq<GlCommand>,
    cmds_post: Seq<GlCommand>,
)
    requires
        0 <= i < hs.len(),
        spec_release_frees(bufs, hs[i]) ==> cmds_post == cmds_pre.push(
            GlCommand::DeleteBuffer { handle: hs[i] },
        ),
        !spec_release_frees(bufs, hs[i]) ==> cmds_post == cmds_pre,
    ensures
        cmds_pre + spec_release_all_cmds(bufs, hs, i) =~= cmds_post + spec_release_all_cmds(
            spec_release_buffers(bufs, hs[i]),
            hs,
            i + 1,
        ),
{
}

} // verus!
