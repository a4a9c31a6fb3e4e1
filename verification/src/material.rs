//! A material as the draw orchestration consumes it: the uniform block
//! head plus up to eight texture roles, packed in aspect order.

use vstd::prelude::*;

use crate::shader_instantiable::ShaderMaterialBaseData;
use crate::types::{MaterialAspect, ShortIndex, TextureId};

verus! {

/// The texture entries a material's aspect answers pack down to: one
/// `(role, texture index)` pair for each aspect that has a texture, in
/// aspect order, scanning from index `i`.
pub open spec fn spec_packed_textures(pairs: Seq<(MaterialAspect, ShortIndex)>, i: int) -> Seq<
    (TextureId, ShortIndex),
>
    decreases pairs.len() - i,
{
    if i < 0 || i >= pairs.len() {
        Seq::empty()
    } else {
        let rest = spec_packed_textures(pairs, i + 1);
        if pairs[i].1.spec_is_none() {
            rest
        } else {
            seq![(TextureId::spec_of_material_aspect(pairs[i].0), pairs[i].1)] + rest
        }
    }
}

/// The packed entries are never more numerous than the aspects answered.
proof fn lemma_packed_textures_len(pairs: Seq<(MaterialAspect, ShortIndex)>, i: int)
    requires
        0 <= i <= pairs.len(),
    ensures
        spec_packed_textures(pairs, i).len() <= pairs.len() - i,
    decreases pairs.len() - i,
{
    if i < pairs.len() {
        lemma_packed_textures_len(pairs, i + 1);
    }
}

/// A material ready for drawing: the uniform block head and up to eight
/// texture roles, at most one texture per role.
#[derive(Debug, Clone, PartialEq)]
pub struct Material {
    /// The head of the material uniform block
    pub base_data: ShaderMaterialBaseData,
    /// Eight texture entries: the packed roles first, then 'none' filler
    pub textures: Vec<(TextureId, ShortIndex)>,
}

impl Material {
    /// The head of the material uniform block.
    pub open spec fn spec_base_data(self) -> ShaderMaterialBaseData {
        self.base_data
    }

    /// The eight texture entries.
    pub open spec fn spec_textures(self) -> Seq<(TextureId, ShortIndex)> {
        self.textures@
    }

    /// Build a material from its uniform block head and the texture each
    /// aspect answered with: the aspects that have a texture are packed to
    /// the front, in the order given, and the rest is 'none' filler.
    pub fn create(
        base_data: ShaderMaterialBaseData,
        aspect_textures: &Vec<(MaterialAspect, ShortIndex)>,
    ) -> (r: Result<Self, ()>)
        requires
            aspect_textures@.len() <= 8,
        ensures
            r is Ok,
            r matches Ok(m) ==> ({
                let packed = spec_packed_textures(aspect_textures@, 0);
                &&& m.spec_base_data() == base_data
                &&& m.spec_textures().len() == 8
                &&& m.spec_textures().take(packed.len() as int) == packed
                &&& forall|j: int|
                    packed.len() <= j < 8 ==> m.spec_textures()[j] == (
                        TextureId::NoTexture,
                        ShortIndex { value: 65535 },
                    )
            }),
    {
        let ghost packed = spec_packed_textures(aspect_textures@, 0);
        let mut textures: Vec<(TextureId, ShortIndex)> = Vec::new();
        let mut f: usize = 0;
        while f < 8
            invariant
                f <= 8,
                textures@.len() == f,
                forall|j: int|
                    0 <= j < f ==> textures@[j] == (TextureId::NoTexture, ShortIndex {
                        value: 65535,
                    }),
            decreases 8 - f,
        {
            textures.push((TextureId::NoTexture, ShortIndex::none()));
            f = f + 1;
        }
        let n = aspect_textures.len();
        let mut i: usize = 0;
        let mut k: usize = 0;
        proof {
            assert(packed =~= textures@.take(0) + spec_packed_textures(aspect_textures@, 0));
        }
        while i < n
            invariant
                i <= n,
                k <= 8,
                n == aspect_textures@.len() <= 8,
                textures@.len() == 8,
                packed == spec_packed_textures(aspect_textures@, 0),
                packed == textures@.take(k as int) + spec_packed_textures(
                    aspect_textures@,
                    i as int,
                ),
                forall|j: int|
                    k <= j < 8 ==> textures@[j] == (TextureId::NoTexture, ShortIndex {
                        value: 65535,
                    }),
            decreases n - i,
        {
            let (aspect, ti) = aspect_textures[i];
            if ti.is_some() {
                proof {
                    lemma_packed_textures_len(aspect_textures@, 0);
                    assert(spec_packed_textures(aspect_textures@, i as int).len() >= 1);
                    assert(packed.len() <= 8);
                    assert(k < 8);
                }
                let entry = (TextureId::of_material_aspect(aspect), ti);
                textures.set(k, entry);
                proof {
                    assert(textures@.take(k + 1) =~= textures@.take(k as int).push(entry));
                    assert(packed =~= textures@.take(k as int) + spec_packed_textures(
                        aspect_textures@,
                        i as int,
                    ));
                    assert(packed =~= textures@.take(k + 1) + spec_packed_textures(
                        aspect_textures@,
                        i + 1,
                    ));
                }
                k = k + 1;
            }
            i = i + 1;
        }
        proof {
            assert(spec_packed_textures(aspect_textures@, n as int) =~= Seq::empty());
            assert(packed =~= textures@.take(k as int));
        }
        Ok(Self { base_data, textures })
    }

    /// The head of the material uniform block.
    pub fn base_data(&self) -> (r: &ShaderMaterialBaseData)
        ensures
            r == &self.base_data,
    {
        &self.base_data
    }

    /// The eight texture entries: the packed roles first, then 'none'
    /// filler.
    pub fn textures(&self) -> (r: &Vec<(TextureId, ShortIndex)>)
        ensures
            r == &self.textures,
    {
        &self.textures
    }
}

} // verus!
