//! Immediate-mode sprite batch: quads accumulate as vertices and indices in
//! CPU vectors, grouped per texture so the flush issues one indexed draw per
//! texture run. Submission order is preserved: primitives are never
//! reordered across textures, because that would break painter's-algorithm
//! transparency for overlapping sprites.

use vstd::prelude::*;
use vstd::std_specs::cmp::PartialEqSpec;

verus! {

/// One run of consecutive indices sharing a texture key.
#[derive(Debug)]
pub struct DrawGroup<K> {
    /// Texture the run samples.
    pub texture: K,
    /// First index of the run inside the batch's index list.
    pub start: u32,
    /// Number of indices in the run.
    pub count: u32,
}

/// The batch of queued primitives for one frame. `K` is the texture key,
/// `V` the vertex payload handed to the GPU unchanged.
#[derive(Debug)]
pub struct SpriteBatch<K: PartialEq, V> {
    vertices: Vec<V>,
    indices: Vec<u32>,
    groups: Vec<DrawGroup<K>>,
}

/// The two triangles (TL, TR, BR) and (TL, BR, BL) of a quad whose corners
/// are given as TL, TR, BR, BL.
pub open spec fn quad_indices() -> Seq<u32> {
    seq![0u32, 1u32, 2u32, 0u32, 2u32, 3u32]
}

/// `indices` shifted by `base`, the number of vertices queued before them.
pub open spec fn rebased(indices: Seq<u32>, base: int) -> Seq<u32> {
    indices.map_values(|i: u32| (base + i) as u32)
}

/// The groups tile `0..len` of the index list, in order: the first starts at
/// 0, each starts where the previous one ends, the last ends at `len`.
pub open spec fn groups_tile<K>(groups: Seq<DrawGroup<K>>, len: int) -> bool {
    if groups.len() == 0 {
        len == 0
    } else {
        &&& groups[0].start == 0
        &&& forall|j: int|
            0 <= j < groups.len() - 1 ==> #[trigger] groups[j + 1].start == groups[j].start
                + groups[j].count
        &&& groups.last().start + groups.last().count == len
    }
}

/// Neighbouring groups never share a texture: a run always ends at a texture
/// change. Stated for key types whose `==` follows its specification.
pub open spec fn neighbours_differ<K: PartialEq>(groups: Seq<DrawGroup<K>>) -> bool {
    K::obeys_eq_spec() ==> forall|j: int|
        0 <= j < groups.len() - 1 ==> !(#[trigger] groups[j].texture).eq_spec(
            &groups[j + 1].texture,
        )
}

/// The batch layout: the groups tile the index list in order, neighbouring
/// groups differ in texture, and the index count fits the 32-bit index
/// format.
pub open spec fn laid_out<K: PartialEq>(groups: Seq<DrawGroup<K>>, len: int) -> bool {
    &&& groups_tile(groups, len)
    &&& neighbours_differ(groups)
    &&& len <= u32::MAX
}

impl<K: PartialEq, V> SpriteBatch<K, V> {
    #[verifier::type_invariant]
    closed spec fn inv(&self) -> bool {
        laid_out(self.groups@, self.indices@.len() as int)
    }

    /// The queued vertices, in submission order.
    pub closed spec fn vertex_list(&self) -> Seq<V> {
        self.vertices@
    }

    /// The queued indices into the vertices, in submission order.
    pub closed spec fn index_list(&self) -> Seq<u32> {
        self.indices@
    }

    /// The draw groups, in submission order.
    pub closed spec fn group_list(&self) -> Seq<DrawGroup<K>> {
        self.groups@
    }
}

impl<K: PartialEq, V: Copy> SpriteBatch<K, V> {
    /// An empty batch.
    pub fn new() -> (batch: Self)
        ensures
            laid_out(batch.group_list(), batch.index_list().len() as int),
            batch.vertex_list().len() == 0,
            batch.index_list().len() == 0,
            batch.group_list().len() == 0,
    {
        SpriteBatch { vertices: Vec::new(), indices: Vec::new(), groups: Vec::new() }
    }

    /// Adds an indexed vertex run (e.g. a circle fan) under the given texture
    /// key; indices are relative to `vertices` and rebased onto the batch.
    /// The run extends the last group when its texture equals `texture`, and
    /// opens a new group otherwise.
    pub fn push_vertices(&mut self, texture: K, vertices: &[V], indices: &[u32])
        requires
            old(self).vertex_list().len() <= u32::MAX,
            old(self).index_list().len() + indices@.len() <= u32::MAX,
            forall|i: int|
                0 <= i < indices@.len() ==> old(self).vertex_list().len() + #[trigger] indices@[i]
                    <= u32::MAX,
        ensures
            laid_out(final(self).group_list(), final(self).index_list().len() as int),
            final(self).vertex_list() == old(self).vertex_list() + vertices@,
            final(self).index_list() == old(self).index_list() + rebased(
                indices@,
                old(self).vertex_list().len() as int,
            ),
            final(self).index_list().len() == old(self).index_list().len() + indices@.len(),
            forall|i: int|
                0 <= i < indices@.len() ==> #[trigger] final(self).index_list()[old(
                    self,
                ).index_list().len() + i] == old(self).vertex_list().len() + indices@[i],
            forall|i: int|
                0 <= i < old(self).index_list().len() ==> #[trigger] final(self).index_list()[i]
                    == old(self).index_list()[i],
            ({
                let g = old(self).group_list();
                let n = indices@.len();
                let joins = g.len() > 0 && (K::obeys_eq_spec() ==> g.last().texture.eq_spec(
                    &texture,
                ));
                let opens = K::obeys_eq_spec() ==> !(g.len() > 0 && g.last().texture.eq_spec(
                    &texture,
                ));
                ||| joins && final(self).group_list() == g.update(
                    g.len() - 1,
                    DrawGroup {
                        texture: g.last().texture,
                        start: g.last().start,
                        count: (g.last().count + n) as u32,
                    },
                )
                ||| opens && final(self).group_list() == g.push(
                    DrawGroup {
                        texture: texture,
                        start: old(self).index_list().len() as u32,
                        count: n as u32,
                    },
                )
            }),
    {
        proof {
            use_type_invariant(&*self);
        }
        let mut taken: SpriteBatch<K, V> = SpriteBatch::new();
        std::mem::swap(self, &mut taken);
        proof {
            use_type_invariant(&taken);
        }
        let SpriteBatch { vertices: mut vs, indices: mut is, groups: mut gs } = taken;
        let count = indices.len() as u32;
        let base = vs.len() as u32;
        let start = is.len() as u32;
        let ghost old_groups = gs@;
        let ghost old_indices = is@;
        let ghost old_vertices = vs@;
        let n = gs.len();
        let same = n > 0 && gs[n - 1].texture == texture;
        if same {
            let last = gs.remove(n - 1);
            gs.push(
                DrawGroup { texture: last.texture, start: last.start, count: last.count + count },
            );
            assert(gs@ =~= old_groups.update(
                old_groups.len() - 1,
                DrawGroup {
                    texture: old_groups.last().texture,
                    start: old_groups.last().start,
                    count: (old_groups.last().count + count) as u32,
                },
            ));
        } else {
            gs.push(DrawGroup { texture, start, count });
        }
        let ghost new_groups = gs@;
        let mut i: usize = 0;
        while i < vertices.len()
            invariant
                i <= vertices@.len(),
                is@ == old_indices,
                gs@ == new_groups,
                vs@ == old_vertices + vertices@.subrange(0, i as int),
            decreases vertices@.len() - i,
        {
            vs.push(vertices[i]);
            i = i + 1;
            assert(vs@ =~= old_vertices + vertices@.subrange(0, i as int));
        }
        assert(vertices@.subrange(0, vertices@.len() as int) =~= vertices@);
        assert(old_indices + rebased(indices@.subrange(0, 0), old_vertices.len() as int)
            =~= old_indices);
        let mut j: usize = 0;
        while j < indices.len()
            invariant
                j <= indices@.len(),
                vs@ == old_vertices + vertices@,
                gs@ == new_groups,
                base == old_vertices.len(),
                forall|k: int|
                    0 <= k < indices@.len() ==> old_vertices.len() + #[trigger] indices@[k]
                        <= u32::MAX,
                is@ == old_indices + rebased(
                    indices@.subrange(0, j as int),
                    old_vertices.len() as int,
                ),
            decreases indices@.len() - j,
        {
            let shifted = base + indices[j];
            is.push(shifted);
            j = j + 1;
            assert(is@ =~= old_indices + rebased(
                indices@.subrange(0, j as int),
                old_vertices.len() as int,
            ));
        }
        assert(indices@.subrange(0, indices@.len() as int) =~= indices@);
        *self = SpriteBatch { vertices: vs, indices: is, groups: gs };
    }

    /// Adds one quad (corners TL, TR, BR, BL) under the given texture key,
    /// extending the current group when the key matches the previous one.
    pub fn push_quad(&mut self, texture: K, quad: &[V; 4])
        requires
            old(self).vertex_list().len() + 3 <= u32::MAX,
            old(self).index_list().len() + 6 <= u32::MAX,
        ensures
            laid_out(final(self).group_list(), final(self).index_list().len() as int),
            final(self).vertex_list() == old(self).vertex_list() + quad@,
            final(self).index_list() == old(self).index_list() + rebased(
                quad_indices(),
                old(self).vertex_list().len() as int,
            ),
            ({
                let b = old(self).vertex_list().len();
                final(self).index_list() == old(self).index_list() + seq![
                    b as u32,
                    (b + 1) as u32,
                    (b + 2) as u32,
                    b as u32,
                    (b + 2) as u32,
                    (b + 3) as u32,
                ]
            }),
            ({
                let g = old(self).group_list();
                let joins = g.len() > 0 && (K::obeys_eq_spec() ==> g.last().texture.eq_spec(
                    &texture,
                ));
                let opens = K::obeys_eq_spec() ==> !(g.len() > 0 && g.last().texture.eq_spec(
                    &texture,
                ));
                ||| joins && final(self).group_list() == g.update(
                    g.len() - 1,
                    DrawGroup {
                        texture: g.last().texture,
                        start: g.last().start,
                        count: (g.last().count + 6) as u32,
                    },
                )
                ||| opens && final(self).group_list() == g.push(
                    DrawGroup {
                        texture: texture,
                        start: old(self).index_list().len() as u32,
                        count: 6,
                    },
                )
            }),
    {
        let quad_idx: [u32; 6] = [0, 1, 2, 0, 2, 3];
        assert(quad_idx@ =~= quad_indices());
        self.push_vertices(texture, quad.as_slice(), quad_idx.as_slice());
    }

    /// The draw groups, in submission order. They tile the index list and
    /// neighbouring groups differ in texture.
    pub fn groups(&self) -> (groups: &[DrawGroup<K>])
        ensures
            groups@ == self.group_list(),
            laid_out(groups@, self.index_list().len() as int),
    {
        proof {
            use_type_invariant(self);
        }
        self.groups.as_slice()
    }

    /// The queued vertices, in submission order.
    pub fn vertices(&self) -> (vertices: &[V])
        ensures
            vertices@ == self.vertex_list(),
    {
        self.vertices.as_slice()
    }

    /// The queued indices into the vertices, in submission order.
    pub fn indices(&self) -> (indices: &[u32])
        ensures
            indices@ == self.index_list(),
    {
        self.indices.as_slice()
    }

    /// Whether no vertex is queued.
    pub fn is_empty(&self) -> (empty: bool)
        ensures
            empty == (self.vertex_list().len() == 0),
    {
        self.vertices.is_empty()
    }

    /// Drops every queued primitive so the next frame starts empty.
    pub fn clear(&mut self)
        ensures
            laid_out(final(self).group_list(), final(self).index_list().len() as int),
            final(self).vertex_list().len() == 0,
            final(self).index_list().len() == 0,
            final(self).group_list().len() == 0,
    {
        *self = SpriteBatch::new();
    }
}

} // verus!
