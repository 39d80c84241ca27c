use vstd::prelude::*;
use vstd::std_specs::iter::IteratorSpec;

verus! {

/// Largest number of vertices one mesh can hold: indices are 16-bit.
pub const MAX_VERTICES: usize = 65536;

/// The indices `pattern` moved up by `start`, the position of the first
/// vertex they refer to.
pub open spec fn shifted(pattern: Seq<u16>, start: int) -> Seq<u16> {
    Seq::new(pattern.len(), |i: int| (start + pattern[i]) as u16)
}

/// One triangle over three fresh vertices.
pub open spec fn tri_pattern() -> Seq<u16> {
    seq![0, 1, 2]
}

/// A quad a, b, c, d as the triangles (a, b, c) and (a, c, d): both share the
/// diagonal a-c and keep the quad's counter-clockwise winding.
pub open spec fn quad_pattern() -> Seq<u16> {
    seq![0, 1, 2, 0, 2, 3]
}

/// A triangle stored on the CPU.
pub struct Tri<T> {
    pub a: T,
    pub b: T,
    pub c: T,
}

impl<T> Tri<T> {
    pub fn new(a: T, b: T, c: T) -> (r: Self)
        ensures
            r == (Tri { a, b, c }),
    {
        Tri { a, b, c }
    }
}

/// A quad stored on the CPU, corners in counter-clockwise order.
pub struct Quad<T> {
    pub a: T,
    pub b: T,
    pub c: T,
    pub d: T,
}

impl<T> Quad<T> {
    pub fn new(a: T, b: T, c: T, d: T) -> (r: Self)
        ensures
            r == (Quad { a, b, c, d }),
    {
        Quad { a, b, c, d }
    }
}

/// A cube's twelve triangles over its eight corners a..h (a-d the bottom
/// face, e-h the top one), faces in the order bottom, top, front, right,
/// back, left, each wound to face outward.
pub open spec fn cube_pattern() -> Seq<u16> {
    seq![
        0, 2, 1, 0, 3, 2,
        4, 5, 6, 4, 6, 7,
        1, 5, 0, 5, 4, 0,
        2, 6, 1, 6, 5, 1,
        3, 7, 2, 7, 6, 2,
        0, 4, 3, 4, 7, 3,
    ]
}

/// Each vertex position in `lo..hi` occurs among `indices`.
pub open spec fn covers_range(indices: Seq<u16>, lo: int, hi: int) -> bool {
    forall|v: u16| lo <= v < hi ==> #[trigger] indices.contains(v)
}

/// A cube stored on the CPU: a-d the bottom face, e-h the top face above them.
pub struct Cube<T> {
    pub a: T,
    pub b: T,
    pub c: T,
    pub d: T,
    pub e: T,
    pub f: T,
    pub g: T,
    pub h: T,
}

impl<T> Cube<T> {
    pub fn new(a: T, b: T, c: T, d: T, e: T, f: T, g: T, h: T) -> (r: Self)
        ensures
            r == (Cube { a, b, c, d, e, f, g, h }),
    {
        Cube { a, b, c, d, e, f, g, h }
    }
}

pub open spec fn cube_verts<T>(c: Cube<T>) -> Seq<T> {
    seq![c.a, c.b, c.c, c.d, c.e, c.f, c.g, c.h]
}

/// A list of quad faces, each over four vertices of its own.
pub struct Block<T> {
    pub faces: Vec<Quad<T>>,
}

/// The vertices of `faces`, face after face.
pub open spec fn faces_verts<T>(faces: Seq<Quad<T>>) -> Seq<T>
    decreases faces.len(),
{
    if faces.len() == 0 {
        Seq::empty()
    } else {
        faces_verts(faces.drop_last()) + quad_verts(faces.last())
    }
}

/// The indices of `faces` when their vertices start at position `start`.
pub open spec fn faces_indices<T>(faces: Seq<Quad<T>>, start: int) -> Seq<u16>
    decreases faces.len(),
{
    if faces.len() == 0 {
        Seq::empty()
    } else {
        faces_indices(faces.drop_last(), start) + shifted(
            quad_pattern(),
            start + 4 * (faces.len() - 1),
        )
    }
}

/// What a mesh with vertices `verts` and indices `indices` holds after
/// `quads` are pushed onto it one by one.
pub open spec fn quads_pushed<T>(verts: Seq<T>, indices: Seq<u16>, quads: Seq<Quad<T>>) -> (Seq<
    T,
>, Seq<u16>)
    decreases quads.len(),
{
    if quads.len() == 0 {
        (verts, indices)
    } else {
        let (v, i) = quads_pushed(verts, indices, quads.drop_last());
        (v + quad_verts(quads.last()), i + shifted(quad_pattern(), v.len() as int))
    }
}

pub open spec fn quad_verts<T>(q: Quad<T>) -> Seq<T> {
    seq![q.a, q.b, q.c, q.d]
}

/// A vertex list and a 16-bit triangle-list index list, built on the CPU.
pub struct Mesh<T> {
    verts: Vec<T>,
    indices: Vec<u16>,
}

impl<T> Mesh<T> {
    pub closed spec fn verts_view(&self) -> Seq<T> {
        self.verts@
    }

    pub closed spec fn indices_view(&self) -> Seq<u16> {
        self.indices@
    }

    /// Every index names a vertex, the indices form whole triangles, and
    /// the vertex count stays within 16-bit index range.
    pub open spec fn wf(&self) -> bool {
        &&& self.verts_view().len() <= MAX_VERTICES
        &&& self.indices_view().len() % 3 == 0
        &&& forall|i: int|
            0 <= i < self.indices_view().len() ==> (#[trigger] self.indices_view()[i])
                < self.verts_view().len()
    }

    /// Creates an empty mesh.
    pub fn new() -> (r: Self)
        ensures
            r.wf(),
            r.verts_view() == Seq::<T>::empty(),
            r.indices_view() == Seq::<u16>::empty(),
    {
        Mesh { verts: Vec::new(), indices: Vec::new() }
    }

    /// Removes every vertex and index, keeping the allocations for reuse.
    pub fn clear(&mut self)
        ensures
            final(self).wf(),
            final(self).verts_view() == Seq::<T>::empty(),
            final(self).indices_view() == Seq::<u16>::empty(),
    {
        self.verts.clear();
        self.indices.clear();
    }

    /// The vertices, in insertion order.
    pub fn vertices(&self) -> (r: &[T])
        ensures
            r@ == self.verts_view(),
    {
        self.verts.as_slice()
    }

    /// The indices, in insertion order.
    pub fn indices(&self) -> (r: &[u16])
        ensures
            r@ == self.indices_view(),
    {
        self.indices.as_slice()
    }

    /// An iterator over the vertices, in insertion order.
    pub fn iter_verts(&self) -> (r: std::slice::Iter<'_, T>)
        ensures
            r.remaining() == self.verts_view().as_ref(),
    {
        self.verts.iter()
    }

    /// An iterator over a copy of the indices, in insertion order.
    pub fn iter_indices(&self) -> (r: std::vec::IntoIter<u16>)
        ensures
            r.remaining() == self.indices_view(),
    {
        let copy = self.indices.clone();
        copy.into_iter()
    }

    /// Appends one vertex; no index refers to it yet.
    pub fn push(&mut self, vert: T)
        requires
            old(self).wf(),
            old(self).verts_view().len() < MAX_VERTICES,
        ensures
            final(self).wf(),
            final(self).verts_view() == old(self).verts_view().push(vert),
            final(self).indices_view() == old(self).indices_view(),
    {
        self.verts.push(vert);
    }

    /// Appends whole triangles of indices over vertices already present.
    pub fn push_indices(&mut self, indices: &[u16])
        requires
            old(self).wf(),
            indices@.len() % 3 == 0,
            forall|i: int|
                0 <= i < indices@.len() ==> (#[trigger] indices@[i]) < old(self).verts_view().len(),
        ensures
            final(self).wf(),
            final(self).verts_view() == old(self).verts_view(),
            final(self).indices_view() == old(self).indices_view() + indices@,
    {
        let ghost old_indices = self.indices@;
        let mut k: usize = 0;
        while k < indices.len()
            invariant
                k <= indices@.len(),
                self.verts@ == old(self).verts_view(),
                self.indices@ == old_indices + indices@.subrange(0, k as int),
            decreases indices@.len() - k,
        {
            self.indices.push(indices[k]);
            k = k + 1;
            assert(self.indices@ =~= old_indices + indices@.subrange(0, k as int));
        }
        assert(indices@.subrange(0, k as int) =~= indices@);
    }

    /// Appends `start + p` for each `p` of `pattern`.
    fn push_shifted(&mut self, start: u16, pattern: &[u16])
        requires
            forall|i: int|
                0 <= i < pattern@.len() ==> start + (#[trigger] pattern@[i]) <= u16::MAX,
        ensures
            final(self).verts == old(self).verts,
            final(self).indices@ == old(self).indices@ + shifted(pattern@, start as int),
    {
        let ghost old_indices = self.indices@;
        let mut k: usize = 0;
        while k < pattern.len()
            invariant
                k <= pattern@.len(),
                self.verts == old(self).verts,
                old_indices == old(self).indices@,
                forall|i: int|
                    0 <= i < pattern@.len() ==> start + (#[trigger] pattern@[i]) <= u16::MAX,
                self.indices@ == old_indices + shifted(pattern@, start as int).subrange(0, k as int),
            decreases pattern@.len() - k,
        {
            self.indices.push(start + pattern[k]);
            k = k + 1;
            assert(self.indices@ =~= old_indices + shifted(pattern@, start as int).subrange(0, k as int));
        }
        assert(shifted(pattern@, start as int).subrange(0, k as int) =~= shifted(pattern@, start as int));
    }

    /// Appends a triangle: its three vertices, then the indices of them.
    pub fn push_tri(&mut self, tri: Tri<T>)
        requires
            old(self).wf(),
            old(self).verts_view().len() + 3 <= MAX_VERTICES,
        ensures
            final(self).wf(),
            final(self).verts_view() == old(self).verts_view() + seq![tri.a, tri.b, tri.c],
            final(self).indices_view() == old(self).indices_view() + shifted(
                tri_pattern(),
                old(self).verts_view().len() as int,
            ),
    {
        let start = self.verts.len() as u16;
        self.verts.push(tri.a);
        self.verts.push(tri.b);
        self.verts.push(tri.c);
        let pattern: [u16; 3] = [0, 1, 2];
        assert(pattern@ =~= tri_pattern());
        self.push_shifted(start, &pattern);
        assert(self.verts@ =~= old(self).verts@ + seq![tri.a, tri.b, tri.c]);
    }

    /// Appends a quad: its four vertices, then two triangles (a, b, c) and
    /// (a, c, d) over them.
    pub fn push_quad(&mut self, quad: Quad<T>)
        requires
            old(self).wf(),
            old(self).verts_view().len() + 4 <= MAX_VERTICES,
        ensures
            final(self).wf(),
            final(self).verts_view() == old(self).verts_view() + quad_verts(quad),
            final(self).indices_view() == old(self).indices_view() + shifted(
                quad_pattern(),
                old(self).verts_view().len() as int,
            ),
    {
        let ghost q = quad;
        let start = self.verts.len() as u16;
        self.verts.push(quad.a);
        self.verts.push(quad.b);
        self.verts.push(quad.c);
        self.verts.push(quad.d);
        let pattern: [u16; 6] = [0, 1, 2, 0, 2, 3];
        assert(pattern@ =~= quad_pattern());
        self.push_shifted(start, &pattern);
        assert(self.verts@ =~= old(self).verts@ + quad_verts(q));
    }

    /// Appends a cube: its eight corners, then its twelve triangles.
    pub fn push_cube(&mut self, cube: Cube<T>)
        requires
            old(self).wf(),
            old(self).verts_view().len() + 8 <= MAX_VERTICES,
        ensures
            final(self).wf(),
            final(self).verts_view() == old(self).verts_view() + cube_verts(cube),
            final(self).indices_view() == old(self).indices_view() + shifted(
                cube_pattern(),
                old(self).verts_view().len() as int,
            ),
            final(self).verts_view().len() == old(self).verts_view().len() + 8,
            final(self).indices_view().len() == old(self).indices_view().len() + 36,
            covers_range(
                final(self).indices_view().subrange(
                    old(self).indices_view().len() as int,
                    final(self).indices_view().len() as int,
                ),
                old(self).verts_view().len() as int,
                old(self).verts_view().len() + 8int,
            ),
    {
        let ghost c = cube;
        let start = self.verts.len() as u16;
        self.verts.push(cube.a);
        self.verts.push(cube.b);
        self.verts.push(cube.c);
        self.verts.push(cube.d);
        self.verts.push(cube.e);
        self.verts.push(cube.f);
        self.verts.push(cube.g);
        self.verts.push(cube.h);
        let pattern: [u16; 36] = [
            0, 2, 1, 0, 3, 2,
            4, 5, 6, 4, 6, 7,
            1, 5, 0, 5, 4, 0,
            2, 6, 1, 6, 5, 1,
            3, 7, 2, 7, 6, 2,
            0, 4, 3, 4, 7, 3,
        ];
        assert(pattern@ =~= cube_pattern());
        self.push_shifted(start, &pattern);
        assert(self.verts@ =~= old(self).verts@ + cube_verts(c));
        let ghost n = old(self).indices@.len() as int;
        let ghost s = start as int;
        let ghost added = self.indices@.subrange(n, n + 36);
        assert forall|v: u16| s <= v < s + 8 implies #[trigger] added.contains(v) by {
            if v == s {
                assert(added[0] == v);
            } else if v == s + 1 {
                assert(added[2] == v);
            } else if v == s + 2 {
                assert(added[1] == v);
            } else if v == s + 3 {
                assert(added[4] == v);
            } else if v == s + 4 {
                assert(added[6] == v);
            } else if v == s + 5 {
                assert(added[7] == v);
            } else if v == s + 6 {
                assert(added[8] == v);
            } else {
                assert(added[11] == v);
            }
        }
    }
}

impl<T: Copy> Mesh<T> {
    /// Appends each face of `block` as a quad, in order.
    pub fn push_block(&mut self, block: Block<T>)
        requires
            old(self).wf(),
            old(self).verts_view().len() + 4 * block.faces@.len() <= MAX_VERTICES,
        ensures
            final(self).wf(),
            final(self).verts_view() == old(self).verts_view() + faces_verts(block.faces@),
            final(self).indices_view() == old(self).indices_view() + faces_indices(
                block.faces@,
                old(self).verts_view().len() as int,
            ),
    {
        let ghost start = old(self).verts@.len() as int;
        let mut k: usize = 0;
        while k < block.faces.len()
            invariant
                k <= block.faces@.len(),
                start == old(self).verts@.len(),
                start + 4 * block.faces@.len() <= MAX_VERTICES,
                self.wf(),
                self.verts@ == old(self).verts@ + faces_verts(block.faces@.subrange(0, k as int)),
                self.indices@ == old(self).indices@ + faces_indices(
                    block.faces@.subrange(0, k as int),
                    start,
                ),
            decreases block.faces@.len() - k,
        {
            proof {
                lemma_faces_verts_len(block.faces@.subrange(0, k as int));
            }
            let face = &block.faces[k];
            self.push_quad(Quad { a: face.a, b: face.b, c: face.c, d: face.d });
            k = k + 1;
            proof {
                let prefix = block.faces@.subrange(0, k as int);
                assert(prefix.drop_last() =~= block.faces@.subrange(0, k - 1));
                assert(self.verts@ =~= old(self).verts@ + faces_verts(prefix));
                assert(self.indices@ =~= old(self).indices@ + faces_indices(prefix, start));
            }
        }
        assert(block.faces@.subrange(0, k as int) =~= block.faces@);
    }
}

/// Quads pushed one after another onto a well-formed mesh add four vertices
/// and six indices each, and every index still names a vertex; from an empty
/// mesh that is six indices per quad.
pub proof fn lemma_quads_pushed<T>(verts: Seq<T>, indices: Seq<u16>, quads: Seq<Quad<T>>)
    requires
        verts.len() + 4 * quads.len() <= MAX_VERTICES,
        forall|i: int| 0 <= i < indices.len() ==> (#[trigger] indices[i]) < verts.len(),
    ensures
        ({
            let (v, i) = quads_pushed(verts, indices, quads);
            &&& v.len() == verts.len() + 4 * quads.len()
            &&& i.len() == indices.len() + 6 * quads.len()
            &&& forall|k: int| 0 <= k < i.len() ==> (#[trigger] i[k]) < v.len()
        }),
    decreases quads.len(),
{
    if quads.len() > 0 {
        lemma_quads_pushed(verts, indices, quads.drop_last());
        let (v, i) = quads_pushed(verts, indices, quads.drop_last());
        let (v2, i2) = quads_pushed(verts, indices, quads);
        assert forall|k: int| 0 <= k < i2.len() implies (#[trigger] i2[k]) < v2.len() by {
            if k >= i.len() {
                assert(i2[k] == v.len() + quad_pattern()[k - i.len()]);
            }
        }
    }
}

proof fn lemma_faces_verts_len<T>(faces: Seq<Quad<T>>)
    ensures
        faces_verts(faces).len() == 4 * faces.len(),
    decreases faces.len(),
{
    if faces.len() > 0 {
        lemma_faces_verts_len(faces.drop_last());
    }
}

} // verus!
