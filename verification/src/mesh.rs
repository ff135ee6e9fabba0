//! The mesh data: vertices and optional triangle indices.

use vstd::prelude::*;

use crate::out::{dec, Out};

verus! {

/// A triangle: the indices of its three vertices.
pub type Face = [u32; 3];

/// The indices of the faces one after another.
pub open spec fn flat_indices(faces: Seq<Face>) -> Seq<u32> {
    Seq::new(3 * faces.len(), |k: int| faces[k / 3]@[k % 3])
}

/// Whether every index of the faces points into `n` vertices.
pub open spec fn indices_valid(faces: Seq<Face>, n: nat) -> bool {
    forall|k: int| 0 <= k < flat_indices(faces).len() ==> #[trigger] flat_indices(faces)[k] < n
}

/// The two triangles of the quad number `q`, whose vertices are `4q .. 4q + 4`.
pub open spec fn quad_face(k: int) -> Seq<u32> {
    let i = 4 * (k / 2);
    if k % 2 == 0 {
        seq![i as u32, (i + 1) as u32, (i + 2) as u32]
    } else {
        seq![i as u32, (i + 2) as u32, (i + 3) as u32]
    }
}

/// The quads' vertices one after another.
pub open spec fn flat_quads<V>(quads: Seq<[V; 4]>) -> Seq<V> {
    Seq::new(4 * quads.len(), |k: int| quads[k / 4]@[k % 4])
}

/// An error returned from the mesh data constructors.
#[derive(Debug, Clone, Copy, PartialEq, Eq, Structural)]
pub enum Error {
    /// Vertices length doesn't fit in `u32`.
    TooManyVertices,
    /// The vertex index is out of bounds of the vertex slice.
    InvalidIndex { index: u32 },
}

impl Error {
    /// The error message.
    pub fn message(&self) -> (s: String)
        ensures
            s@ == match *self {
                Error::TooManyVertices => "too many vertices"@,
                Error::InvalidIndex { index } => "invalid index: "@ + dec(index as nat),
            },
    {
        match self {
            Error::TooManyVertices => String::from_str("too many vertices"),
            Error::InvalidIndex { index } => {
                let mut o = Out::new();
                o.write_str("invalid index: ").write(*index);
                o.into_string()
            },
        }
    }
}

/// Vertices length doesn't fit in `u32`.
#[derive(Debug, Clone, Copy, PartialEq, Eq, Structural)]
pub struct TooManyVertices;

impl TooManyVertices {
    /// The error message.
    pub fn message(&self) -> (s: String)
        ensures
            s@ == "too many vertices"@,
    {
        String::from_str("too many vertices")
    }
}

/// The byte `k` (of four) of the index `x` in memory, in little-endian order when
/// `little` holds and big-endian order otherwise.
pub open spec fn index_byte(x: u32, k: int, little: bool) -> u8 {
    if little {
        vstd::bytes::spec_u32_to_le_bytes(x)[k]
    } else {
        vstd::bytes::spec_u32_to_le_bytes(x)[3 - k]
    }
}

/// The faces as bytes: face after face, corner after corner, four bytes per index,
/// every index in the same byte order.
pub open spec fn face_bytes(faces: Seq<Face>, little: bool) -> Seq<u8> {
    Seq::new(12 * faces.len(), |b: int| index_byte(faces[b / 12]@[(b % 12) / 4], b % 4, little))
}

/// Calls `bytemuck::cast_slice` to view the faces as bytes, then copies them. The
/// result holds the faces in order, corner after corner, four bytes per index in
/// the machine's byte order, which is little-endian or big-endian; which of the two
/// is not stated.
#[verifier::external_body]
fn faces_as_bytes(faces: &[Face]) -> (r: Vec<u8>)
    ensures
        exists|little: bool| r@ == #[trigger] face_bytes(faces@, little),
{
    bytemuck::cast_slice::<Face, u8>(faces).to_vec()
}

/// The vertices of a mesh and, optionally, its triangles.
pub struct MeshData<V> {
    verts: Vec<V>,
    indxs: Option<Vec<Face>>,
}

impl<V: Copy> MeshData<V> {
    pub closed spec fn vertices(&self) -> Seq<V> {
        self.verts@
    }

    pub closed spec fn faces(&self) -> Option<Seq<Face>> {
        match self.indxs {
            Some(f) => Some(f@),
            None => None,
        }
    }

    fn copy_verts(verts: &[V]) -> (r: Vec<V>)
        ensures
            r@ == verts@,
    {
        let mut r: Vec<V> = Vec::new();
        let mut i: usize = 0;
        while i < verts.len()
            invariant
                i <= verts@.len(),
                r@ == verts@.take(i as int),
            decreases verts@.len() - i,
        {
            r.push(verts[i]);
            i = i + 1;
            assert(r@ =~= verts@.take(i as int));
        }
        assert(verts@.take(i as int) =~= verts@);
        r
    }

    /// Creates a mesh data from given vertices.
    pub fn from_verts(verts: &[V]) -> (r: Self)
        ensures
            r.vertices() == verts@,
            r.faces() is None,
    {
        MeshData { verts: Self::copy_verts(verts), indxs: None }
    }

    /// Creates a mesh data from given vertices and triangles, or returns an error:
    /// `TooManyVertices` when the number of vertices doesn't fit in `u32`, else
    /// `InvalidIndex` with the first index (in order) that does not point to a vertex.
    pub fn new(verts: &[V], indxs: &[Face]) -> (r: Result<Self, Error>)
        ensures
            verts@.len() > u32::MAX ==> r == Err::<Self, Error>(Error::TooManyVertices),
            verts@.len() <= u32::MAX ==> {
                &&& indices_valid(indxs@, verts@.len()) <==> r is Ok
                &&& r matches Ok(m) ==> m.vertices() == verts@ && m.faces() == Some(indxs@)
                &&& r matches Err(e) ==> exists|k: int|
                    0 <= k < flat_indices(indxs@).len() && e == (Error::InvalidIndex {
                        index: #[trigger] flat_indices(indxs@)[k],
                    }) && flat_indices(indxs@)[k] >= verts@.len() && forall|j: int|
                        0 <= j < k ==> flat_indices(indxs@)[j] < verts@.len()
            },
    {
        if verts.len() > u32::MAX as usize {
            return Err(Error::TooManyVertices);
        }
        let len = verts.len() as u32;
        let ghost flat = flat_indices(indxs@);
        let mut i: usize = 0;
        while i < indxs.len()
            invariant
                len == verts@.len(),
                flat == flat_indices(indxs@),
                i <= indxs@.len(),
                forall|j: int| 0 <= j < 3 * i ==> #[trigger] flat[j] < len,
            decreases indxs@.len() - i,
        {
            let face = indxs[i];
            let mut c: usize = 0;
            while c < 3
                invariant
                    len == verts@.len(),
                    flat == flat_indices(indxs@),
                    i < indxs@.len(),
                    face == indxs@[i as int],
                    c <= 3,
                    forall|j: int| 0 <= j < 3 * i + c ==> #[trigger] flat[j] < len,
                decreases 3 - c,
            {
                let index = face[c];
                assert(flat[3 * i + c] == index);
                if index >= len {
                    return Err(Error::InvalidIndex { index });
                }
                c = c + 1;
            }
            i = i + 1;
        }
        let mut faces: Vec<Face> = Vec::new();
        let mut f: usize = 0;
        while f < indxs.len()
            invariant
                f <= indxs@.len(),
                faces@ == indxs@.take(f as int),
            decreases indxs@.len() - f,
        {
            faces.push(indxs[f]);
            f = f + 1;
            assert(faces@ =~= indxs@.take(f as int));
        }
        assert(indxs@.take(f as int) =~= indxs@);
        Ok(MeshData { verts: Self::copy_verts(verts), indxs: Some(faces) })
    }

    /// Creates a mesh data from given quadrilaterals: each quad gives four vertices and
    /// two triangles. Returns an error when the number of vertices doesn't fit in `u32`.
    pub fn from_quads(verts: &[[V; 4]]) -> (r: Result<Self, TooManyVertices>)
        ensures
            4 * verts@.len() > u32::MAX <==> r is Err,
            r matches Ok(m) ==> {
                &&& m.vertices() == flat_quads(verts@)
                &&& m.faces() matches Some(f) && f.len() == 2 * verts@.len()
                    && (forall|k: int| 0 <= k < f.len() ==> #[trigger] f[k]@ == quad_face(k))
                    && indices_valid(f, m.vertices().len())
            },
    {
        if verts.len() > (u32::MAX / 4) as usize {
            return Err(TooManyVertices);
        }
        let n = verts.len();
        let mut flat: Vec<V> = Vec::new();
        let mut faces: Vec<Face> = Vec::new();
        let mut q: usize = 0;
        while q < n
            invariant
                n == verts@.len(),
                4 * n <= u32::MAX,
                q <= n,
                flat@ =~= flat_quads(verts@.take(q as int)),
                faces@.len() == 2 * q,
                forall|k: int| 0 <= k < 2 * q ==> #[trigger] faces@[k]@ == quad_face(k),
            decreases n - q,
        {
            let quad = verts[q];
            flat.push(quad[0]);
            flat.push(quad[1]);
            flat.push(quad[2]);
            flat.push(quad[3]);
            let i = (4 * q) as u32;
            let a: Face = [i, i + 1, i + 2];
            let b: Face = [i, i + 2, i + 3];
            faces.push(a);
            faces.push(b);
            proof {
                assert(a@ =~= quad_face(2 * q as int));
                assert(b@ =~= quad_face(2 * q + 1));
                assert(flat@ =~= flat_quads(verts@.take(q + 1)));
            }
            q = q + 1;
        }
        assert(verts@.take(q as int) =~= verts@);
        proof {
            lemma_quad_indices_valid(faces@, n as nat);
        }
        Ok(MeshData { verts: flat, indxs: Some(faces) })
    }

    /// The vertices.
    pub fn verts(&self) -> (v: &[V])
        ensures
            v@ == self.vertices(),
    {
        self.verts.as_slice()
    }

    /// The triangles, if the mesh has any.
    pub fn indices(&self) -> (f: Option<&[Face]>)
        ensures
            match f {
                Some(f) => self.faces() == Some(f@),
                None => self.faces() is None,
            },
    {
        match &self.indxs {
            Some(f) => Some(f.as_slice()),
            None => None,
        }
    }

    /// The triangles as bytes, ready for an index buffer.
    pub fn index_bytes(&self) -> (r: Option<Vec<u8>>)
        ensures
            match self.faces() {
                Some(f) => r matches Some(b) && exists|little: bool| b@ == #[trigger] face_bytes(f, little),
                None => r is None,
            },
    {
        match &self.indxs {
            Some(f) => {
                let b = faces_as_bytes(f.as_slice());
                proof {
                    let little = choose|little: bool| b@ == #[trigger] face_bytes(f@, little);
                    assert(b@ == face_bytes(self.faces().unwrap(), little));
                }
                Some(b)
            },
            None => None,
        }
    }
}

/// Every index of a mesh made of quads points to one of its vertices.
pub proof fn lemma_quad_indices_valid(faces: Seq<Face>, quads: nat)
    requires
        faces.len() == 2 * quads,
        forall|k: int| 0 <= k < faces.len() ==> #[trigger] faces[k]@ == quad_face(k),
    ensures
        indices_valid(faces, 4 * quads),
{
    assert forall|k: int| 0 <= k < flat_indices(faces).len() implies #[trigger] flat_indices(
        faces,
    )[k] < 4 * quads by {
        let f = k / 3;
        let c = k % 3;
        assert(faces[f]@ == quad_face(f));
        assert(f / 2 < quads);
    }
}

} // verus!
