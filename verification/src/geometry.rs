//! Procedural mesh generation, stated over shape parameters.
//!
//! A generated vertex is described by where it sits on the shape (which
//! ring of the annulus, which angle step) rather than by coordinates.
//! The angle of step `i` out of `n` subdivisions is
//! `start + i * (end - start) / n`, and the host evaluates that together
//! with the radii when it realizes the mesh as floating-point positions.
//! Index data is complete here: it is exact integer data.

use vstd::prelude::*;

verus! {

/// Degenerate shape request: zero subdivisions for an annulus, or fewer
/// than three sides for a polygon.
#[derive(Clone, Copy, Debug, PartialEq, Eq, Structural)]
pub struct InvalidGeometryError;

/// Which of the two circles of an annulus a vertex lies on.
#[derive(Clone, Copy, Debug, PartialEq, Eq, Structural)]
pub enum Ring {
    Outer,
    Inner,
}

/// One annulus vertex: the point on `ring` at angle step `step`.
#[derive(Clone, Copy, Debug, PartialEq, Eq, Structural)]
pub struct AnnulusVertex {
    pub ring: Ring,
    pub step: u16,
}

/// One regular-polygon vertex: the fan center, or the rim point at angle
/// step `step` (step `i` out of `sides` stands for the angle
/// `i * 2*pi / sides`; step `sides` closes the fan at the same angle as
/// step 0).
#[derive(Clone, Copy, Debug, PartialEq, Eq, Structural)]
pub enum PolygonVertexKind {
    Center,
    Rim { step: u16 },
}

/// A mesh: a vertex array and a 16-bit index array into it.
pub struct MeshData<V> {
    pub vertices: Vec<V>,
    pub indices: Vec<u16>,
}

impl<V> MeshData<V> {
    /// Every index points at an existing vertex.
    pub open spec fn wf(&self) -> bool {
        forall|j: int|
            0 <= j < self.indices@.len() ==> (#[trigger] self.indices@[j]) < self.vertices@.len()
    }

    pub fn vertex_count(&self) -> (n: usize)
        ensures
            n == self.vertices@.len(),
    {
        self.vertices.len()
    }

    pub fn index_count(&self) -> (n: usize)
        ensures
            n == self.indices@.len(),
    {
        self.indices.len()
    }
}

/// The vertex at position `j` of the annulus vertex array. Each step `i`
/// contributes six unshared vertices, two counter-clockwise triangles:
/// (outer i, outer i+1, inner i) and (inner i, outer i+1, inner i+1).
pub open spec fn annulus_vertex_at(j: int) -> AnnulusVertex {
    let i = j / 6;
    let k = j % 6;
    let ring = if k == 0 || k == 1 || k == 4 {
        Ring::Outer
    } else {
        Ring::Inner
    };
    let step = if k == 0 || k == 2 || k == 3 {
        i
    } else {
        i + 1
    };
    AnnulusVertex { ring, step: step as u16 }
}

/// The whole annulus vertex array for `subdivisions` steps.
pub open spec fn annulus_vertices(subdivisions: u16) -> Seq<AnnulusVertex> {
    Seq::new((6 * subdivisions) as nat, |j: int| annulus_vertex_at(j))
}

/// Unfold `annulus_vertex_at` at position `6 * i + k`: corner `k` of step
/// `i`.
pub proof fn lemma_annulus_vertex_at(i: int, k: int)
    requires
        0 <= i,
        0 <= k < 6,
    ensures
        annulus_vertex_at(6 * i + k) == (AnnulusVertex {
            ring: if k == 0 || k == 1 || k == 4 {
                Ring::Outer
            } else {
                Ring::Inner
            },
            step: (if k == 0 || k == 2 || k == 3 {
                i
            } else {
                i + 1
            }) as u16,
        }),
{
    assert((6 * i + k) / 6 == i && (6 * i + k) % 6 == k) by (nonlinear_arith)
        requires
            0 <= i,
            0 <= k < 6,
    ;
}

/// The annulus index array: vertices are unshared, so the indices are
/// simply sequential.
pub open spec fn annulus_indices(subdivisions: u16) -> Seq<u16> {
    Seq::new((6 * subdivisions) as nat, |j: int| j as u16)
}

/// Generate the annulus mesh schedule: six vertices and six sequential
/// indices per subdivision, and an error exactly when `subdivisions` is
/// zero.
pub fn generate_annulus(subdivisions: u16) -> (r: Result<
    MeshData<AnnulusVertex>,
    InvalidGeometryError,
>)
    requires
        6 * subdivisions <= u16::MAX,
    ensures
        r is Err <==> subdivisions == 0,
        r matches Ok(mesh) ==> {
            &&& mesh.vertices@ == annulus_vertices(subdivisions)
            &&& mesh.indices@ == annulus_indices(subdivisions)
            &&& mesh.wf()
        },
{
    if subdivisions == 0 {
        return Err(InvalidGeometryError);
    }
    let mut vertices: Vec<AnnulusVertex> = Vec::new();
    let mut indices: Vec<u16> = Vec::new();
    let mut i: u16 = 0;
    while i < subdivisions
        invariant
            i <= subdivisions,
            6 * subdivisions <= u16::MAX,
            vertices@.len() == 6 * i,
            indices@.len() == 6 * i,
            forall|j: int|
                0 <= j < vertices@.len() ==> #[trigger] vertices@[j] == annulus_vertex_at(j),
            forall|j: int| 0 <= j < indices@.len() ==> #[trigger] indices@[j] == j as u16,
        decreases subdivisions - i,
    {
        let base: u16 = 6 * i;
        vertices.push(AnnulusVertex { ring: Ring::Outer, step: i });
        vertices.push(AnnulusVertex { ring: Ring::Outer, step: i + 1 });
        vertices.push(AnnulusVertex { ring: Ring::Inner, step: i });
        vertices.push(AnnulusVertex { ring: Ring::Inner, step: i });
        vertices.push(AnnulusVertex { ring: Ring::Outer, step: i + 1 });
        vertices.push(AnnulusVertex { ring: Ring::Inner, step: i + 1 });
        indices.push(base);
        indices.push(base + 1);
        indices.push(base + 2);
        indices.push(base + 3);
        indices.push(base + 4);
        indices.push(base + 5);
        proof {
            lemma_annulus_vertex_at(i as int, 0);
            lemma_annulus_vertex_at(i as int, 1);
            lemma_annulus_vertex_at(i as int, 2);
            lemma_annulus_vertex_at(i as int, 3);
            lemma_annulus_vertex_at(i as int, 4);
            lemma_annulus_vertex_at(i as int, 5);
        }
        i = i + 1;
    }
    let mesh = MeshData { vertices, indices };
    proof {
        assert(mesh.vertices@ =~= annulus_vertices(subdivisions));
        assert(mesh.indices@ =~= annulus_indices(subdivisions));
    }
    Ok(mesh)
}

/// The vertex at position `j` of the polygon vertex array: the fan center
/// first, then rim vertices at steps `0 ..= sides` (the last rim vertex
/// repeats the first angle and closes the fan).
pub open spec fn polygon_vertex_at(j: int) -> PolygonVertexKind {
    if j == 0 {
        PolygonVertexKind::Center
    } else {
        PolygonVertexKind::Rim { step: (j - 1) as u16 }
    }
}

/// The whole polygon vertex array: one center plus `sides + 1` rim
/// vertices.
pub open spec fn polygon_vertices(sides: u16) -> Seq<PolygonVertexKind> {
    Seq::new((sides + 2) as nat, |j: int| polygon_vertex_at(j))
}

/// The index at position `j` of the polygon index array: triangle `t`
/// (counted from zero) is `(0, t + 1, t + 2)`, the fan triangle between
/// rim steps `t` and `t + 1`.
pub open spec fn polygon_index_at(j: int) -> u16 {
    let t = j / 3;
    let k = j % 3;
    if k == 0 {
        0u16
    } else if k == 1 {
        (t + 1) as u16
    } else {
        (t + 2) as u16
    }
}

/// The whole polygon index array: three indices for each of `sides`
/// triangles.
pub open spec fn polygon_indices(sides: u16) -> Seq<u16> {
    Seq::new((3 * sides) as nat, |j: int| polygon_index_at(j))
}

/// Unfold `polygon_index_at` at position `3 * t + k`: corner `k` of fan
/// triangle `t`.
pub proof fn lemma_polygon_index_at(t: int, k: int)
    requires
        0 <= t,
        0 <= k < 3,
    ensures
        polygon_index_at(3 * t + k) == (if k == 0 {
            0u16
        } else if k == 1 {
            (t + 1) as u16
        } else {
            (t + 2) as u16
        }),
{
    assert((3 * t + k) / 3 == t && (3 * t + k) % 3 == k) by (nonlinear_arith)
        requires
            0 <= t,
            0 <= k < 3,
    ;
}

/// Generate the regular-polygon fan schedule: a center vertex, `sides + 1`
/// rim vertices, and the fan triangles `(0, i, i + 1)` for `i` in
/// `1 ..= sides`; an error exactly when `sides` is less than three.
pub fn generate_regular_polygon(sides: u16) -> (r: Result<
    MeshData<PolygonVertexKind>,
    InvalidGeometryError,
>)
    requires
        sides + 1 <= u16::MAX,
    ensures
        r is Err <==> sides < 3,
        r matches Ok(mesh) ==> {
            &&& mesh.vertices@ == polygon_vertices(sides)
            &&& mesh.indices@ == polygon_indices(sides)
            &&& mesh.wf()
        },
{
    if sides < 3 {
        return Err(InvalidGeometryError);
    }
    let mut vertices: Vec<PolygonVertexKind> = Vec::new();
    vertices.push(PolygonVertexKind::Center);
    let mut s: u16 = 0;
    while s <= sides
        invariant
            s <= sides + 1,
            sides + 1 <= u16::MAX,
            vertices@.len() == s + 1,
            forall|j: int|
                0 <= j < vertices@.len() ==> #[trigger] vertices@[j] == polygon_vertex_at(j),
        decreases sides + 1 - s,
    {
        vertices.push(PolygonVertexKind::Rim { step: s });
        s = s + 1;
    }
    let mut indices: Vec<u16> = Vec::new();
    let mut t: u16 = 0;
    while t < sides
        invariant
            t <= sides,
            sides + 1 <= u16::MAX,
            sides >= 3,
            indices@.len() == 3 * t,
            forall|j: int| 0 <= j < indices@.len() ==> #[trigger] indices@[j] == polygon_index_at(j),
        decreases sides - t,
    {
        indices.push(0);
        indices.push(t + 1);
        indices.push(t + 2);
        proof {
            lemma_polygon_index_at(t as int, 0);
            lemma_polygon_index_at(t as int, 1);
            lemma_polygon_index_at(t as int, 2);
        }
        t = t + 1;
    }
    let mesh = MeshData { vertices, indices };
    proof {
        assert(mesh.vertices@ =~= polygon_vertices(sides));
        assert(mesh.indices@ =~= polygon_indices(sides));
        assert forall|j: int| 0 <= j < mesh.indices@.len() implies (#[trigger] mesh.indices@[j])
            < mesh.vertices@.len() by {
            lemma_polygon_index_at(j / 3, j % 3);
            assert(3 * (j / 3) + j % 3 == j) by (nonlinear_arith);
            assert(j / 3 < sides) by (nonlinear_arith)
                requires
                    0 <= j < 3 * sides,
            ;
        }
    }
    Ok(mesh)
}

/// Every polygon index is in range: the fan has exactly `sides + 2`
/// vertices and `3 * sides` indices, and each index denotes an existing
/// vertex.
pub proof fn lemma_polygon_indices_in_range(sides: u16)
    requires
        3 <= sides,
        sides + 1 <= u16::MAX,
    ensures
        polygon_vertices(sides).len() == sides + 2,
        polygon_indices(sides).len() == 3 * sides,
        forall|j: int|
            0 <= j < polygon_indices(sides).len() ==> (#[trigger] polygon_indices(sides)[j])
                < polygon_vertices(sides).len(),
{
    assert forall|j: int| 0 <= j < polygon_indices(sides).len() implies (#[trigger] polygon_indices(
        sides,
    )[j]) < polygon_vertices(sides).len() by {
        lemma_polygon_index_at(j / 3, j % 3);
        assert(3 * (j / 3) + j % 3 == j) by (nonlinear_arith);
        assert(j / 3 < sides) by (nonlinear_arith)
            requires
                0 <= j < 3 * sides,
        ;
    }
}

/// Every annulus index is in range: the schedule has exactly
/// `6 * subdivisions` vertices and `6 * subdivisions` indices, and each
/// index denotes an existing vertex.
pub proof fn lemma_annulus_indices_in_range(subdivisions: u16)
    requires
        subdivisions >= 1,
        6 * subdivisions <= u16::MAX,
    ensures
        annulus_vertices(subdivisions).len() == 6 * subdivisions,
        annulus_indices(subdivisions).len() == 6 * subdivisions,
        forall|j: int|
            0 <= j < annulus_indices(subdivisions).len() ==> (#[trigger] annulus_indices(
                subdivisions,
            )[j]) < annulus_vertices(subdivisions).len(),
{
}

} // verus!

