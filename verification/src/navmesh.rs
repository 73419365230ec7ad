//! The navigation mesh graph: conversion from a voxel polygon mesh and the
//! structural validation a mesh must pass before it may be attached to an
//! island.

use vstd::prelude::*;
use crate::vec3::{Vec3I, fits3, spec_transform, lemma_transform_invertible};
use crate::voxel::{
    VoxelMesh, VoxelModel, NO_INDEX, kept, count_live, lemma_kept_len,
    lemma_all_sentinel_kept_empty,
};
use vstd::arithmetic::div_mod::lemma_fundamental_div_mod;
use vstd::arithmetic::mul::lemma_mul_inequality;

verus! {

/// Mathematical model of a navigation mesh.
#[verifier::ext_equal]
pub ghost struct MeshModel {
    /// World-space vertex positions, in fixed-point units.
    pub vertices: Seq<(int, int, int)>,
    /// Variable-length polygons, each an ordered list of vertex indices.
    pub polygons: Seq<Seq<int>>,
    /// Per-polygon type index, parallel to `polygons`.
    pub type_indices: Seq<int>,
}

/// A sequence of vertex indices, seen as mathematical integers.
pub open spec fn indices_view(s: Seq<usize>) -> Seq<int> {
    s.map_values(|u: usize| u as int)
}

/// A navigation mesh in world space, ready for a path-steering consumer once
/// it has passed `validate`.
#[derive(Clone, PartialEq, Eq, Debug)]
pub struct NavMesh {
    /// World-space vertex positions.
    pub vertices: Vec<Vec3I>,
    /// Variable-length polygons, each an ordered list of indices into
    /// `vertices`.
    pub polygons: Vec<Vec<usize>>,
    /// Per-polygon type index, parallel to `polygons`.
    pub polygon_type_indices: Vec<usize>,
}

impl View for NavMesh {
    type V = MeshModel;

    open spec fn view(&self) -> MeshModel {
        MeshModel {
            vertices: self.vertices@.map_values(|v: Vec3I| v@),
            polygons: self.polygons@.map_values(|p: Vec<usize>| indices_view(p@)),
            type_indices: self.polygon_type_indices@.map_values(|t: usize| t as int),
        }
    }
}

/// The navigation mesh a voxel polygon mesh converts to: every vertex runs
/// through the affine transform with scale `(cell_size, cell_height,
/// cell_size)`, every polygon row is filtered of the sentinel with its order
/// kept, and every area id is copied verbatim.
pub open spec fn spec_convert(vm: VoxelModel) -> MeshModel {
    MeshModel {
        vertices: Seq::new(
            vm.vertices.len(),
            |i: int| spec_transform(vm.origin, vm.cell_size, vm.cell_height, vm.vertices[i]),
        ),
        polygons: Seq::new(vm.poly_count() as nat, |i: int| kept(vm.row(i))),
        type_indices: vm.areas,
    }
}

/// Row `p` of a well-formed table lies inside the flattened sequence.
pub proof fn lemma_row_in_table(len: int, nvp: int, p: int)
    requires
        nvp >= 1,
        len >= 0,
        len % nvp == 0,
        0 <= p < len / nvp,
    ensures
        0 <= p * nvp,
        p * nvp + nvp <= len,
{
    lemma_fundamental_div_mod(len, nvp);
    lemma_mul_inequality(p + 1, len / nvp, nvp);
    lemma_mul_inequality(0, p, nvp);
    assert((p + 1) * nvp == p * nvp + nvp) by (nonlinear_arith);
    assert((len / nvp) * nvp == nvp * (len / nvp)) by (nonlinear_arith);
}

/// Converts a voxel polygon mesh into a navigation mesh. A sentinel-padded or
/// even all-sentinel row is not an error here: it merely yields a shorter (or
/// empty) polygon, and validation decides afterwards what may be attached.
pub fn convert(m: &VoxelMesh) -> (r: NavMesh)
    requires
        m@.well_formed(),
    ensures
        r@ == spec_convert(m@),
{
    let ghost c = spec_convert(m@);
    let nvp = m.max_vertices_per_polygon;
    let count = m.polygons.len() / nvp;

    let mut vertices: Vec<Vec3I> = Vec::new();
    let mut i: usize = 0;
    while i < m.vertices.len()
        invariant
            m@.well_formed(),
            c == spec_convert(m@),
            0 <= i <= m.vertices@.len(),
            vertices@.len() == i,
            forall|j: int| 0 <= j < i ==> (#[trigger] vertices@[j])@ == c.vertices[j],
        decreases m.vertices@.len() - i,
    {
        proof {
            assert(m@.vertices[i as int] == m.vertices@[i as int]@);
            assert(fits3(m@.vertices[i as int]));
        }
        let w = m.vertices[i].transformed(m.origin, m.cell_size, m.cell_height);
        vertices.push(w);
        i = i + 1;
    }

    let mut polygons: Vec<Vec<usize>> = Vec::new();
    let mut p: usize = 0;
    while p < count
        invariant
            m@.well_formed(),
            c == spec_convert(m@),
            nvp == m.max_vertices_per_polygon,
            count == m@.poly_count(),
            m.polygons@.len() == m@.polygons.len(),
            m@.polygons.len() <= usize::MAX,
            0 <= p <= count,
            polygons@.len() == p,
            forall|q: int| 0 <= q < p ==> indices_view((#[trigger] polygons@[q])@) == c.polygons[q],
        decreases count - p,
    {
        proof {
            lemma_row_in_table(m@.polygons.len() as int, m@.max_vertices_per_polygon, p as int);
        }
        let base = p * nvp;
        let ghost row = m@.row(p as int);
        let mut poly: Vec<usize> = Vec::new();
        let mut j: usize = 0;
        while j < nvp
            invariant
                m@.well_formed(),
                nvp == m.max_vertices_per_polygon,
                m.polygons@.len() == m@.polygons.len(),
                m@.polygons.len() <= usize::MAX,
                base == p as int * nvp as int,
                0 <= base,
                base + nvp <= m.polygons@.len(),
                0 <= p < count,
                count == m@.poly_count(),
                row == m@.row(p as int),
                0 <= j <= nvp,
                indices_view(poly@) == kept(row.take(j as int)),
            decreases nvp - j,
        {
            let entry = m.polygons[base + j];
            proof {
                assert(row[j as int] == m@.polygons[base + j as int]);
                assert(m@.polygons[base + j as int] == m.polygons@[base + j as int] as int);
                assert(row.take(j as int + 1).drop_last() =~= row.take(j as int));
                assert(row.take(j as int + 1).last() == row[j as int]);
            }
            if entry != NO_INDEX {
                poly.push(entry as usize);
                proof {
                    assert(indices_view(poly@) =~= kept(row.take(j as int + 1)));
                }
            } else {
                proof {
                    assert(indices_view(poly@) =~= kept(row.take(j as int + 1)));
                }
            }
            j = j + 1;
        }
        proof {
            assert(row.take(nvp as int) =~= row);
            assert(indices_view(poly@) == c.polygons[p as int]);
        }
        polygons.push(poly);
        p = p + 1;
    }

    let mut type_indices: Vec<usize> = Vec::new();
    let mut k: usize = 0;
    while k < m.areas.len()
        invariant
            m.areas@.len() == m@.areas.len(),
            0 <= k <= m.areas@.len(),
            type_indices@.len() == k,
            forall|q: int|
                0 <= q < k ==> (#[trigger] type_indices@[q]) as int == m@.areas[q],
        decreases m.areas@.len() - k,
    {
        let a = m.areas[k];
        type_indices.push(a as usize);
        k = k + 1;
    }

    let r = NavMesh { vertices, polygons, polygon_type_indices: type_indices };
    proof {
        assert(r@.vertices =~= c.vertices);
        assert(r@.polygons =~= c.polygons);
        assert(r@.type_indices =~= c.type_indices);
        assert(r@ =~= c);
    }
    r
}

/// A converted polygon holds exactly the non-sentinel entries of its row:
/// never more entries than the row is wide.
pub proof fn lemma_converted_polygon_counts(vm: VoxelModel, i: int)
    requires
        vm.well_formed(),
        0 <= i < vm.poly_count(),
    ensures
        spec_convert(vm).polygons[i].len() == count_live(vm.row(i)),
        spec_convert(vm).polygons[i].len() <= vm.max_vertices_per_polygon,
{
    lemma_row_in_table(vm.polygons.len() as int, vm.max_vertices_per_polygon, i);
    lemma_kept_len(vm.row(i));
}

/// The conversion's vertex transform is invertible: dividing a converted
/// vertex's offset from the origin by the per-axis scale recovers the voxel
/// coordinate exactly.
pub proof fn lemma_converted_vertex_invertible(vm: VoxelModel, i: int)
    requires
        vm.well_formed(),
        0 <= i < vm.vertices.len(),
    ensures
        (spec_convert(vm).vertices[i].0 - vm.origin.0) / vm.cell_size == vm.vertices[i].0,
        (spec_convert(vm).vertices[i].1 - vm.origin.1) / vm.cell_height == vm.vertices[i].1,
        (spec_convert(vm).vertices[i].2 - vm.origin.2) / vm.cell_size == vm.vertices[i].2,
{
    lemma_transform_invertible(vm.origin, vm.cell_size, vm.cell_height, vm.vertices[i]);
}

/// The reasons a navigation mesh fails validation.
#[derive(Clone, Copy, PartialEq, Eq, Structural, Debug)]
pub enum ValidationError {
    /// The per-polygon type list is not parallel to the polygon list.
    MismatchedTypeIndices,
    /// A polygon has fewer than three vertices (an empty polygon included).
    NotEnoughVertices { polygon: usize },
    /// A polygon references a vertex outside the vertex list.
    IndexOutOfRange { polygon: usize },
    /// A polygon lists the same vertex twice, so some edge is degenerate.
    RepeatedVertex { polygon: usize },
    /// A polygon is identical to an earlier one.
    DuplicatePolygon { polygon: usize },
}

/// Some entry of the index sequence does not reference a vertex.
pub open spec fn seq_oob(s: Seq<int>, vcount: int) -> bool {
    exists|j: int| 0 <= j < s.len() && !(0 <= #[trigger] s[j] < vcount)
}

/// Some vertex appears twice in the index sequence.
pub open spec fn seq_repeat(s: Seq<int>) -> bool {
    exists|j: int, k: int| 0 <= j < k < s.len() && s[j] == s[k]
}

/// Polygon `i` has fewer than three vertices.
pub open spec fn poly_short(m: MeshModel, i: int) -> bool {
    m.polygons[i].len() < 3
}

/// Polygon `i` references a vertex out of range.
pub open spec fn poly_oob(m: MeshModel, i: int) -> bool {
    seq_oob(m.polygons[i], m.vertices.len() as int)
}

/// Polygon `i` repeats a vertex.
pub open spec fn poly_repeat(m: MeshModel, i: int) -> bool {
    seq_repeat(m.polygons[i])
}

/// Polygon `i` duplicates an earlier polygon.
pub open spec fn poly_dup(m: MeshModel, i: int) -> bool {
    exists|j: int| 0 <= j < i && #[trigger] m.polygons[j] == m.polygons[i]
}

/// Polygon `i` is degenerate, malformed or a duplicate.
pub open spec fn flawed(m: MeshModel, i: int) -> bool {
    poly_short(m, i) || poly_oob(m, i) || poly_repeat(m, i) || poly_dup(m, i)
}

/// A structurally valid navigation mesh: one type index per polygon and no
/// flawed polygon. Deeper connectivity checks belong to the path-steering
/// consumer.
pub open spec fn valid_mesh(m: MeshModel) -> bool {
    &&& m.type_indices.len() == m.polygons.len()
    &&& forall|i: int| 0 <= i < m.polygons.len() ==> !flawed(m, i)
}

/// The error reported for a flawed polygon, in check order.
pub open spec fn flaw_error(m: MeshModel, i: int) -> ValidationError {
    if poly_short(m, i) {
        ValidationError::NotEnoughVertices { polygon: i as usize }
    } else if poly_oob(m, i) {
        ValidationError::IndexOutOfRange { polygon: i as usize }
    } else if poly_repeat(m, i) {
        ValidationError::RepeatedVertex { polygon: i as usize }
    } else {
        ValidationError::DuplicatePolygon { polygon: i as usize }
    }
}

/// The first flawed polygon of the mesh.
pub open spec fn first_flaw(m: MeshModel) -> int {
    choose|i: int|
        0 <= i < m.polygons.len() && flawed(m, i) && (forall|j: int| 0 <= j < i ==> !flawed(m, j))
}

/// What validation decides for a mesh: the parallel-list check first, then the
/// polygons in order, each checked for length, range, repeats and duplicates
/// in that order.
pub open spec fn spec_validation(m: MeshModel) -> Result<(), ValidationError> {
    if m.type_indices.len() != m.polygons.len() {
        Err(ValidationError::MismatchedTypeIndices)
    } else if exists|i: int| 0 <= i < m.polygons.len() && flawed(m, i) {
        Err(flaw_error(m, first_flaw(m)))
    } else {
        Ok(())
    }
}

/// If polygon `p` is flawed and no earlier polygon is, `p` is the first flaw.
pub proof fn lemma_first_flaw_at(m: MeshModel, p: int)
    requires
        0 <= p < m.polygons.len(),
        flawed(m, p),
        forall|j: int| 0 <= j < p ==> !flawed(m, j),
    ensures
        first_flaw(m) == p,
        exists|i: int| 0 <= i < m.polygons.len() && flawed(m, i),
{
    assert(0 <= p < m.polygons.len() && flawed(m, p) && (forall|j: int|
        0 <= j < p ==> !flawed(m, j)));
    let f = first_flaw(m);
    assert(0 <= f < m.polygons.len() && flawed(m, f) && (forall|j: int|
        0 <= j < f ==> !flawed(m, j)));
    if f < p {
        assert(!flawed(m, f));
    }
    if p < f {
        assert(!flawed(m, p));
    }
}

/// Whether some entry of the polygon lies outside the vertex list.
fn has_oob(poly: &Vec<usize>, vcount: usize) -> (b: bool)
    ensures
        b == seq_oob(indices_view(poly@), vcount as int),
{
    let ghost s = indices_view(poly@);
    let mut j: usize = 0;
    while j < poly.len()
        invariant
            s == indices_view(poly@),
            0 <= j <= poly@.len(),
            forall|a: int| 0 <= a < j ==> 0 <= #[trigger] s[a] < vcount as int,
        decreases poly@.len() - j,
    {
        if poly[j] >= vcount {
            proof {
                assert(s[j as int] == poly@[j as int] as int);
                assert(!(0 <= s[j as int] < vcount as int));
            }
            return true;
        }
        proof {
            assert(s[j as int] == poly@[j as int] as int);
        }
        j = j + 1;
    }
    false
}

/// Whether the polygon lists the same vertex twice.
fn has_repeat(poly: &Vec<usize>) -> (b: bool)
    ensures
        b == seq_repeat(indices_view(poly@)),
{
    let ghost s = indices_view(poly@);
    let n = poly.len();
    let mut j: usize = 0;
    while j < n
        invariant
            s == indices_view(poly@),
            n == poly@.len(),
            0 <= j <= n,
            forall|a: int, b: int| 0 <= a < j && a < b < n ==> s[a] != s[b],
        decreases n - j,
    {
        let mut k: usize = j + 1;
        while k < n
            invariant
                s == indices_view(poly@),
                n == poly@.len(),
                0 <= j < n,
                j < k <= n,
                forall|b: int| j < b < k ==> s[j as int] != #[trigger] s[b],
            decreases n - k,
        {
            if poly[j] == poly[k] {
                proof {
                    assert(s[j as int] == poly@[j as int] as int);
                    assert(s[k as int] == poly@[k as int] as int);
                    assert(s[j as int] == s[k as int]);
                }
                return true;
            }
            proof {
                assert(s[j as int] == poly@[j as int] as int);
                assert(s[k as int] == poly@[k as int] as int);
            }
            k = k + 1;
        }
        j = j + 1;
    }
    false
}

/// Whether two polygons list exactly the same vertices in the same order.
fn same_polygon(a: &Vec<usize>, b: &Vec<usize>) -> (r: bool)
    ensures
        r == (indices_view(a@) == indices_view(b@)),
{
    if a.len() != b.len() {
        proof {
            assert(indices_view(a@).len() != indices_view(b@).len());
        }
        return false;
    }
    let mut i: usize = 0;
    while i < a.len()
        invariant
            a@.len() == b@.len(),
            0 <= i <= a@.len(),
            forall|j: int| 0 <= j < i ==> indices_view(a@)[j] == indices_view(b@)[j],
        decreases a@.len() - i,
    {
        if a[i] != b[i] {
            proof {
                assert(indices_view(a@)[i as int] == a@[i as int] as int);
                assert(indices_view(b@)[i as int] == b@[i as int] as int);
                assert(indices_view(a@)[i as int] != indices_view(b@)[i as int]);
            }
            return false;
        }
        proof {
            assert(indices_view(a@)[i as int] == a@[i as int] as int);
            assert(indices_view(b@)[i as int] == b@[i as int] as int);
        }
        i = i + 1;
    }
    proof {
        assert(indices_view(a@) =~= indices_view(b@));
    }
    true
}

/// Structural validation of a navigation mesh. Returns `Ok` exactly for a
/// valid mesh; otherwise the first failure in check order, so that an empty or
/// otherwise degenerate polygon can never reach an island.
pub fn validate(mesh: &NavMesh) -> (r: Result<(), ValidationError>)
    ensures
        r == spec_validation(mesh@),
        r is Ok <==> valid_mesh(mesh@),
{
    let ghost m = mesh@;
    if mesh.polygon_type_indices.len() != mesh.polygons.len() {
        return Err(ValidationError::MismatchedTypeIndices);
    }
    let vcount = mesh.vertices.len();
    let n = mesh.polygons.len();
    let mut p: usize = 0;
    while p < n
        invariant
            m == mesh@,
            n == m.polygons.len(),
            vcount == m.vertices.len(),
            m.type_indices.len() == m.polygons.len(),
            0 <= p <= n,
            forall|q: int| 0 <= q < p ==> !flawed(m, q),
        decreases n - p,
    {
        let poly = &mesh.polygons[p];
        proof {
            assert(m.polygons[p as int] == indices_view(mesh.polygons@[p as int]@));
        }
        if poly.len() < 3 {
            proof {
                lemma_first_flaw_at(m, p as int);
            }
            return Err(ValidationError::NotEnoughVertices { polygon: p });
        }
        if has_oob(poly, vcount) {
            proof {
                lemma_first_flaw_at(m, p as int);
            }
            return Err(ValidationError::IndexOutOfRange { polygon: p });
        }
        if has_repeat(poly) {
            proof {
                lemma_first_flaw_at(m, p as int);
            }
            return Err(ValidationError::RepeatedVertex { polygon: p });
        }
        let mut q: usize = 0;
        while q < p
            invariant
                m == mesh@,
                n == m.polygons.len(),
                m.type_indices.len() == m.polygons.len(),
                0 <= p < n,
                0 <= q <= p,
                m.polygons[p as int] == indices_view(mesh.polygons@[p as int]@),
                !poly_short(m, p as int),
                !poly_oob(m, p as int),
                !poly_repeat(m, p as int),
                forall|a: int| 0 <= a < q ==> #[trigger] m.polygons[a] != m.polygons[p as int],
                forall|a: int| 0 <= a < p ==> !flawed(m, a),
            decreases p - q,
        {
            proof {
                assert(m.polygons[q as int] == indices_view(mesh.polygons@[q as int]@));
            }
            if same_polygon(&mesh.polygons[q], &mesh.polygons[p]) {
                proof {
                    assert(poly_dup(m, p as int));
                    lemma_first_flaw_at(m, p as int);
                }
                return Err(ValidationError::DuplicatePolygon { polygon: p });
            }
            q = q + 1;
        }
        proof {
            assert(!poly_dup(m, p as int));
            assert(!flawed(m, p as int));
        }
        p = p + 1;
    }
    proof {
        assert(valid_mesh(m));
        assert(!(exists|i: int| 0 <= i < m.polygons.len() && flawed(m, i)));
    }
    Ok(())
}

/// The whole bridge step on one mesh: converts a voxel polygon mesh and
/// validates the result. Returns the converted navigation mesh exactly when
/// it is structurally valid, and the first validation failure otherwise; the
/// caller must not attach anything on an error.
pub fn convert_validated(m: &VoxelMesh) -> (r: Result<NavMesh, ValidationError>)
    requires
        m@.well_formed(),
    ensures
        r matches Ok(nav) ==> nav@ == spec_convert(m@) && valid_mesh(nav@),
        r matches Err(e) ==> Err::<(), ValidationError>(e) == spec_validation(spec_convert(m@)),
        r is Ok <==> valid_mesh(spec_convert(m@)),
{
    let nav = convert(m);
    match validate(&nav) {
        Ok(()) => Ok(nav),
        Err(e) => Err(e),
    }
}

/// A polygon row made only of sentinel entries converts to an empty polygon,
/// and a mesh with such a polygon can never pass validation.
pub proof fn lemma_sentinel_row_rejected(vm: VoxelModel, i: int)
    requires
        vm.well_formed(),
        0 <= i < vm.poly_count(),
        forall|j: int| 0 <= j < vm.row(i).len() ==> #[trigger] vm.row(i)[j] == NO_INDEX as int,
    ensures
        spec_convert(vm).polygons[i].len() == 0,
        !valid_mesh(spec_convert(vm)),
{
    lemma_all_sentinel_kept_empty(vm.row(i));
    let c = spec_convert(vm);
    assert(c.polygons[i].len() == 0);
    assert(poly_short(c, i));
    assert(flawed(c, i));
}

} // verus!
