//! The voxelized walkable-surface mesh: integer voxel vertices, a fixed-width
//! polygon table padded with a sentinel, and per-polygon area ids.

use vstd::prelude::*;
use crate::vec3::{Vec3I, fits, fits3, fits_vec};

verus! {

/// The reserved entry marking an unused slot in a fixed-width polygon row.
pub const NO_INDEX: u16 = 0xffff;

/// Mathematical model of a voxel polygon mesh.
#[verifier::ext_equal]
pub ghost struct VoxelModel {
    /// World-space origin of the voxel grid, in fixed-point units.
    pub origin: (int, int, int),
    /// Horizontal extent of one voxel cell (applied on the x and z axes).
    pub cell_size: int,
    /// Vertical extent of one voxel cell (applied on the y axis).
    pub cell_height: int,
    /// Integer voxel coordinates of the mesh vertices.
    pub vertices: Seq<(int, int, int)>,
    /// Flattened polygon table: rows of `max_vertices_per_polygon` vertex
    /// indices each, padded with `NO_INDEX`.
    pub polygons: Seq<int>,
    /// Width of each polygon row.
    pub max_vertices_per_polygon: int,
    /// Area id of each polygon, parallel to the rows of `polygons`.
    pub areas: Seq<int>,
}

impl VoxelModel {
    /// Number of polygon rows in the table.
    pub open spec fn poly_count(self) -> int {
        self.polygons.len() as int / self.max_vertices_per_polygon
    }

    /// Row `i` of the polygon table.
    pub open spec fn row(self, i: int) -> Seq<int> {
        self.polygons.subrange(
            i * self.max_vertices_per_polygon,
            i * self.max_vertices_per_polygon + self.max_vertices_per_polygon,
        )
    }

    /// Structural invariant of the voxel mesh: a positive row width, a table
    /// made of whole rows, one area id per row, positive cell scales, and all
    /// scalars small enough for exact fixed-point arithmetic.
    pub open spec fn well_formed(self) -> bool {
        &&& self.max_vertices_per_polygon >= 1
        &&& self.polygons.len() as int % self.max_vertices_per_polygon == 0
        &&& self.areas.len() == self.poly_count()
        &&& fits(self.origin.0) && fits(self.origin.1) && fits(self.origin.2)
        &&& 0 < self.cell_size && fits(self.cell_size)
        &&& 0 < self.cell_height && fits(self.cell_height)
        &&& forall|i: int| 0 <= i < self.vertices.len() ==> fits3(#[trigger] self.vertices[i])
    }
}

/// A voxel polygon mesh as handed over by the voxelizer, with fixed-point
/// scalars in place of the host engine's floating-point ones.
#[derive(Clone, PartialEq, Eq, Debug)]
pub struct VoxelMesh {
    /// World-space origin of the voxel grid.
    pub origin: Vec3I,
    /// Horizontal extent of one voxel cell.
    pub cell_size: i64,
    /// Vertical extent of one voxel cell.
    pub cell_height: i64,
    /// Integer voxel coordinates of the mesh vertices.
    pub vertices: Vec<Vec3I>,
    /// Flattened polygon table, `NO_INDEX`-padded rows.
    pub polygons: Vec<u16>,
    /// Width of each polygon row.
    pub max_vertices_per_polygon: usize,
    /// Area id of each polygon.
    pub areas: Vec<u8>,
}

impl View for VoxelMesh {
    type V = VoxelModel;

    open spec fn view(&self) -> VoxelModel {
        VoxelModel {
            origin: self.origin@,
            cell_size: self.cell_size as int,
            cell_height: self.cell_height as int,
            vertices: self.vertices@.map_values(|v: Vec3I| v@),
            polygons: self.polygons@.map_values(|e: u16| e as int),
            max_vertices_per_polygon: self.max_vertices_per_polygon as int,
            areas: self.areas@.map_values(|a: u8| a as int),
        }
    }
}

impl VoxelMesh {
    /// Runtime check of the structural invariant, so that unverified callers
    /// can establish it before handing a mesh to the conversion.
    pub fn check_well_formed(&self) -> (r: bool)
        ensures
            r == self@.well_formed(),
    {
        if self.max_vertices_per_polygon < 1 {
            return false;
        }
        if self.polygons.len() % self.max_vertices_per_polygon != 0 {
            return false;
        }
        if self.areas.len() != self.polygons.len() / self.max_vertices_per_polygon {
            return false;
        }
        if !(fits_i64(self.origin.x) && fits_i64(self.origin.y) && fits_i64(self.origin.z)) {
            return false;
        }
        if !(0 < self.cell_size && fits_i64(self.cell_size)) {
            return false;
        }
        if !(0 < self.cell_height && fits_i64(self.cell_height)) {
            return false;
        }
        let mut i: usize = 0;
        while i < self.vertices.len()
            invariant
                0 <= i <= self.vertices@.len(),
                forall|j: int| 0 <= j < i ==> fits_vec(#[trigger] self.vertices@[j]),
            decreases self.vertices@.len() - i,
        {
            let v = self.vertices[i];
            if !(fits_i64(v.x) && fits_i64(v.y) && fits_i64(v.z)) {
                proof {
                    assert(self@.vertices[i as int] == self.vertices@[i as int]@);
                    assert(!fits3(self@.vertices[i as int]));
                }
                return false;
            }
            i = i + 1;
        }
        true
    }
}

/// Runtime counterpart of `fits`.
pub fn fits_i64(n: i64) -> (r: bool)
    ensures
        r == fits(n as int),
{
    -0x4000_0000 < n && n < 0x4000_0000
}

/// The non-sentinel entries of a polygon row, in order.
pub open spec fn kept(row: Seq<int>) -> Seq<int>
    decreases row.len(),
{
    if row.len() == 0 {
        Seq::empty()
    } else if row.last() == NO_INDEX as int {
        kept(row.drop_last())
    } else {
        kept(row.drop_last()).push(row.last())
    }
}

/// How many entries of a polygon row are not the sentinel.
pub open spec fn count_live(row: Seq<int>) -> nat
    decreases row.len(),
{
    if row.len() == 0 {
        0
    } else if row.last() == NO_INDEX as int {
        count_live(row.drop_last())
    } else {
        count_live(row.drop_last()) + 1
    }
}

/// A polygon row keeps exactly its non-sentinel entries: the filtered row has
/// one entry per non-sentinel slot, and so never more entries than the row is
/// wide.
pub proof fn lemma_kept_len(row: Seq<int>)
    ensures
        kept(row).len() == count_live(row),
        kept(row).len() <= row.len(),
    decreases row.len(),
{
    if row.len() > 0 {
        lemma_kept_len(row.drop_last());
    }
}

/// A row made only of sentinel entries keeps nothing.
pub proof fn lemma_all_sentinel_kept_empty(row: Seq<int>)
    requires
        forall|j: int| 0 <= j < row.len() ==> row[j] == NO_INDEX as int,
    ensures
        kept(row).len() == 0,
    decreases row.len(),
{
    if row.len() > 0 {
        lemma_all_sentinel_kept_empty(row.drop_last());
    }
}

} // verus!
