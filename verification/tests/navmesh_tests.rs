use nav_core::bridge::{Island, NavmeshGenerator, GenerationSettings, ReadyOutcome, on_navmesh_ready};
use nav_core::navmesh::{NavMesh, ValidationError, convert, convert_validated, validate};
use nav_core::vec3::Vec3I;
use nav_core::voxel::{VoxelMesh, NO_INDEX};

fn v(x: i64, y: i64, z: i64) -> Vec3I {
    Vec3I { x, y, z }
}

/// A mesh whose single polygon row carries three valid indices and three
/// sentinel slots. Coordinates are fixed-point milliunits: cell_size 500 is
/// 0.5 units, cell_height 200 is 0.2 units.
fn sample_voxel_mesh() -> VoxelMesh {
    VoxelMesh {
        origin: v(0, 0, 0),
        cell_size: 500,
        cell_height: 200,
        vertices: vec![v(0, 0, 0), v(2, 0, 0), v(0, 0, 2)],
        polygons: vec![0, 1, 2, NO_INDEX, NO_INDEX, NO_INDEX],
        max_vertices_per_polygon: 6,
        areas: vec![3],
    }
}

#[test]
fn converts_concrete_mesh() {
    let m = sample_voxel_mesh();
    assert!(m.check_well_formed());
    let nav = convert(&m);
    // 0.5-unit cells: voxel (2,0,0) lands at 1.0 units = 1000 milliunits.
    assert_eq!(nav.vertices, vec![v(0, 0, 0), v(1000, 0, 0), v(0, 0, 1000)]);
    assert_eq!(nav.polygons, vec![vec![0usize, 1, 2]]);
    assert_eq!(nav.polygon_type_indices, vec![3usize]);
    assert!(validate(&nav).is_ok());
}

#[test]
fn polygon_keeps_only_non_sentinel_entries() {
    let m = VoxelMesh {
        origin: v(0, 0, 0),
        cell_size: 1,
        cell_height: 1,
        vertices: vec![v(0, 0, 0); 8],
        polygons: vec![5, NO_INDEX, 7, NO_INDEX],
        max_vertices_per_polygon: 4,
        areas: vec![0],
    };
    let nav = convert(&m);
    // Order is kept, sentinels vanish, never more entries than the row width.
    assert_eq!(nav.polygons, vec![vec![5usize, 7]]);
    assert!(nav.polygons[0].len() <= 4);
}

#[test]
fn transform_is_affine_in_origin_and_scales() {
    let m = VoxelMesh {
        origin: v(100, -50, 7),
        cell_size: 250,
        cell_height: 125,
        vertices: vec![v(3, 4, 5)],
        polygons: vec![],
        max_vertices_per_polygon: 3,
        areas: vec![],
    };
    let nav = convert(&m);
    // origin + voxel ⊙ (cell_size, cell_height, cell_size), per component.
    assert_eq!(nav.vertices, vec![v(100 + 3 * 250, -50 + 4 * 125, 7 + 5 * 250)]);
    // Dividing the offset by the scale recovers the voxel coordinate.
    let w = nav.vertices[0];
    assert_eq!((w.x - 100) / 250, 3);
    assert_eq!((w.y - -50) / 125, 4);
    assert_eq!((w.z - 7) / 250, 5);
}

#[test]
fn all_sentinel_row_yields_empty_polygon_and_fails_validation() {
    let m = VoxelMesh {
        origin: v(0, 0, 0),
        cell_size: 500,
        cell_height: 200,
        vertices: vec![v(0, 0, 0), v(2, 0, 0), v(0, 0, 2)],
        polygons: vec![
            0, 1, 2, NO_INDEX, NO_INDEX, NO_INDEX,
            NO_INDEX, NO_INDEX, NO_INDEX, NO_INDEX, NO_INDEX, NO_INDEX,
        ],
        max_vertices_per_polygon: 6,
        areas: vec![3, 3],
    };
    let nav = convert(&m);
    assert_eq!(nav.polygons.len(), 2);
    assert!(nav.polygons[1].is_empty());
    assert_eq!(
        validate(&nav),
        Err(ValidationError::NotEnoughVertices { polygon: 1 })
    );
}

#[test]
fn empty_mesh_is_valid() {
    let nav = NavMesh { vertices: vec![], polygons: vec![], polygon_type_indices: vec![] };
    assert_eq!(validate(&nav), Ok(()));
}

#[test]
fn validation_reports_mismatched_type_indices() {
    let nav = NavMesh {
        vertices: vec![v(0, 0, 0), v(1, 0, 0), v(0, 0, 1)],
        polygons: vec![vec![0, 1, 2]],
        polygon_type_indices: vec![],
    };
    assert_eq!(validate(&nav), Err(ValidationError::MismatchedTypeIndices));
}

#[test]
fn validation_reports_index_out_of_range() {
    let nav = NavMesh {
        vertices: vec![v(0, 0, 0), v(1, 0, 0), v(0, 0, 1)],
        polygons: vec![vec![0, 1, 3]],
        polygon_type_indices: vec![0],
    };
    assert_eq!(validate(&nav), Err(ValidationError::IndexOutOfRange { polygon: 0 }));
}

#[test]
fn validation_reports_repeated_vertex() {
    let nav = NavMesh {
        vertices: vec![v(0, 0, 0), v(1, 0, 0), v(0, 0, 1)],
        polygons: vec![vec![0, 1, 0]],
        polygon_type_indices: vec![0],
    };
    assert_eq!(validate(&nav), Err(ValidationError::RepeatedVertex { polygon: 0 }));
}

#[test]
fn validation_reports_duplicate_polygon() {
    let nav = NavMesh {
        vertices: vec![v(0, 0, 0), v(1, 0, 0), v(0, 0, 1)],
        polygons: vec![vec![0, 1, 2], vec![0, 1, 2]],
        polygon_type_indices: vec![0, 0],
    };
    assert_eq!(validate(&nav), Err(ValidationError::DuplicatePolygon { polygon: 1 }));
}

#[test]
fn validation_reports_first_flawed_polygon_in_check_order() {
    // Polygon 1 is both out of range and repeating; the range check comes
    // first. Polygon 2 is flawed too, but 1 is reported.
    let nav = NavMesh {
        vertices: vec![v(0, 0, 0), v(1, 0, 0), v(0, 0, 1)],
        polygons: vec![vec![0, 1, 2], vec![0, 9, 0], vec![1, 1, 1]],
        polygon_type_indices: vec![0, 0, 0],
    };
    assert_eq!(validate(&nav), Err(ValidationError::IndexOutOfRange { polygon: 1 }));
}

#[test]
fn well_formed_check_rejects_bad_tables() {
    let mut m = sample_voxel_mesh();
    m.areas = vec![];
    assert!(!m.check_well_formed());
    let mut m = sample_voxel_mesh();
    m.max_vertices_per_polygon = 0;
    assert!(!m.check_well_formed());
    let mut m = sample_voxel_mesh();
    m.polygons.push(NO_INDEX);
    assert!(!m.check_well_formed());
    let mut m = sample_voxel_mesh();
    m.cell_size = 0;
    assert!(!m.check_well_formed());
}

#[test]
fn convert_validated_returns_mesh_or_first_error() {
    let good = sample_voxel_mesh();
    let nav = convert_validated(&good).expect("a valid mesh");
    assert_eq!(nav.polygons, vec![vec![0usize, 1, 2]]);

    let mut bad = sample_voxel_mesh();
    bad.polygons = vec![NO_INDEX; 6];
    assert_eq!(
        convert_validated(&bad),
        Err(ValidationError::NotEnoughVertices { polygon: 0 })
    );
}

#[test]
fn generator_issues_fresh_handles() {
    let mut g = NavmeshGenerator::new();
    let s = GenerationSettings::from_agent(400, 1800);
    assert_eq!(s.agent_radius, 400);
    assert_eq!(s.agent_height, 1800);
    let h1 = g.generate(&s);
    let h2 = g.generate(&s);
    assert_ne!(h1, h2);
    assert_eq!(g.issued, 2);
}

#[test]
fn ready_without_asset_is_benign_skip() {
    let mut meshes: Vec<NavMesh> = vec![];
    let mut islands = vec![Island::new()];
    let outcome = on_navmesh_ready(None, &mut meshes, &mut islands, 0);
    assert_eq!(outcome, ReadyOutcome::NotReady);
    assert!(meshes.is_empty());
    assert_eq!(islands[0].nav_mesh, None);
}

#[test]
fn ready_with_invalid_mesh_attaches_nothing() {
    let m = VoxelMesh {
        origin: v(0, 0, 0),
        cell_size: 500,
        cell_height: 200,
        vertices: vec![v(0, 0, 0)],
        polygons: vec![NO_INDEX, NO_INDEX, NO_INDEX],
        max_vertices_per_polygon: 3,
        areas: vec![0],
    };
    assert!(m.check_well_formed());
    let mut meshes: Vec<NavMesh> = vec![];
    let mut islands = vec![Island::new(), Island::new()];
    let outcome = on_navmesh_ready(Some(&m), &mut meshes, &mut islands, 0);
    assert_eq!(
        outcome,
        ReadyOutcome::Invalid(ValidationError::NotEnoughVertices { polygon: 0 })
    );
    // No island acquires a mesh handle for this generation cycle.
    assert!(meshes.is_empty());
    assert_eq!(islands[0].nav_mesh, None);
    assert_eq!(islands[1].nav_mesh, None);
}

#[test]
fn ready_with_valid_mesh_publishes_and_attaches() {
    let m = sample_voxel_mesh();
    let mut meshes: Vec<NavMesh> = vec![];
    let mut islands = vec![Island::new(), Island::new()];
    let outcome = on_navmesh_ready(Some(&m), &mut meshes, &mut islands, 1);
    assert_eq!(outcome, ReadyOutcome::Attached { handle: 0 });
    assert_eq!(meshes.len(), 1);
    assert_eq!(meshes[0].polygons, vec![vec![0usize, 1, 2]]);
    assert_eq!(islands[0].nav_mesh, None);
    assert_eq!(islands[1].nav_mesh, Some(0));
}
