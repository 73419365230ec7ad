//! Bridging a finished voxel mesh to an island: generation requests, the
//! completion step, conversion and validation, and the attach decision.

use vstd::prelude::*;
use crate::voxel::VoxelMesh;
use crate::navmesh::{
    NavMesh, ValidationError, spec_convert, spec_validation, valid_mesh, convert_validated,
};

verus! {

/// Settings handed to the external voxelizer, derived deterministically from
/// the agent's shape.
#[derive(Clone, Copy, PartialEq, Eq, Structural, Debug)]
pub struct GenerationSettings {
    /// Radius of the agent the walkable surface is carved for.
    pub agent_radius: i64,
    /// Height of that agent.
    pub agent_height: i64,
}

impl GenerationSettings {
    /// Derives generation settings from an agent's radius and height.
    pub fn from_agent(agent_radius: i64, agent_height: i64) -> (s: GenerationSettings)
        ensures
            s.agent_radius == agent_radius,
            s.agent_height == agent_height,
    {
        GenerationSettings { agent_radius, agent_height }
    }
}

/// Issues generation requests. Every request gets a fresh pending handle, so
/// re-requesting before completion yields an independent handle and nothing is
/// deduplicated; completion arrives later through `on_navmesh_ready`.
pub struct NavmeshGenerator {
    /// Number of handles issued so far; handles `0 .. issued` are taken.
    pub issued: u64,
}

impl NavmeshGenerator {
    /// A generator that has issued no handle yet.
    pub fn new() -> (r: NavmeshGenerator)
        ensures
            r.issued == 0,
    {
        NavmeshGenerator { issued: 0 }
    }

    /// Requests one generation run and returns its pending handle, fresh among
    /// all handles this generator has issued.
    pub fn generate(&mut self, settings: &GenerationSettings) -> (h: u64)
        requires
            old(self).issued < u64::MAX,
        ensures
            h == old(self).issued,
            final(self).issued == old(self).issued + 1,
    {
        let _ = settings;
        let h = self.issued;
        self.issued = self.issued + 1;
        h
    }
}

/// A static navigable region. It references at most one navigation mesh, by
/// its handle in the published mesh table, attached only after validation.
#[derive(Clone, Copy, PartialEq, Eq, Debug)]
pub struct Island {
    /// Handle of the attached navigation mesh, if any.
    pub nav_mesh: Option<usize>,
}

impl Island {
    /// An island without navigation coverage.
    pub fn new() -> (r: Island)
        ensures
            r.nav_mesh is None,
    {
        Island { nav_mesh: None }
    }
}

/// What one completion signal led to.
#[derive(Clone, Copy, PartialEq, Eq, Debug)]
pub enum ReadyOutcome {
    /// The signalled asset is not in the table yet: a benign skip.
    NotReady,
    /// The converted mesh failed validation and was not attached.
    Invalid(ValidationError),
    /// The converted mesh was published under this handle and attached.
    Attached { handle: usize },
}

/// Handles one completion signal. `voxel` is the result of looking the
/// signalled asset up in the asset table; an absent asset is a benign skip.
/// A present mesh is converted and validated; only a valid mesh is published
/// (appended to `nav_meshes`) and attached to the requested island. On any
/// failure nothing changes: no island acquires a mesh handle.
pub fn on_navmesh_ready(
    voxel: Option<&VoxelMesh>,
    nav_meshes: &mut Vec<NavMesh>,
    islands: &mut Vec<Island>,
    island: usize,
) -> (r: ReadyOutcome)
    requires
        island < old(islands)@.len(),
        old(nav_meshes)@.len() < usize::MAX,
        voxel matches Some(vm) ==> vm@.well_formed(),
    ensures
        r is NotReady <==> voxel is None,
        voxel is None ==> final(nav_meshes)@ == old(nav_meshes)@ && final(islands)@ == old(islands)@,
        voxel is Some && spec_validation(spec_convert(voxel->Some_0@)) is Err ==> r
            == ReadyOutcome::Invalid(spec_validation(spec_convert(voxel->Some_0@))->Err_0)
            && final(nav_meshes)@ == old(nav_meshes)@ && final(islands)@ == old(islands)@,
        voxel is Some && valid_mesh(spec_convert(voxel->Some_0@)) ==> r == (ReadyOutcome::Attached {
            handle: old(nav_meshes)@.len() as usize,
        }),
        voxel is Some && valid_mesh(spec_convert(voxel->Some_0@)) ==> final(nav_meshes)@.len()
            == old(nav_meshes)@.len() + 1 && final(nav_meshes)@[old(nav_meshes)@.len() as int]@
            == spec_convert(voxel->Some_0@),
        voxel is Some && valid_mesh(spec_convert(voxel->Some_0@)) ==> forall|i: int|
            0 <= i < old(nav_meshes)@.len() ==> final(nav_meshes)@[i] == old(nav_meshes)@[i],
        voxel is Some && valid_mesh(spec_convert(voxel->Some_0@)) ==> final(islands)@.len()
            == old(islands)@.len() && final(islands)@[island as int].nav_mesh == Some(
            old(nav_meshes)@.len() as usize,
        ),
        voxel is Some && valid_mesh(spec_convert(voxel->Some_0@)) ==> forall|i: int|
            0 <= i < old(islands)@.len() && i != island ==> final(islands)@[i] == old(islands)@[i],
{
    let vm = match voxel {
        None => {
            return ReadyOutcome::NotReady;
        },
        Some(vm) => vm,
    };
    match convert_validated(vm) {
        Err(e) => ReadyOutcome::Invalid(e),
        Ok(mesh) => {
            let handle = nav_meshes.len();
            nav_meshes.push(mesh);
            islands[island] = Island { nav_mesh: Some(handle) };
            ReadyOutcome::Attached { handle }
        },
    }
}

} // verus!
