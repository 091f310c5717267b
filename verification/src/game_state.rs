use vstd::prelude::*;

use crate::entity_management::EntityMgmt;
use crate::entity_management::heading_wf;
use crate::entity_management::spec_moved;
use crate::entity_management::spec_stepped;
use crate::terrain::Terrain;
use crate::time_management::TimeMgmt;

verus! {

/// The composed world: one terrain, one population, one clock. The world
/// sequences the sub-advances and holds no simulation logic of its own.
#[derive(Debug)]
pub struct GameState {
    pub time_mgmt: TimeMgmt,
    pub terrain_map: Terrain,
    pub entity_mgmt: EntityMgmt,
}

impl GameState {
    /// Well-formedness: terrain and population are each well-formed, and
    /// the population's movement area lies inside the terrain, so every
    /// material lookup under an agent is in range.
    pub open spec fn wf(self) -> bool {
        &&& self.terrain_map.wf()
        &&& self.entity_mgmt.wf()
        &&& self.entity_mgmt.area_dims.0 <= self.terrain_map.width
        &&& self.entity_mgmt.area_dims.1 <= self.terrain_map.height
    }

    pub fn new(time: TimeMgmt, terrain: Terrain, entities: EntityMgmt) -> (gs: GameState)
        ensures
            gs.time_mgmt == time,
            gs.terrain_map == terrain,
            gs.entity_mgmt == entities,
    {
        GameState { time_mgmt: time, terrain_map: terrain, entity_mgmt: entities }
    }

    /// One movement pass over the world's own terrain, without aging: every
    /// living agent moves once by its heading. The clock does not advance.
    pub fn move_all_entities(&mut self, headings: &Vec<(i32, i32)>)
        requires
            old(self).wf(),
            headings@.len() == old(self).entity_mgmt.entities@.len(),
            forall|i: int| 0 <= i < headings@.len() ==> heading_wf(#[trigger] headings@[i]),
        ensures
            final(self).time_mgmt == old(self).time_mgmt,
            final(self).terrain_map == old(self).terrain_map,
            final(self).entity_mgmt.spawn_area == old(self).entity_mgmt.spawn_area,
            final(self).entity_mgmt.area_dims == old(self).entity_mgmt.area_dims,
            final(self).entity_mgmt.entities@.len() == old(self).entity_mgmt.entities@.len(),
            forall|i: int|
                0 <= i < old(self).entity_mgmt.entities@.len() ==> #[trigger] final(self).entity_mgmt.entities@[i] == spec_moved(
                    old(self).entity_mgmt.entities@[i],
                    headings@[i],
                    old(self).terrain_map,
                    old(self).entity_mgmt.area_dims,
                ),
            final(self).wf(),
    {
        self.entity_mgmt.random_move_all_entities(&self.terrain_map, headings);
    }

    /// The terrain's dimensions.
    pub fn get_terrain_map(&self) -> (d: (u16, u16))
        ensures
            d == (self.terrain_map.width, self.terrain_map.height),
    {
        self.terrain_map.get_dims()
    }

    /// A snapshot of `(key, x, y)` triples for every agent, suitable for
    /// marshaling into a host application's array format. The caller owns
    /// the result; no live internal reference crosses this boundary.
    pub fn get_entity_locations(&self) -> (rows: Vec<(u16, u16, u16)>)
        requires
            self.entity_mgmt.entities@.len() <= u16::MAX,
        ensures
            rows@.len() == self.entity_mgmt.entities@.len(),
            forall|i: int|
                0 <= i < rows@.len() ==> #[trigger] rows@[i] == (
                    i as u16,
                    self.entity_mgmt.entities@[i].location.0,
                    self.entity_mgmt.entities@[i].location.1,
                ),
    {
        let n = self.entity_mgmt.get_num_entities();
        let mut rows: Vec<(u16, u16, u16)> = Vec::new();
        let mut i: usize = 0;
        while i < n
            invariant
                n == self.entity_mgmt.entities@.len(),
                n <= u16::MAX,
                i <= n,
                rows@.len() == i,
                forall|k: int|
                    0 <= k < i ==> #[trigger] rows@[k] == (
                        k as u16,
                        self.entity_mgmt.entities@[k].location.0,
                        self.entity_mgmt.entities@[k].location.1,
                    ),
            decreases n - i,
        {
            let loc = self.entity_mgmt.entities[i].location;
            rows.push((i as u16, loc.0, loc.1));
            i = i + 1;
        }
        rows
    }

    /// A snapshot of the terrain grid as two flat row-major arrays:
    /// materials and heights. The caller owns both.
    pub fn get_map_data(&self) -> (r: (Vec<u8>, Vec<u8>))
        ensures
            r.0@.len() == self.terrain_map.map@.len(),
            r.1@.len() == self.terrain_map.map@.len(),
            forall|i: int|
                0 <= i < self.terrain_map.map@.len() ==> #[trigger] r.0@[i]
                    == self.terrain_map.map@[i].material,
            forall|i: int|
                0 <= i < self.terrain_map.map@.len() ==> #[trigger] r.1@[i]
                    == self.terrain_map.map@[i].height,
    {
        let n = self.terrain_map.map.len();
        let mut materials: Vec<u8> = Vec::new();
        let mut heights: Vec<u8> = Vec::new();
        let mut i: usize = 0;
        while i < n
            invariant
                n == self.terrain_map.map@.len(),
                i <= n,
                materials@.len() == i,
                heights@.len() == i,
                forall|k: int|
                    0 <= k < i ==> #[trigger] materials@[k] == self.terrain_map.map@[k].material,
                forall|k: int|
                    0 <= k < i ==> #[trigger] heights@[k] == self.terrain_map.map@[k].height,
            decreases n - i,
        {
            let point = self.terrain_map.map[i];
            materials.push(point.material);
            heights.push(point.height);
            i = i + 1;
        }
        (materials, heights)
    }

    /// One world step: the clock advances by one, then the population runs
    /// one movement-and-aging step over the world's own terrain.
    pub fn advance_state(&mut self, headings: &Vec<(i32, i32)>)
        requires
            old(self).wf(),
            old(self).time_mgmt.time < u32::MAX,
            headings@.len() == old(self).entity_mgmt.entities@.len(),
            forall|i: int| 0 <= i < headings@.len() ==> heading_wf(#[trigger] headings@[i]),
        ensures
            final(self).time_mgmt.time == old(self).time_mgmt.time + 1,
            final(self).terrain_map == old(self).terrain_map,
            final(self).entity_mgmt.spawn_area == old(self).entity_mgmt.spawn_area,
            final(self).entity_mgmt.area_dims == old(self).entity_mgmt.area_dims,
            final(self).entity_mgmt.entities@.len() == old(self).entity_mgmt.entities@.len(),
            forall|i: int|
                0 <= i < old(self).entity_mgmt.entities@.len() ==> #[trigger] final(self).entity_mgmt.entities@[i] == spec_stepped(
                    old(self).entity_mgmt.entities@[i],
                    headings@[i],
                    old(self).terrain_map,
                    old(self).entity_mgmt.area_dims,
                ),
            final(self).wf(),
    {
        self.time_mgmt.update();
        self.entity_mgmt.advance_time(&self.terrain_map, headings);
    }
}

} // verus!
