use vstd::prelude::*;

pub mod entity_management;
pub mod game_state;
pub mod terrain;
pub mod time_management;

pub use entity_management::EntityMgmt;
pub use game_state::GameState;
pub use terrain::Terrain;
pub use time_management::TimeMgmt;

verus! {

/// Errors surfaced by the simulation core.
#[derive(Clone, Copy, Debug, PartialEq, Eq, Structural)]
pub enum SimError {
    /// A zero-area terrain or spawn rectangle, or a rectangle outside the
    /// movement area, rejected at construction time.
    Configuration,
    /// The requested mean/standard-deviation pair admits no Weibull shape
    /// within the search bracket.
    Calibration,
    /// A query named an agent key or a terrain coordinate that does not exist.
    Lookup,
}

/// Builds a terrain of the given dimensions and populates it from the
/// per-cell noise samples, row-major. The sample batch is what a seeded
/// pair of coherent-noise fields evaluates to over the grid, so one seed —
/// through one sample batch — fully determines the world.
pub fn generate_terrain(dimensions: (u16, u16, u8), samples: &Vec<terrain::NoiseSample>) -> (r:
    Result<Terrain, SimError>)
    requires
        samples@.len() == dimensions.0 * dimensions.1,
        forall|i: int| 0 <= i < samples@.len() ==> terrain::sample_wf(#[trigger] samples@[i]),
    ensures
        r is Ok <==> dimensions.0 >= 1 && dimensions.1 >= 1,
        r matches Err(e) ==> e == SimError::Configuration,
        r matches Ok(t) ==> {
            &&& t.width == dimensions.0
            &&& t.height == dimensions.1
            &&& t.depth == dimensions.2
            &&& t.wf()
            &&& t.map@.len() == samples@.len()
            &&& forall|i: int|
                0 <= i < samples@.len() ==> t.map@[i] == terrain::spec_cell_of(
                    samples@[i],
                    dimensions.2,
                )
        },
{
    let (width, height, depth) = dimensions;
    let terrain = Terrain::new(width, height, depth);
    match terrain {
        Ok(mut t) => {
            t.initialise_terrain(samples);
            Ok(t)
        },
        Err(e) => Err(e),
    }
}

/// Builds a population manager over the given spawn zone and movement
/// area, then spawns the requested number of agents (fifteen when no
/// amount is given), one caller-sampled death-age each.
pub fn generate_entities(
    spawn_zone: (u16, u16, u16, u16),
    terrain_dims: (u16, u16),
    amount: Option<u16>,
    death_ages: &Vec<u8>,
) -> (r: Result<EntityMgmt, SimError>)
    requires
        death_ages@.len() == (match amount {
            Some(n) => n,
            None => entity_management::DEFAULT_ENTITY_COUNT,
        }),
    ensures
        r is Ok <==> (spawn_zone.0 < spawn_zone.2 <= terrain_dims.0 && spawn_zone.1 < spawn_zone.3
            <= terrain_dims.1),
        r matches Err(e) ==> e == SimError::Configuration,
        r matches Ok(m) ==> {
            &&& m.spawn_area == spawn_zone
            &&& m.area_dims == terrain_dims
            &&& m.entities@.len() == death_ages@.len()
            &&& forall|j: int|
                0 <= j < death_ages@.len() ==> entity_management::spec_spawned(
                    #[trigger] m.entities@[j],
                    death_ages@[j],
                    spawn_zone,
                )
            &&& m.wf()
        },
{
    let num_entities = match amount {
        Some(n) => n,
        None => entity_management::DEFAULT_ENTITY_COUNT,
    };
    let mgmt = EntityMgmt::new(spawn_zone, terrain_dims);
    match mgmt {
        Ok(mut m) => {
            m.generate_random_entities(num_entities, death_ages);
            proof {
                assert forall|j: int| 0 <= j < death_ages@.len() implies
                    entity_management::spec_spawned(
                        #[trigger] m.entities@[j],
                        death_ages@[j],
                        spawn_zone,
                    ) by {
                    assert(entity_management::spec_spawned(
                        m.entities@[0 + j],
                        death_ages@[j],
                        spawn_zone,
                    ));
                }
            }
            Ok(m)
        },
        Err(e) => Err(e),
    }
}

/// Composes a whole world: a clock starting at zero, a terrain populated
/// from the noise samples, and a population spawned inside the given zone
/// with the movement area set to the terrain's dimensions.
pub fn generate_game_state(
    map_size: (u16, u16, u8),
    spawn_zone: (u16, u16, u16, u16),
    starting_entities: Option<u16>,
    samples: &Vec<terrain::NoiseSample>,
    death_ages: &Vec<u8>,
) -> (r: Result<GameState, SimError>)
    requires
        samples@.len() == map_size.0 * map_size.1,
        forall|i: int| 0 <= i < samples@.len() ==> terrain::sample_wf(#[trigger] samples@[i]),
        death_ages@.len() == (match starting_entities {
            Some(n) => n,
            None => entity_management::DEFAULT_ENTITY_COUNT,
        }),
    ensures
        r is Ok <==> (map_size.0 >= 1 && map_size.1 >= 1 && spawn_zone.0 < spawn_zone.2
            <= map_size.0 && spawn_zone.1 < spawn_zone.3 <= map_size.1),
        r matches Err(e) ==> e == SimError::Configuration,
        r matches Ok(gs) ==> {
            &&& gs.wf()
            &&& gs.time_mgmt.time == 0
            &&& gs.terrain_map.width == map_size.0
            &&& gs.terrain_map.height == map_size.1
            &&& gs.terrain_map.depth == map_size.2
            &&& gs.entity_mgmt.spawn_area == spawn_zone
            &&& gs.entity_mgmt.area_dims == (map_size.0, map_size.1)
            &&& gs.entity_mgmt.entities@.len() == death_ages@.len()
        },
{
    let time = generate_clock(None);
    let terrain = generate_terrain(map_size, samples);
    match terrain {
        Ok(t) => {
            let dims = t.get_dims();
            let entities = generate_entities(spawn_zone, dims, starting_entities, death_ages);
            match entities {
                Ok(m) => Ok(GameState::new(time, t, m)),
                Err(e) => Err(e),
            }
        },
        Err(e) => Err(e),
    }
}

/// Constructs the simulation clock, starting at the given reading or at
/// zero when none is given.
pub fn generate_clock(initial_time: Option<u32>) -> (t: TimeMgmt)
    ensures
        t.time == (match initial_time {
            Some(x) => x,
            None => 0u32,
        }),
{
    let start_time = match initial_time {
        Some(x) => x,
        None => 0,
    };
    TimeMgmt::new(start_time)
}

} // verus!
