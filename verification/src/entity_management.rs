use vstd::prelude::*;

use crate::SimError;
use crate::terrain::Terrain;
use rayon::iter::IndexedParallelIterator;
use rayon::iter::IntoParallelRefIterator;
use rayon::iter::IntoParallelRefMutIterator;
use rayon::iter::ParallelIterator;

verus! {

/// Population size at or above which the movement pass runs data-parallel.
pub const MT_MIN_ENTITIES: usize = 375;

/// Speed on mud as a percentage of the base (grass) speed.
pub const BASE_MUD_SCALAR_PCT: u8 = 60;

/// Speed on mud for a climber, as a percentage of the base speed.
pub const PROFICIENT_MUD_SCALAR_PCT: u8 = 80;

/// Speed on ice as a percentage of the base speed.
pub const BASE_ICE_SCALAR_PCT: u8 = 40;

/// Speed on ice for a skater, as a percentage of the base speed.
pub const PROFICIENT_ICE_SCALAR_PCT: u8 = 70;

/// The age at which fertility peaks.
pub const PEAK_FERTILITY_AGE: u16 = 30;

/// Below this age fertility is zero.
pub const MIN_FERTILE_AGE: u16 = 15;

/// Above this age fertility is zero.
pub const MAX_FERTILE_AGE: u16 = 45;

/// While at or below this age an agent's base speed grows; above it, the
/// speed decays, floored at zero.
pub const AGE_SPEED_THRESHOLD: u16 = 30;

/// Default life expectancy handed to the lifespan calibrator when a spawn
/// call gives none.
pub const DEFAULT_ENTITY_EXPECTANCY: u8 = 70;

/// Default lifespan standard deviation when a spawn call gives none.
pub const DEFAULT_LIFE_STD_DEV: u8 = 15;

/// Number of agents a `reset` respawns.
pub const DEFAULT_ENTITY_COUNT: u16 = 15;

/// Base (grass) speed given to every spawned agent.
pub const DEFAULT_BASE_SPEED: u8 = 30;

/// Fixed-point scale for movement headings: a unit-vector component in
/// `[-1.0, 1.0]` is carried as an integer in
/// `[-HEADING_FIXED_ONE, HEADING_FIXED_ONE]`.
pub const HEADING_FIXED_ONE: i32 = 1048576;

/// A simulated mobile organism. Ages and sizes are carried as `u16` so that
/// one further increment of an agent at the largest samplable death-age
/// (255) cannot overflow. `fertility` is carried in ninths of a percent: the
/// peak of the fertility curve, 100%, is the value 900.
#[derive(Clone, Copy, Debug)]
pub struct Entity {
    pub age: u16,
    pub size: u16,
    pub death_age: u8,
    pub hunger: u8,
    pub is_alive: bool,
    pub is_male: bool,
    pub is_pregnant: bool,
    pub grass_speed: u8,
    pub mud_speed: u8,
    pub ice_speed: u8,
    pub location: (u16, u16),
    pub fertility: u16,
}

/// Speed on mud: a scalar fraction of the base speed, higher for climbers.
pub open spec fn spec_mud_speed(base: u8, is_climber: bool) -> u8 {
    if is_climber {
        (base * PROFICIENT_MUD_SCALAR_PCT / 100) as u8
    } else {
        (base * BASE_MUD_SCALAR_PCT / 100) as u8
    }
}

/// Speed on ice: a scalar fraction of the base speed, higher for skaters.
pub open spec fn spec_ice_speed(base: u8, is_skater: bool) -> u8 {
    if is_skater {
        (base * PROFICIENT_ICE_SCALAR_PCT / 100) as u8
    } else {
        (base * BASE_ICE_SCALAR_PCT / 100) as u8
    }
}

/// The bell-shaped fertility curve, in ninths of a percent: zero outside
/// `[MIN_FERTILE_AGE, MAX_FERTILE_AGE]`, quadratic inside, peaking at 900
/// (that is, 100%) at `PEAK_FERTILITY_AGE`.
pub open spec fn spec_fertility_at(age: u16) -> u16 {
    if MIN_FERTILE_AGE <= age <= MAX_FERTILE_AGE {
        ((age - MIN_FERTILE_AGE) * (MAX_FERTILE_AGE - age) * 4) as u16
    } else {
        0
    }
}

/// The age-based speed rule: grow by one while at or below the threshold
/// age (capped at the type's maximum), decay by one above it, floored at 0.
pub open spec fn spec_updated_speed(speed: u8, age: u16) -> u8 {
    if age <= AGE_SPEED_THRESHOLD {
        if speed < 255 {
            (speed + 1) as u8
        } else {
            255
        }
    } else {
        if speed > 0 {
            (speed - 1) as u8
        } else {
            0
        }
    }
}

/// The attributes of a freshly spawned agent: age and size one, alive, not
/// pregnant, zero fertility, and a speed profile derived from the base speed
/// and the two terrain traits.
pub open spec fn spec_new_entity(
    base_speed: u8,
    is_climber: bool,
    is_skater: bool,
    location: (u16, u16),
    is_male: bool,
    death_age: u8,
) -> Entity {
    Entity {
        age: 1,
        size: 1,
        death_age: death_age,
        hunger: 0,
        is_alive: true,
        is_male: is_male,
        is_pregnant: false,
        grass_speed: base_speed,
        mud_speed: spec_mud_speed(base_speed, is_climber),
        ice_speed: spec_ice_speed(base_speed, is_skater),
        location: location,
        fertility: 0,
    }
}

/// One aging step. A dead agent is untouched — there is no resurrection. A
/// living agent grows one year older and is dead from now on if its new age
/// exceeds its death-age; a survivor also grows, adjusts its base speed by
/// the age rule, and has its fertility recomputed at the new age.
pub open spec fn spec_aged(e: Entity) -> Entity {
    if !e.is_alive {
        e
    } else {
        let age2 = (e.age + 1) as u16;
        if age2 > e.death_age {
            Entity {
                age: age2,
                size: e.size,
                death_age: e.death_age,
                hunger: e.hunger,
                is_alive: false,
                is_male: e.is_male,
                is_pregnant: e.is_pregnant,
                grass_speed: e.grass_speed,
                mud_speed: e.mud_speed,
                ice_speed: e.ice_speed,
                location: e.location,
                fertility: e.fertility,
            }
        } else {
            Entity {
                age: age2,
                size: (e.size + 1) as u16,
                death_age: e.death_age,
                hunger: e.hunger,
                is_alive: true,
                is_male: e.is_male,
                is_pregnant: e.is_pregnant,
                grass_speed: spec_updated_speed(e.grass_speed, age2),
                mud_speed: e.mud_speed,
                ice_speed: e.ice_speed,
                location: e.location,
                fertility: spec_fertility_at(age2),
            }
        }
    }
}

impl Entity {
    /// Well-formedness against the movement area: sizes and ages start at
    /// one and stay bounded, a living agent's age never exceeds its
    /// death-age (except at the initial age of one, before any death
    /// check has run), the location lies inside the area, and fertility
    /// never exceeds its peak.
    pub open spec fn wf(self, area: (u16, u16)) -> bool {
        &&& 1 <= self.size <= self.age <= 256
        &&& self.is_alive ==> (self.age == 1 || self.age <= self.death_age)
        &&& self.location.0 < area.0
        &&& self.location.1 < area.1
        &&& self.fertility <= 900
    }

    /// Spawns an agent at the given location with the given fixed traits
    /// and a death-age sampled by the caller from the calibrated lifespan
    /// distribution.
    pub fn new(
        base_speed: u8,
        is_climber: bool,
        is_skater: bool,
        location: (u16, u16),
        is_male: bool,
        death_age: u8,
    ) -> (e: Entity)
        ensures
            e == spec_new_entity(base_speed, is_climber, is_skater, location, is_male, death_age),
    {
        let (mud_speed, ice_speed) = calculate_material_speeds(is_climber, is_skater, base_speed);
        Entity {
            age: 1,
            size: 1,
            death_age,
            hunger: 0,
            is_alive: true,
            is_male,
            is_pregnant: false,
            grass_speed: base_speed,
            mud_speed,
            ice_speed,
            location,
            fertility: 0,
        }
    }

    pub fn update_location(&mut self, new_loc: (u16, u16))
        ensures
            *final(self) == (Entity { location: new_loc, ..*old(self) }),
    {
        self.location = new_loc;
    }

    pub fn grow_older(&mut self, age_increase: u8)
        requires
            old(self).age + age_increase <= u16::MAX,
        ensures
            *final(self) == (Entity { age: (old(self).age + age_increase) as u16, ..*old(self) }),
    {
        self.age = self.age + (age_increase as u16);
    }

    pub fn grow_bigger(&mut self, size_increase: u8)
        requires
            old(self).size + size_increase <= u16::MAX,
        ensures
            *final(self) == (Entity { size: (old(self).size + size_increase) as u16, ..*old(self) }),
    {
        self.size = self.size + (size_increase as u16);
    }

    /// The raw quadratic fertility value at an age inside the fertile
    /// window, in ninths of a percent.
    pub fn get_fertility_at_age(age: u16) -> (f: u16)
        requires
            MIN_FERTILE_AGE <= age <= MAX_FERTILE_AGE,
        ensures
            f == spec_fertility_at(age),
    {
        proof {
            assert((age - MIN_FERTILE_AGE) * (MAX_FERTILE_AGE - age) * 4 <= 3600)
                by (nonlinear_arith)
                requires
                    MIN_FERTILE_AGE <= age <= MAX_FERTILE_AGE,
                    MIN_FERTILE_AGE == 15,
                    MAX_FERTILE_AGE == 45,
            ;
        }
        (age - MIN_FERTILE_AGE) * (MAX_FERTILE_AGE - age) * 4
    }

    /// The agent's speed on the given material code; an undefined code falls
    /// back to the base speed.
    pub fn get_speed_for_material(&self, material: u8) -> (s: u8)
        ensures
            s == spec_speed_for_material(*self, material),
    {
        match material {
            0 => self.mud_speed,
            1 => self.grass_speed,
            2 => self.ice_speed,
            _ => self.grass_speed,
        }
    }

    /// Applies the age-based speed rule to the base (grass) speed.
    pub fn update_speed(&mut self)
        ensures
            *final(self) == (Entity {
                grass_speed: spec_updated_speed(old(self).grass_speed, old(self).age),
                ..*old(self)
            }),
    {
        if self.age <= AGE_SPEED_THRESHOLD {
            if self.grass_speed < 255 {
                self.grass_speed = self.grass_speed + 1;
            }
        } else {
            if self.grass_speed > 0 {
                self.grass_speed = self.grass_speed - 1;
            }
        }
    }

    /// Recomputes fertility from the current age: zero outside the fertile
    /// window, the quadratic curve inside it.
    pub fn update_fertility(&mut self)
        ensures
            *final(self) == (Entity {
                fertility: spec_fertility_at(old(self).age),
                ..*old(self)
            }),
    {
        if self.age < MIN_FERTILE_AGE {
            self.fertility = 0;
        } else if self.age > MAX_FERTILE_AGE {
            self.fertility = 0;
        } else {
            self.fertility = Self::get_fertility_at_age(self.age);
        }
    }

    /// Re-evaluates liveness: the agent is alive exactly while its age does
    /// not exceed its death-age. Returns whether the agent died.
    pub fn do_death_check(&mut self) -> (died: bool)
        ensures
            *final(self) == (Entity { is_alive: old(self).age <= old(self).death_age, ..*old(self) }),
            died == !(old(self).age <= old(self).death_age),
    {
        self.is_alive = self.age <= (self.death_age as u16);
        !self.is_alive
    }
}

/// The two material-conditioned speeds (mud, ice) derived from the base
/// speed and the two fixed traits.
pub fn calculate_material_speeds(is_climber: bool, is_skater: bool, base_speed: u8) -> (r: (u8, u8))
    ensures
        r.0 == spec_mud_speed(base_speed, is_climber),
        r.1 == spec_ice_speed(base_speed, is_skater),
{
    let base: u32 = base_speed as u32;
    proof {
        lemma_pct_product_bounded(base as int, PROFICIENT_MUD_SCALAR_PCT as int);
        lemma_pct_product_bounded(base as int, BASE_MUD_SCALAR_PCT as int);
        lemma_pct_product_bounded(base as int, PROFICIENT_ICE_SCALAR_PCT as int);
        lemma_pct_product_bounded(base as int, BASE_ICE_SCALAR_PCT as int);
    }
    let mud_speed: u32 = if is_climber {
        base * (PROFICIENT_MUD_SCALAR_PCT as u32) / 100
    } else {
        base * (BASE_MUD_SCALAR_PCT as u32) / 100
    };
    let ice_speed: u32 = if is_skater {
        base * (PROFICIENT_ICE_SCALAR_PCT as u32) / 100
    } else {
        base * (BASE_ICE_SCALAR_PCT as u32) / 100
    };
    (mud_speed as u8, ice_speed as u8)
}

/// A base speed scaled by a percentage stays small: needed to rule out
/// overflow in the speed derivation.
proof fn lemma_pct_product_bounded(b: int, p: int)
    by (nonlinear_arith)
    requires
        0 <= b <= 255,
        0 <= p <= 100,
    ensures
        0 <= b * p <= 25500,
{
}

/// The agent's speed on a material code: mud and ice use the derived
/// fractions, grass the base speed, and an undefined code falls back to the
/// base speed.
pub open spec fn spec_speed_for_material(e: Entity, material: u8) -> u8 {
    if material == 0 {
        e.mud_speed
    } else if material == 1 {
        e.grass_speed
    } else if material == 2 {
        e.ice_speed
    } else {
        e.grass_speed
    }
}

/// A heading is a unit vector in fixed point: each component lies in
/// `[-HEADING_FIXED_ONE, HEADING_FIXED_ONE]`.
pub open spec fn heading_wf(h: (i32, i32)) -> bool {
    &&& -HEADING_FIXED_ONE <= h.0 <= HEADING_FIXED_ONE
    &&& -HEADING_FIXED_ONE <= h.1 <= HEADING_FIXED_ONE
}

/// One displacement component: the fixed-point heading component scaled by
/// the speed and truncated toward zero, as a float product truncated to an
/// integer would be.
pub open spec fn spec_scaled_component(h: i32, speed: u8) -> int {
    if h >= 0 {
        (h * speed) / (HEADING_FIXED_ONE as int)
    } else {
        -(((-h) * speed) / (HEADING_FIXED_ONE as int))
    }
}

/// One coordinate moved by a displacement and clamped into `[0, dim - 1]`:
/// edges are walls, not wrap-around.
pub open spec fn spec_clamp_coord(pos: u16, delta: int, dim: u16) -> u16 {
    if pos + delta < 0 {
        0u16
    } else if pos + delta > dim - 1 {
        (dim - 1) as u16
    } else {
        (pos + delta) as u16
    }
}

/// Where a living agent ends up: its speed on the material under it scales
/// the heading into a displacement, which is clamped into the area.
pub open spec fn spec_moved_loc(e: Entity, heading: (i32, i32), map: Terrain, area: (
    u16,
    u16,
)) -> (u16, u16) {
    let speed = spec_speed_for_material(e, map.spec_material_at(e.location.0, e.location.1));
    (
        spec_clamp_coord(e.location.0, spec_scaled_component(heading.0, speed), area.0),
        spec_clamp_coord(e.location.1, spec_scaled_component(heading.1, speed), area.1),
    )
}

/// The movement step for one agent: a dead agent does not move; a living
/// one is relocated to `spec_moved_loc`. No other attribute changes.
pub open spec fn spec_moved(e: Entity, heading: (i32, i32), map: Terrain, area: (
    u16,
    u16,
)) -> Entity {
    if !e.is_alive {
        e
    } else {
        Entity { location: spec_moved_loc(e, heading, map, area), ..e }
    }
}

/// One full simulation step for one agent: movement from the start-of-step
/// state, then aging.
pub open spec fn spec_stepped(e: Entity, heading: (i32, i32), map: Terrain, area: (
    u16,
    u16,
)) -> Entity {
    spec_aged(spec_moved(e, heading, map, area))
}

/// Relies on rand's `Rng::random_range` on an integer range: the result is
/// uniformly distributed in `[lo, hi)`. The call panics on an empty range,
/// which the precondition rules out.
#[verifier::external_body]
fn random_in_range_u16(lo: u16, hi: u16) -> (r: u16)
    requires
        lo < hi,
    ensures
        lo <= r < hi,
{
    let mut rng = rand::rng();
    rand::Rng::random_range(&mut rng, lo..hi)
}

/// Relies on rand's `StandardUniform` distribution for `bool`: a fair coin.
/// Nothing can be promised of the value drawn.
#[verifier::external_body]
fn random_coin() -> (r: bool)
{
    let mut rng = rand::rng();
    rand::Rng::random::<bool>(&mut rng)
}

/// Scales a fixed-point heading component by a speed, truncating toward
/// zero.
fn scaled_component(h: i32, speed: u8) -> (d: i32)
    requires
        -HEADING_FIXED_ONE <= h <= HEADING_FIXED_ONE,
    ensures
        d == spec_scaled_component(h, speed),
        -255 <= d <= 255,
{
    let habs: u64 = if h >= 0 {
        h as u64
    } else {
        (-h) as u64
    };
    proof {
        assert(habs * speed <= 1048576 * 255) by (nonlinear_arith)
            requires
                0 <= habs <= 1048576,
                0 <= speed <= 255,
        ;
        vstd::arithmetic::div_mod::lemma_div_is_ordered(
            (habs * speed) as int,
            1048576int * 255,
            1048576int,
        );
        vstd::arithmetic::div_mod::lemma_div_multiples_vanish(255int, 1048576int);
        vstd::arithmetic::div_mod::lemma_div_pos_is_pos((habs * speed) as int, 1048576int);
    }
    let num: u64 = habs * (speed as u64);
    let mag: u64 = num / (HEADING_FIXED_ONE as u64);
    if h >= 0 {
        mag as i32
    } else {
        -(mag as i32)
    }
}

/// The population manager: the spawn rectangle, the movement area, and the
/// agents it exclusively owns. An agent's key is its index in `entities`:
/// keys are dense integers starting at 0, never reused while the manager
/// lives (agents are never removed, only marked dead).
#[derive(Debug)]
pub struct EntityMgmt {
    pub spawn_area: (u16, u16, u16, u16),
    pub area_dims: (u16, u16),
    pub entities: Vec<Entity>,
}

/// What holds of every freshly spawned agent: its location lies inside the
/// spawn rectangle, and every attribute other than its (random) location
/// and sex is pinned by `spec_new_entity` with the given death-age.
pub open spec fn spec_spawned(e: Entity, death_age: u8, rect: (u16, u16, u16, u16)) -> bool {
    &&& rect.0 <= e.location.0 < rect.2
    &&& rect.1 <= e.location.1 < rect.3
    &&& e == spec_new_entity(
        DEFAULT_BASE_SPEED,
        false,
        false,
        e.location,
        e.is_male,
        death_age,
    )
}

impl EntityMgmt {
    /// The spawn rectangle has positive area and lies inside the movement
    /// area.
    pub open spec fn rect_valid(self) -> bool {
        &&& self.spawn_area.0 < self.spawn_area.2 <= self.area_dims.0
        &&& self.spawn_area.1 < self.spawn_area.3 <= self.area_dims.1
    }

    /// Well-formedness: a valid spawn rectangle and every agent valid for
    /// the movement area.
    pub open spec fn wf(self) -> bool {
        &&& self.rect_valid()
        &&& forall|i: int|
            0 <= i < self.entities@.len() ==> (#[trigger] self.entities@[i]).wf(self.area_dims)
    }

    /// Constructs an empty manager. A degenerate spawn rectangle — empty,
    /// inverted, or reaching outside the movement area — is a configuration
    /// error, rejected here rather than discovered later.
    pub fn new(spawn_area: (u16, u16, u16, u16), area_dims: (u16, u16)) -> (r: Result<
        EntityMgmt,
        SimError,
    >)
        ensures
            r is Ok <==> (spawn_area.0 < spawn_area.2 <= area_dims.0 && spawn_area.1 < spawn_area.3
                <= area_dims.1),
            r matches Err(e) ==> e == SimError::Configuration,
            r matches Ok(m) ==> {
                &&& m.spawn_area == spawn_area
                &&& m.area_dims == area_dims
                &&& m.entities@.len() == 0
                &&& m.wf()
            },
    {
        if spawn_area.0 < spawn_area.2 && spawn_area.2 <= area_dims.0 && spawn_area.1
            < spawn_area.3 && spawn_area.3 <= area_dims.1 {
            Ok(EntityMgmt { spawn_area, area_dims, entities: Vec::new() })
        } else {
            Err(SimError::Configuration)
        }
    }

    /// An independent copy of this manager: same rectangles, same agents.
    /// Useful to run one population through both movement paths.
    pub fn duplicate(&self) -> (c: EntityMgmt)
        ensures
            c.spawn_area == self.spawn_area,
            c.area_dims == self.area_dims,
            c.entities@ == self.entities@,
    {
        let mut entities: Vec<Entity> = Vec::new();
        let mut i: usize = 0;
        let n = self.entities.len();
        while i < n
            invariant
                n == self.entities@.len(),
                i <= n,
                entities@.len() == i,
                forall|k: int| 0 <= k < i ==> entities@[k] == self.entities@[k],
            decreases n - i,
        {
            entities.push(self.entities[i]);
            i = i + 1;
        }
        proof {
            assert(entities@ =~= self.entities@);
        }
        EntityMgmt { spawn_area: self.spawn_area, area_dims: self.area_dims, entities }
    }

    /// The number of stored agents, living or dead.
    pub fn get_num_entities(&self) -> (n: usize)
        ensures
            n == self.entities@.len(),
    {
        self.entities.len()
    }

    /// Spawns `count` agents at uniformly random locations inside the spawn
    /// rectangle, each with a fair-coin sex and its own death-age from the
    /// given batch (one per agent, sampled by the caller from the
    /// calibrated lifespan distribution). Pre-existing agents are not
    /// touched, and the new keys continue densely after the existing ones.
    pub fn generate_random_entities(&mut self, count: u16, death_ages: &Vec<u8>)
        requires
            old(self).wf(),
            death_ages@.len() == count,
        ensures
            final(self).spawn_area == old(self).spawn_area,
            final(self).area_dims == old(self).area_dims,
            final(self).entities@.len() == old(self).entities@.len() + count,
            forall|i: int|
                0 <= i < old(self).entities@.len() ==> final(self).entities@[i] == old(
                    self,
                ).entities@[i],
            forall|j: int|
                0 <= j < count ==> spec_spawned(
                    #[trigger] final(self).entities@[old(self).entities@.len() + j],
                    death_ages@[j],
                    old(self).spawn_area,
                ),
            final(self).wf(),
    {
        let base_len: usize = self.entities.len();
        let mut j: usize = 0;
        while j < count as usize
            invariant
                self.spawn_area == old(self).spawn_area,
                self.area_dims == old(self).area_dims,
                old(self).wf(),
                death_ages@.len() == count,
                base_len == old(self).entities@.len(),
                j <= count,
                self.entities@.len() == base_len + j,
                forall|i: int| 0 <= i < base_len ==> self.entities@[i] == old(self).entities@[i],
                forall|k: int|
                    0 <= k < j ==> spec_spawned(
                        #[trigger] self.entities@[base_len + k],
                        death_ages@[k],
                        old(self).spawn_area,
                    ),
                forall|i: int|
                    0 <= i < self.entities@.len() ==> (#[trigger] self.entities@[i]).wf(
                        self.area_dims,
                    ),
            decreases count - j,
        {
            let spawn_loc_x = random_in_range_u16(self.spawn_area.0, self.spawn_area.2);
            let spawn_loc_y = random_in_range_u16(self.spawn_area.1, self.spawn_area.3);
            let is_male = random_coin();
            let e = Entity::new(
                DEFAULT_BASE_SPEED,
                false,
                false,
                (spawn_loc_x, spawn_loc_y),
                is_male,
                death_ages[j],
            );
            self.entities.push(e);
            j = j + 1;
        }
    }

    /// Discards all agents and respawns the default-sized population inside
    /// the manager's own spawn rectangle: a full replacement. The caller
    /// supplies one death-age per respawned agent.
    pub fn reset(&mut self, death_ages: &Vec<u8>)
        requires
            old(self).wf(),
            death_ages@.len() == DEFAULT_ENTITY_COUNT,
        ensures
            final(self).spawn_area == old(self).spawn_area,
            final(self).area_dims == old(self).area_dims,
            final(self).entities@.len() == DEFAULT_ENTITY_COUNT,
            forall|j: int|
                0 <= j < DEFAULT_ENTITY_COUNT ==> spec_spawned(
                    #[trigger] final(self).entities@[j],
                    death_ages@[j],
                    old(self).spawn_area,
                ),
            final(self).wf(),
    {
        self.entities = Vec::new();
        self.generate_random_entities(DEFAULT_ENTITY_COUNT, death_ages);
        proof {
            assert forall|j: int| 0 <= j < DEFAULT_ENTITY_COUNT implies spec_spawned(
                #[trigger] self.entities@[j],
                death_ages@[j],
                old(self).spawn_area,
            ) by {
                assert(spec_spawned(self.entities@[0 + j], death_ages@[j], old(self).spawn_area));
            }
        }
    }

    /// A snapshot of every agent's location, indexed by agent key. The
    /// caller owns the returned vector; it is not a live view.
    pub fn get_all_entity_locs(&self) -> (locs: Vec<(u16, u16)>)
        ensures
            locs@.len() == self.entities@.len(),
            forall|i: int|
                0 <= i < self.entities@.len() ==> locs@[i] == (#[trigger] self.entities@[i]).location,
    {
        let mut locs: Vec<(u16, u16)> = Vec::new();
        let mut i: usize = 0;
        let n = self.entities.len();
        while i < n
            invariant
                n == self.entities@.len(),
                i <= n,
                locs@.len() == i,
                forall|k: int|
                    0 <= k < i ==> locs@[k] == (#[trigger] self.entities@[k]).location,
            decreases n - i,
        {
            locs.push(self.entities[i].location);
            i = i + 1;
        }
        locs
    }

    /// Whether the agent under the given key is alive; an unknown key is a
    /// lookup error, surfaced rather than masked by a default.
    pub fn is_entity_alive(&self, id: u16) -> (r: Result<bool, SimError>)
        ensures
            id < self.entities@.len() ==> (r matches Ok(alive) && alive == self.entities@[id as int].is_alive),
            id >= self.entities@.len() ==> (r matches Err(e) && e == SimError::Lookup),
    {
        if (id as usize) < self.entities.len() {
            Ok(self.entities[id as usize].is_alive)
        } else {
            Err(SimError::Lookup)
        }
    }

    /// A coordinate pair moved by a raw displacement and clamped into the
    /// movement area: edges are walls, not wrap-around.
    fn clamp_entity_movement(map_dims: (u16, u16), curr_pos: (u16, u16), movement: (i32, i32)) -> (r: (u16, u16))
        requires
            map_dims.0 >= 1,
            map_dims.1 >= 1,
        ensures
            r.0 == spec_clamp_coord(curr_pos.0, movement.0 as int, map_dims.0),
            r.1 == spec_clamp_coord(curr_pos.1, movement.1 as int, map_dims.1),
    {
        let nx: i64 = (curr_pos.0 as i64) + (movement.0 as i64);
        let ny: i64 = (curr_pos.1 as i64) + (movement.1 as i64);
        let cx: u16 = if nx < 0 {
            0
        } else if nx > (map_dims.0 as i64) - 1 {
            map_dims.0 - 1
        } else {
            nx as u16
        };
        let cy: u16 = if ny < 0 {
            0
        } else if ny > (map_dims.1 as i64) - 1 {
            map_dims.1 - 1
        } else {
            ny as u16
        };
        (cx, cy)
    }

    /// Where one living agent ends up: the material under it selects its
    /// speed, the heading scaled by that speed gives the displacement, and
    /// the result is clamped into the movement area.
    fn calculate_new_entity_pos(
        area_dims: (u16, u16),
        map: &Terrain,
        entity: &Entity,
        heading: (i32, i32),
    ) -> (loc: (u16, u16))
        requires
            map.wf(),
            area_dims.0 >= 1,
            area_dims.1 >= 1,
            area_dims.0 <= map.width,
            area_dims.1 <= map.height,
            entity.location.0 < area_dims.0,
            entity.location.1 < area_dims.1,
            heading_wf(heading),
        ensures
            loc == spec_moved_loc(*entity, heading, *map, area_dims),
    {
        let (x, y) = entity.location;
        let material = map.get_material(x, y);
        let speed = entity.get_speed_for_material(material);
        let dx = scaled_component(heading.0, speed);
        let dy = scaled_component(heading.1, speed);
        Self::clamp_entity_movement(area_dims, (x, y), (dx, dy))
    }

    /// Applies a raw displacement to the agent under the given key, clamped
    /// into the movement area, and reports whether the key was known. An
    /// unknown key changes nothing.
    pub fn get_and_move_entity(&mut self, id: u16, movement: (i32, i32)) -> (r: bool)
        requires
            old(self).wf(),
        ensures
            final(self).spawn_area == old(self).spawn_area,
            final(self).area_dims == old(self).area_dims,
            final(self).entities@.len() == old(self).entities@.len(),
            r == (id < old(self).entities@.len()),
            id < old(self).entities@.len() ==> final(self).entities@ == old(
                self,
            ).entities@.update(
                id as int,
                (Entity {
                    location: (
                        spec_clamp_coord(
                            old(self).entities@[id as int].location.0,
                            movement.0 as int,
                            old(self).area_dims.0,
                        ),
                        spec_clamp_coord(
                            old(self).entities@[id as int].location.1,
                            movement.1 as int,
                            old(self).area_dims.1,
                        ),
                    ),
                    ..old(self).entities@[id as int]
                }),
            ),
            id >= old(self).entities@.len() ==> final(self).entities@ == old(self).entities@,
            final(self).wf(),
    {
        let idx = id as usize;
        if idx < self.entities.len() {
            let e = self.entities[idx];
            let new_location = Self::clamp_entity_movement(self.area_dims, e.location, movement);
            let mut moved = e;
            moved.update_location(new_location);
            self.entities[idx] = moved;
            true
        } else {
            proof {
                assert(final(self).entities@ =~= old(self).entities@);
            }
            false
        }
    }

    /// The sequential movement pass: every living agent moves once, by its
    /// own heading, from its start-of-step state; dead agents are skipped
    /// entirely. No agent's move depends on another agent's move.
    pub fn random_move_all_entities(&mut self, map: &Terrain, headings: &Vec<(i32, i32)>)
        requires
            old(self).wf(),
            map.wf(),
            old(self).area_dims.0 <= map.width,
            old(self).area_dims.1 <= map.height,
            headings@.len() == old(self).entities@.len(),
            forall|i: int| 0 <= i < headings@.len() ==> heading_wf(#[trigger] headings@[i]),
        ensures
            final(self).spawn_area == old(self).spawn_area,
            final(self).area_dims == old(self).area_dims,
            final(self).entities@.len() == old(self).entities@.len(),
            forall|i: int|
                0 <= i < old(self).entities@.len() ==> #[trigger] final(self).entities@[i]
                    == spec_moved(
                    old(self).entities@[i],
                    headings@[i],
                    *map,
                    old(self).area_dims,
                ),
            final(self).wf(),
    {
        let n = self.entities.len();
        let mut i: usize = 0;
        while i < n
            invariant
                old(self).wf(),
                map.wf(),
                old(self).area_dims.0 <= map.width,
                old(self).area_dims.1 <= map.height,
                headings@.len() == n,
                n == old(self).entities@.len(),
                self.spawn_area == old(self).spawn_area,
                self.area_dims == old(self).area_dims,
                self.entities@.len() == n,
                i <= n,
                forall|j: int| 0 <= j < headings@.len() ==> heading_wf(#[trigger] headings@[j]),
                forall|k: int|
                    0 <= k < i ==> #[trigger] self.entities@[k] == spec_moved(
                        old(self).entities@[k],
                        headings@[k],
                        *map,
                        old(self).area_dims,
                    ),
                forall|k: int| i <= k < n ==> self.entities@[k] == old(self).entities@[k],
                forall|k: int|
                    0 <= k < n ==> (#[trigger] self.entities@[k]).wf(self.area_dims),
            decreases n - i,
        {
            let mut e = self.entities[i];
            let heading = headings[i];
            move_entity(&mut e, heading, map, self.area_dims);
            proof {
                lemma_moved_wf(
                    old(self).entities@[i as int],
                    heading,
                    *map,
                    old(self).area_dims,
                );
            }
            self.entities[i] = e;
            i = i + 1;
        }
    }

    /// The data-parallel movement pass, taken when the population is at or
    /// above `MT_MIN_ENTITIES`. Relies on rayon's parallel iteration over
    /// disjoint slice elements: the verified per-agent move runs exactly
    /// once for each agent, each closure call mutates only its own agent
    /// and reads only the shared read-only terrain, so the execution order
    /// cannot influence any result. The contract is the sequential pass's
    /// contract, word for word.
    #[verifier::external_body]
    pub fn mt_random_move_all_entities(&mut self, map: &Terrain, headings: &Vec<(i32, i32)>)
        requires
            old(self).wf(),
            map.wf(),
            old(self).area_dims.0 <= map.width,
            old(self).area_dims.1 <= map.height,
            headings@.len() == old(self).entities@.len(),
            forall|i: int| 0 <= i < headings@.len() ==> heading_wf(#[trigger] headings@[i]),
        ensures
            final(self).spawn_area == old(self).spawn_area,
            final(self).area_dims == old(self).area_dims,
            final(self).entities@.len() == old(self).entities@.len(),
            forall|i: int|
                0 <= i < old(self).entities@.len() ==> #[trigger] final(self).entities@[i]
                    == spec_moved(
                    old(self).entities@[i],
                    headings@[i],
                    *map,
                    old(self).area_dims,
                ),
            final(self).wf(),
    {
        let area_dims = self.area_dims;
        self.entities.par_iter_mut().zip(headings.par_iter()).for_each(
            |(e, h)| move_entity(e, *h, map, area_dims),
        );
    }

    /// The aging pass: every living agent grows one year older, its death
    /// check runs against the new age, and a survivor grows, adjusts its
    /// base speed by the age rule, and has its fertility recomputed. Dead
    /// agents are skipped and never revived.
    fn age_all_entities(&mut self)
        requires
            old(self).wf(),
        ensures
            final(self).spawn_area == old(self).spawn_area,
            final(self).area_dims == old(self).area_dims,
            final(self).entities@.len() == old(self).entities@.len(),
            forall|i: int|
                0 <= i < old(self).entities@.len() ==> #[trigger] final(self).entities@[i]
                    == spec_aged(old(self).entities@[i]),
            final(self).wf(),
    {
        let n = self.entities.len();
        let mut i: usize = 0;
        while i < n
            invariant
                old(self).wf(),
                n == old(self).entities@.len(),
                self.spawn_area == old(self).spawn_area,
                self.area_dims == old(self).area_dims,
                self.entities@.len() == n,
                i <= n,
                forall|k: int|
                    0 <= k < i ==> #[trigger] self.entities@[k] == spec_aged(
                        old(self).entities@[k],
                    ),
                forall|k: int| i <= k < n ==> self.entities@[k] == old(self).entities@[k],
                forall|k: int|
                    0 <= k < n ==> (#[trigger] self.entities@[k]).wf(self.area_dims),
            decreases n - i,
        {
            let mut e = self.entities[i];
            if e.is_alive {
                e.grow_older(1);
                let died = e.do_death_check();
                if !died {
                    e.grow_bigger(1);
                    e.update_speed();
                    e.update_fertility();
                }
            }
            proof {
                lemma_aged_wf(old(self).entities@[i as int], self.area_dims);
            }
            assert(e == spec_aged(old(self).entities@[i as int]));
            self.entities[i] = e;
            i = i + 1;
        }
    }

    /// One simulation step: a movement pass — data-parallel at or above the
    /// population threshold, sequential below it — followed by the aging
    /// pass. Each agent's end-of-step state is a pure function of its
    /// start-of-step state, its heading, and the terrain, whichever pass
    /// ran.
    pub fn advance_time(&mut self, map: &Terrain, headings: &Vec<(i32, i32)>)
        requires
            old(self).wf(),
            map.wf(),
            old(self).area_dims.0 <= map.width,
            old(self).area_dims.1 <= map.height,
            headings@.len() == old(self).entities@.len(),
            forall|i: int| 0 <= i < headings@.len() ==> heading_wf(#[trigger] headings@[i]),
        ensures
            final(self).spawn_area == old(self).spawn_area,
            final(self).area_dims == old(self).area_dims,
            final(self).entities@.len() == old(self).entities@.len(),
            forall|i: int|
                0 <= i < old(self).entities@.len() ==> #[trigger] final(self).entities@[i]
                    == spec_stepped(
                    old(self).entities@[i],
                    headings@[i],
                    *map,
                    old(self).area_dims,
                ),
            final(self).wf(),
    {
        if self.get_num_entities() >= MT_MIN_ENTITIES {
            self.mt_random_move_all_entities(map, headings);
        } else {
            self.random_move_all_entities(map, headings);
        }
        self.age_all_entities();
    }

    /// The size of the agent under the given key, or `-1` as the
    /// not-found sentinel.
    pub fn get_entity_size(&self, id: u16) -> (s: i32)
        ensures
            id < self.entities@.len() ==> s == self.entities@[id as int].size,
            id >= self.entities@.len() ==> s == -1,
    {
        if (id as usize) < self.entities.len() {
            self.entities[id as usize].size as i32
        } else {
            -1
        }
    }
}

/// Moves one agent in place: a dead agent is untouched, a living one is
/// relocated by its heading, its speed on the material under it, and the
/// area walls.
fn move_entity(e: &mut Entity, heading: (i32, i32), map: &Terrain, area_dims: (u16, u16))
    requires
        map.wf(),
        area_dims.0 >= 1,
        area_dims.1 >= 1,
        area_dims.0 <= map.width,
        area_dims.1 <= map.height,
        old(e).location.0 < area_dims.0,
        old(e).location.1 < area_dims.1,
        heading_wf(heading),
    ensures
        *final(e) == spec_moved(*old(e), heading, *map, area_dims),
{
    if e.is_alive {
        let new_location = EntityMgmt::calculate_new_entity_pos(area_dims, map, e, heading);
        e.update_location(new_location);
    }
}

/// Movement preserves an agent's well-formedness: only the location
/// changes, and it is clamped into the area.
pub proof fn lemma_moved_wf(e: Entity, h: (i32, i32), map: Terrain, area: (u16, u16))
    requires
        e.wf(area),
        area.0 >= 1,
        area.1 >= 1,
    ensures
        spec_moved(e, h, map, area).wf(area),
{
}

/// The fertility curve never exceeds its peak of 900 ninths of a percent.
pub proof fn lemma_fertility_bounded(age: u16)
    ensures
        spec_fertility_at(age) <= 900,
{
    if MIN_FERTILE_AGE <= age && age <= MAX_FERTILE_AGE {
        assert((age - MIN_FERTILE_AGE) * (MAX_FERTILE_AGE - age) * 4 <= 900) by (nonlinear_arith)
            requires
                MIN_FERTILE_AGE <= age <= MAX_FERTILE_AGE,
                MIN_FERTILE_AGE == 15,
                MAX_FERTILE_AGE == 45,
        ;
    }
}

/// Aging preserves an agent's well-formedness: the age grows by at most
/// one while bounded by the death-age, the size stays below the age, and
/// the fertility stays below its peak.
pub proof fn lemma_aged_wf(e: Entity, area: (u16, u16))
    requires
        e.wf(area),
    ensures
        spec_aged(e).wf(area),
{
    lemma_fertility_bounded(((e.age + 1) as u16));
}

/// Clamping pins an agent at the low corner: moved from `(0, 0)` by any
/// non-positive displacement, however large, it stays at `(0, 0)`. Edges
/// are walls.
pub proof fn lemma_clamp_low_edge(delta: (int, int), dims: (u16, u16))
    requires
        dims.0 >= 1,
        dims.1 >= 1,
        delta.0 <= 0,
        delta.1 <= 0,
    ensures
        spec_clamp_coord(0, delta.0, dims.0) == 0,
        spec_clamp_coord(0, delta.1, dims.1) == 0,
{
}

/// Clamping pins an agent at the high corner: moved from
/// `(dims.0 - 1, dims.1 - 1)` by any non-negative displacement, however
/// large, it stays there.
pub proof fn lemma_clamp_high_edge(delta: (int, int), dims: (u16, u16))
    requires
        dims.0 >= 1,
        dims.1 >= 1,
        delta.0 >= 0,
        delta.1 >= 0,
    ensures
        spec_clamp_coord((dims.0 - 1) as u16, delta.0, dims.0) == dims.0 - 1,
        spec_clamp_coord((dims.1 - 1) as u16, delta.1, dims.1) == dims.1 - 1,
{
}

/// Lifecycle monotonicity: a step never decreases an agent's age, and a
/// dead agent is left exactly as it was — death is permanent, there is no
/// resurrection.
pub proof fn lemma_lifecycle_monotonic(e: Entity, h: (i32, i32), map: Terrain, area: (u16, u16))
    requires
        e.age < u16::MAX,
    ensures
        spec_stepped(e, h, map, area).age >= e.age,
        !e.is_alive ==> spec_stepped(e, h, map, area) == e,
{
}

/// The death threshold is exact: a living agent strictly younger than its
/// death-age survives the step; one at or past it is dead after the step.
/// In particular an agent with death-age 5 is alive at age 5 and dead once
/// its age reaches 6.
pub proof fn lemma_death_age_boundary(e: Entity, h: (i32, i32), map: Terrain, area: (u16, u16))
    requires
        e.is_alive,
        e.age < u16::MAX,
    ensures
        e.age < e.death_age ==> spec_stepped(e, h, map, area).is_alive,
        e.age >= e.death_age ==> !spec_stepped(e, h, map, area).is_alive,
{
}

/// Concurrency equivalence: the end-of-step population is a pure function
/// of the start-of-step population, the heading batch, and the terrain.
/// The sequential and the parallel movement pass meet that same
/// per-agent contract, so whichever one `advance_time` selects, the
/// resulting per-agent liveness, size — indeed every attribute — coincide.
pub proof fn lemma_concurrency_equivalence(
    before: Seq<Entity>,
    seq_run: Seq<Entity>,
    par_run: Seq<Entity>,
    headings: Seq<(i32, i32)>,
    map: Terrain,
    area: (u16, u16),
)
    requires
        seq_run.len() == before.len(),
        par_run.len() == before.len(),
        forall|i: int|
            0 <= i < before.len() ==> #[trigger] seq_run[i] == spec_stepped(
                before[i],
                headings[i],
                map,
                area,
            ),
        forall|i: int|
            0 <= i < before.len() ==> #[trigger] par_run[i] == spec_stepped(
                before[i],
                headings[i],
                map,
                area,
            ),
    ensures
        seq_run == par_run,
{
    assert(seq_run =~= par_run);
}

} // verus!
