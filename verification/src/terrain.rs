use vstd::prelude::*;

use crate::SimError;

verus! {

/// Fixed-point scale for coherent-noise samples: a raw noise value in
/// `[-1.0, 1.0]` is carried as an integer in `[-NOISE_FIXED_ONE, NOISE_FIXED_ONE]`.
pub const NOISE_FIXED_ONE: i64 = 1048576;

/// Terrain surface classification governing agent speed.
#[derive(Clone, Copy, Debug, PartialEq, Eq, Structural)]
pub enum Material {
    Mud,
    Grass,
    Ice,
}

impl Material {
    /// The numeric code under which this material is stored in a cell.
    pub fn code(self) -> (c: u8)
        ensures
            c == self.spec_code(),
    {
        match self {
            Material::Mud => 0,
            Material::Grass => 1,
            Material::Ice => 2,
        }
    }

    pub open spec fn spec_code(self) -> u8 {
        match self {
            Material::Mud => 0,
            Material::Grass => 1,
            Material::Ice => 2,
        }
    }

    /// The material stored under a numeric code, if the code is one of the
    /// three defined values.
    pub fn from_code(c: u8) -> (m: Option<Material>)
        ensures
            c < 3 ==> (m matches Some(mm) && mm.spec_code() == c),
            c >= 3 ==> m is None,
    {
        if c == 0 {
            Some(Material::Mud)
        } else if c == 1 {
            Some(Material::Grass)
        } else if c == 2 {
            Some(Material::Ice)
        } else {
            None
        }
    }
}

/// One grid unit of terrain: a height in `[0, depth]` and a material code.
#[derive(Clone, Copy, Debug, PartialEq, Eq, Structural)]
pub struct MapPoint {
    pub height: u8,
    pub material: u8,
}

/// A cell is valid when its height respects the terrain's vertical bound and
/// its material is one of the three defined codes.
pub open spec fn point_wf(p: MapPoint, depth: u8) -> bool {
    p.height <= depth && p.material < 3
}

/// The raw coherent-noise values for one cell, in fixed point
/// (`NOISE_FIXED_ONE` stands for `1.0`): one sample of the height field and
/// three octaves of the biome field.
#[derive(Clone, Copy, Debug, PartialEq, Eq, Structural)]
pub struct NoiseSample {
    pub height_noise: i64,
    pub biome_low: i64,
    pub biome_mid: i64,
    pub biome_high: i64,
}

pub open spec fn sample_wf(s: NoiseSample) -> bool {
    &&& -NOISE_FIXED_ONE <= s.height_noise <= NOISE_FIXED_ONE
    &&& -NOISE_FIXED_ONE <= s.biome_low <= NOISE_FIXED_ONE
    &&& -NOISE_FIXED_ONE <= s.biome_mid <= NOISE_FIXED_ONE
    &&& -NOISE_FIXED_ONE <= s.biome_high <= NOISE_FIXED_ONE
}

/// A height-field sample in `[-1, 1]` mapped linearly onto `[0, depth]` and
/// truncated to an integer.
pub open spec fn spec_height_of(noise: i64, depth: u8) -> u8 {
    (((noise + NOISE_FIXED_ONE) * depth) / (2 * NOISE_FIXED_ONE)) as u8
}

/// The three biome octaves weighted 1, 1/2, 1/4 and renormalized: the combined
/// value is `spec_combined_biome(s) / (7 * NOISE_FIXED_ONE)` in `[-1, 1]`.
pub open spec fn spec_combined_biome(s: NoiseSample) -> int {
    4 * s.biome_low + 2 * s.biome_mid + s.biome_high
}

/// Classification of the combined biome value, renormalized to `[0, 1]`:
/// below 0.375 is Mud, below 0.625 is Grass, and Ice otherwise. Grass
/// occupies a narrower middle band than the other two materials.
pub open spec fn spec_material_of(s: NoiseSample) -> u8 {
    if 4 * spec_combined_biome(s) < -7 * NOISE_FIXED_ONE {
        0
    } else if 4 * spec_combined_biome(s) < 7 * NOISE_FIXED_ONE {
        1
    } else {
        2
    }
}

/// The cell synthesized from one noise sample.
pub open spec fn spec_cell_of(s: NoiseSample, depth: u8) -> MapPoint {
    MapPoint { height: spec_height_of(s.height_noise, depth), material: spec_material_of(s) }
}

/// A 2-D grid of cells stored row-major: the cell at `(x, y)` sits at index
/// `y * width + x`.
#[derive(Clone, Debug)]
pub struct Terrain {
    pub width: u16,
    pub height: u16,
    pub depth: u8,
    pub map: Vec<MapPoint>,
}

impl Terrain {
    /// A terrain must have at least one column and one row.
    pub open spec fn dims_valid(self) -> bool {
        self.width >= 1 && self.height >= 1
    }

    /// Well-formedness: positive area, a dense row-major cell sequence of
    /// exactly `width * height` cells, each cell valid for this depth.
    pub open spec fn wf(self) -> bool {
        &&& self.dims_valid()
        &&& self.map@.len() == self.width * self.height
        &&& forall|i: int|
            0 <= i < self.map@.len() ==> point_wf(#[trigger] self.map@[i], self.depth)
    }

    /// The flat index of the cell at `(x, y)`.
    pub open spec fn spec_index(self, x: u16, y: u16) -> int {
        y * self.width + x
    }

    pub open spec fn spec_material_at(self, x: u16, y: u16) -> u8 {
        self.map@[self.spec_index(x, y)].material
    }

    pub open spec fn spec_height_at(self, x: u16, y: u16) -> u8 {
        self.map@[self.spec_index(x, y)].height
    }

    /// Constructs a terrain of zeroed cells. A zero-area request is a
    /// configuration error, rejected here rather than discovered later as an
    /// out-of-range index.
    pub fn new(width: u16, height: u16, depth: u8) -> (r: Result<Terrain, SimError>)
        ensures
            r is Ok <==> width >= 1 && height >= 1,
            r matches Err(e) ==> e == SimError::Configuration,
            r matches Ok(t) ==> {
                &&& t.width == width
                &&& t.height == height
                &&& t.depth == depth
                &&& t.wf()
                &&& forall|i: int|
                    0 <= i < t.map@.len() ==> t.map@[i] == (MapPoint { height: 0, material: 0 })
            },
    {
        if width == 0 || height == 0 {
            return Err(SimError::Configuration);
        }
        proof {
            assert(width * height <= 0xFFFF * 0xFFFF) by (nonlinear_arith)
                requires
                    width <= 0xFFFF,
                    height <= 0xFFFF,
            ;
        }
        let count: usize = (width as usize) * (height as usize);
        let mut map: Vec<MapPoint> = Vec::new();
        let mut i: usize = 0;
        while i < count
            invariant
                i <= count,
                map@.len() == i,
                forall|j: int|
                    0 <= j < i ==> map@[j] == (MapPoint { height: 0, material: 0 }),
            decreases count - i,
        {
            map.push(MapPoint { height: 0, material: 0 });
            i = i + 1;
        }
        Ok(Terrain { width, height, depth, map })
    }

    /// Discards all cells and replaces them with zeroed ones, keeping the
    /// dimensions. Regeneration of a world is this followed by
    /// `initialise_terrain` on a fresh batch of noise samples.
    pub fn reset(&mut self)
        requires
            old(self).dims_valid(),
        ensures
            final(self).width == old(self).width,
            final(self).height == old(self).height,
            final(self).depth == old(self).depth,
            final(self).map@.len() == final(self).width * final(self).height,
            forall|i: int|
                0 <= i < final(self).map@.len() ==> final(self).map@[i] == (MapPoint {
                    height: 0,
                    material: 0,
                }),
    {
        let fresh = Terrain::new(self.width, self.height, self.depth);
        match fresh {
            Ok(t) => {
                *self = t;
            },
            Err(_) => {
                // unreachable: the dimensions were validated at construction
                proof {
                    assert(false);
                }
            },
        }
    }

    /// Populates every cell from the given per-cell noise samples, row-major.
    /// The result is a pure function of the samples: synthesis from one seed
    /// is deterministic exactly because the sample batch is.
    pub fn initialise_terrain(&mut self, samples: &Vec<NoiseSample>) -> (r: bool)
        requires
            old(self).dims_valid(),
            samples@.len() == old(self).width * old(self).height,
            forall|i: int| 0 <= i < samples@.len() ==> sample_wf(#[trigger] samples@[i]),
        ensures
            r == true,
            final(self).width == old(self).width,
            final(self).height == old(self).height,
            final(self).depth == old(self).depth,
            final(self).map@.len() == samples@.len(),
            forall|i: int|
                0 <= i < samples@.len() ==> final(self).map@[i] == spec_cell_of(
                    samples@[i],
                    old(self).depth,
                ),
            final(self).wf(),
    {
        let count: usize = samples.len();
        let mut map: Vec<MapPoint> = Vec::new();
        let mut i: usize = 0;
        while i < count
            invariant
                i <= count,
                count == samples@.len(),
                forall|j: int| 0 <= j < count ==> sample_wf(#[trigger] samples@[j]),
                map@.len() == i,
                forall|j: int|
                    0 <= j < i ==> map@[j] == spec_cell_of(samples@[j], old(self).depth),
                forall|j: int| 0 <= j < i ==> point_wf(#[trigger] map@[j], old(self).depth),
                *self == *old(self),
            decreases count - i,
        {
            let s = samples[i];
            let cell = synthesize_cell(&s, self.depth);
            map.push(cell);
            i = i + 1;
        }
        self.map = map;
        true
    }

    /// The cell at `(x, y)`. Coordinates are checked statically: callers must
    /// prove they are in range, so no out-of-range lookup can be compiled.
    pub fn get_point(&self, x: u16, y: u16) -> (p: &MapPoint)
        requires
            self.wf(),
            x < self.width,
            y < self.height,
        ensures
            *p == self.map@[self.spec_index(x, y)],
    {
        proof {
            lemma_row_major_index_in_range(self.width as int, self.height as int, x as int, y as int);
            assert(self.width * self.height <= 0xFFFF * 0xFFFF) by (nonlinear_arith)
                requires
                    self.width <= 0xFFFF,
                    self.height <= 0xFFFF,
            ;
        }
        let idx: usize = (y as usize) * (self.width as usize) + (x as usize);
        &self.map[idx]
    }

    pub fn get_material(&self, x: u16, y: u16) -> (m: u8)
        requires
            self.wf(),
            x < self.width,
            y < self.height,
        ensures
            m == self.spec_material_at(x, y),
            m < 3,
    {
        let point = self.get_point(x, y);
        proof {
            lemma_row_major_index_in_range(
                self.width as int,
                self.height as int,
                x as int,
                y as int,
            );
        }
        point.material
    }

    pub fn get_height(&self, x: u16, y: u16) -> (h: u8)
        requires
            self.wf(),
            x < self.width,
            y < self.height,
        ensures
            h == self.spec_height_at(x, y),
            h <= self.depth,
    {
        let point = self.get_point(x, y);
        proof {
            lemma_row_major_index_in_range(self.width as int, self.height as int, x as int, y as int);
        }
        point.height
    }

    pub fn get_dims(&self) -> (d: (u16, u16))
        ensures
            d == (self.width, self.height),
    {
        (self.width, self.height)
    }
}

/// In a `width`-wide, `height`-tall row-major grid, the flat index of any
/// in-range `(x, y)` lies below `width * height`.
pub proof fn lemma_row_major_index_in_range(width: int, height: int, x: int, y: int)
    by (nonlinear_arith)
    requires
        0 <= x < width,
        0 <= y < height,
    ensures
        0 <= y * width + x < width * height,
{
}

/// Builds one cell from one noise sample: the height field is mapped onto
/// `[0, depth]`, the biome octaves are combined and classified.
fn synthesize_cell(s: &NoiseSample, depth: u8) -> (c: MapPoint)
    requires
        sample_wf(*s),
    ensures
        c == spec_cell_of(*s, depth),
        point_wf(c, depth),
{
    proof {
        assert((s.height_noise + NOISE_FIXED_ONE) * depth <= 2097152 * 255) by (nonlinear_arith)
            requires
                0 <= s.height_noise + NOISE_FIXED_ONE <= 2097152,
                0 <= depth <= 255,
        ;
    }
    let shifted: u64 = (s.height_noise + NOISE_FIXED_ONE) as u64;
    let scaled: u64 = shifted * (depth as u64);
    let h64: u64 = scaled / ((2 * NOISE_FIXED_ONE) as u64);
    proof {
        lemma_height_mapping_in_range(s.height_noise as int, depth as int);
    }
    let height_val: u8 = h64 as u8;

    let combined: i64 = 4 * s.biome_low + 2 * s.biome_mid + s.biome_high;
    let material_val: u8 = if 4 * combined < -7 * NOISE_FIXED_ONE {
        0
    } else if 4 * combined < 7 * NOISE_FIXED_ONE {
        1
    } else {
        2
    };
    MapPoint { height: height_val, material: material_val }
}

/// The linear map from a bounded noise value onto `[0, depth]` stays within
/// `[0, depth]` after truncating division.
proof fn lemma_height_mapping_in_range(noise: int, depth: int)
    requires
        -NOISE_FIXED_ONE <= noise <= NOISE_FIXED_ONE,
        0 <= depth <= 255,
    ensures
        0 <= ((noise + NOISE_FIXED_ONE) * depth) / (2 * NOISE_FIXED_ONE) <= depth,
{
    assert(0 <= (noise + NOISE_FIXED_ONE) * depth <= (2 * NOISE_FIXED_ONE) * depth)
        by (nonlinear_arith)
        requires
            0 <= noise + NOISE_FIXED_ONE <= 2 * NOISE_FIXED_ONE,
            0 <= depth,
    ;
    vstd::arithmetic::div_mod::lemma_div_pos_is_pos(
        (noise + NOISE_FIXED_ONE) * depth,
        2 * NOISE_FIXED_ONE,
    );
    vstd::arithmetic::div_mod::lemma_div_is_ordered(
        (noise + NOISE_FIXED_ONE) * depth,
        (2 * NOISE_FIXED_ONE) * depth,
        2 * NOISE_FIXED_ONE,
    );
    vstd::arithmetic::div_mod::lemma_div_multiples_vanish(depth, 2 * NOISE_FIXED_ONE);
}

/// The synthesized grid is a pure function of the noise samples: two terrains
/// of one depth populated from equal sample batches hold equal cells.
pub proof fn lemma_synthesis_deterministic(a: Terrain, b: Terrain, samples: Seq<NoiseSample>)
    requires
        a.depth == b.depth,
        a.map@.len() == samples.len(),
        b.map@.len() == samples.len(),
        forall|i: int| 0 <= i < samples.len() ==> a.map@[i] == spec_cell_of(samples[i], a.depth),
        forall|i: int| 0 <= i < samples.len() ==> b.map@[i] == spec_cell_of(samples[i], b.depth),
    ensures
        a.map@ == b.map@,
{
    assert(a.map@ =~= b.map@);
}

} // verus!
