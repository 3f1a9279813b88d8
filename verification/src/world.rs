//! The world grid and the terrain synthesizer: allocation, coordinate
//! mapping, the per-cell combination of the elevation and plate fields,
//! and the laws the pipeline obeys.

use crate::config::GenConfig;
use crate::config::GenError;
use crate::config::MICRO;
use crate::config::WORLD_X_WIDTH;
use crate::config::WORLD_Y_HEIGHT;
use crate::noisegen::PlateData;
use crate::noisegen::TectonicPlateType;
use crate::noisegen::WorldNoiseMap;
use crate::noisegen::WorldPlateMap;
use crate::noisegen::gen_elevation_map;
use crate::noisegen::gen_plate_map;
use crate::noisegen::spec_kind_of;
use crate::noisegen::spec_normalized_height;
use crate::noisegen::spec_plate_table;
use crate::noisegen::spec_trunc_plate_id;
use crate::tile::Tile;
use crate::tile::TileType;
use crate::tile::spec_classify;
use crate::tile::spec_color_ok;
use crate::tile::spec_default_tile;
use crate::tile::spec_tile_color;
use vstd::arithmetic::div_mod::lemma_div_is_ordered;
use vstd::arithmetic::div_mod::lemma_multiply_divide_lt;
use vstd::arithmetic::mul::lemma_mul_inequality;
use vstd::arithmetic::mul::lemma_mul_strict_inequality;
use vstd::arithmetic::mul::lemma_mul_upper_bound;
use vstd::prelude::*;

verus! {

/// The elevation bias a cell receives from the kind of its plate:
/// continental plates push land up, oceanic plates pull it down.
pub open spec fn spec_plate_bias(kind: TectonicPlateType) -> int {
    match kind {
        TectonicPlateType::Continental => 20,
        TectonicPlateType::Oceanic => -10,
    }
}

/// The mountain bonus of a cell, in micro elevation steps: zero at or
/// beyond the formation distance; otherwise the peak height scaled by the
/// square of `1 - dist / formation_distance`, so the bonus rises sharply
/// toward the boundary. All divisions truncate.
pub open spec fn spec_mountain_bonus(dist: i64, cfg: GenConfig) -> int {
    if dist < cfg.mountain_formation_distance {
        let f = MICRO - (dist * MICRO) / (cfg.mountain_formation_distance as int);
        let f2 = (f * f) / (MICRO as int);
        (cfg.mountain_max_height * f2) / (MICRO as int)
    } else {
        0
    }
}

/// The final elevation of a cell: normalized base, plus the plate-kind
/// bias, plus the mountain bonus, clamped to [0, 255] and truncated.
pub open spec fn spec_synth_elevation(
    base: u8,
    kind: TectonicPlateType,
    dist: i64,
    cfg: GenConfig,
) -> u8 {
    let total = (base + spec_plate_bias(kind)) * (MICRO as int) + spec_mountain_bonus(dist, cfg);
    if total <= 0 {
        0u8
    } else if total / (MICRO as int) > 255 {
        255u8
    } else {
        ((total / (MICRO as int)) as u8)
    }
}

/// The whole per-cell synthesis step: final elevation, the classification
/// that follows from it, and the color that follows from both. The
/// reserved property flags pass through untouched.
pub open spec fn spec_synth_tile(
    t: Tile,
    base: u8,
    kind: TectonicPlateType,
    dist: i64,
    cfg: GenConfig,
) -> Tile {
    let e = spec_synth_elevation(base, kind, dist, cfg);
    let ty = spec_classify(e, cfg.water_level);
    (Tile {
        tile_type: ty,
        elevation: e,
        properties: t.properties,
        tile_color: spec_tile_color(ty, e, cfg),
    })
}

/// Exec form of [`spec_synth_elevation`].
fn synth_elevation(base: u8, kind: TectonicPlateType, dist: i64, cfg: &GenConfig) -> (e: u8)
    requires
        cfg.wf(),
        dist >= 0,
    ensures
        e == spec_synth_elevation(base, kind, dist, *cfg),
{
    let bonus: i64 = if dist < cfg.mountain_formation_distance {
        proof {
            lemma_mul_strict_inequality(
                dist as int,
                cfg.mountain_formation_distance as int,
                MICRO as int,
            );
            lemma_multiply_divide_lt(
                dist as int * MICRO as int,
                cfg.mountain_formation_distance as int,
                MICRO as int,
            );
        }
        let fpart: u64 = ((dist as u64) * (MICRO as u64)) / (cfg.mountain_formation_distance
            as u64);
        let f: u64 = (MICRO as u64) - fpart;
        proof {
            lemma_mul_upper_bound(f as int, MICRO as int, f as int, MICRO as int);
            lemma_div_is_ordered(
                f as int * f as int,
                MICRO as int * MICRO as int,
                MICRO as int,
            );
        }
        let f2: u64 = (f * f) / (MICRO as u64);
        proof {
            lemma_mul_upper_bound(
                cfg.mountain_max_height as int,
                crate::config::MAX_PARAM_MICRO as int,
                f2 as int,
                MICRO as int,
            );
            lemma_div_is_ordered(
                cfg.mountain_max_height as int * f2 as int,
                crate::config::MAX_PARAM_MICRO as int * MICRO as int,
                MICRO as int,
            );
        }
        (((cfg.mountain_max_height as u64) * f2) / (MICRO as u64)) as i64
    } else {
        0
    };
    let bias: i64 = match kind {
        TectonicPlateType::Continental => 20,
        TectonicPlateType::Oceanic => -10,
    };
    let biased: i64 = (base as i64) + bias;
    let total: i64 = biased * MICRO + bonus;
    if total <= 0 {
        0
    } else {
        let t: u64 = (total as u64) / (MICRO as u64);
        if t > 255 {
            255
        } else {
            t as u8
        }
    }
}

/// The world grid: a dense row-major sequence of cells, `width * height`
/// of them, fixed at construction.
#[derive(Debug)]
pub struct World {
    tiles: Vec<Tile>,
    width: u32,
    height: u32,
}

impl World {
    /// The cells, row-major: the cell at `(x, y)` sits at `y * width + x`.
    pub closed spec fn spec_tiles(&self) -> Seq<Tile> {
        self.tiles@
    }

    /// Grid width.
    pub closed spec fn spec_width(&self) -> u32 {
        self.width
    }

    /// Grid height.
    pub closed spec fn spec_height(&self) -> u32 {
        self.height
    }

    /// The grid invariant: the cell sequence covers the grid exactly, and
    /// never changes length after construction.
    pub open spec fn wf(&self) -> bool {
        self.spec_tiles().len() == self.spec_width() * self.spec_height()
    }

    /// Grid width.
    pub fn width(&self) -> (w: u32)
        ensures
            w == self.spec_width(),
    {
        self.width
    }

    /// Grid height.
    pub fn height(&self) -> (h: u32)
        ensures
            h == self.spec_height(),
    {
        self.height
    }

    /// Read access to every cell, row-major: the integration point for a
    /// rendering collaborator.
    pub fn tiles(&self) -> (r: &Vec<Tile>)
        ensures
            r@ == self.spec_tiles(),
    {
        &self.tiles
    }

    /// Allocates a `width * height` grid of default cells. Fails before
    /// any generation work if either dimension is zero or the cell count
    /// overflows the addressable index range.
    pub fn new(width: u32, height: u32) -> (r: Result<World, GenError>)
        ensures
            (width == 0 || height == 0) ==> r == Err::<World, GenError>(GenError::ZeroDimension),
            width > 0 && height > 0 && (width as int) * (height as int) > (usize::MAX as int)
                ==> r == Err::<World, GenError>(GenError::SizeOverflow),
            r is Ok <==> width > 0 && height > 0 && (width as int) * (height as int) <= (usize::MAX
                as int),
            r matches Ok(w) ==> {
                &&& w.wf()
                &&& w.spec_width() == width
                &&& w.spec_height() == height
                &&& w.spec_tiles().len() == (width as int) * (height as int)
                &&& forall|i: int|
                    0 <= i < w.spec_tiles().len() ==> w.spec_tiles()[i] == spec_default_tile()
            },
    {
        if width == 0 || height == 0 {
            return Err(GenError::ZeroDimension);
        }
        proof {
            lemma_mul_upper_bound(width as int, u32::MAX as int, height as int, u32::MAX as int);
        }
        let n64: u64 = (width as u64) * (height as u64);
        if n64 > (usize::MAX as u64) {
            return Err(GenError::SizeOverflow);
        }
        let world_size: usize = n64 as usize;
        let mut tiles: Vec<Tile> = Vec::new();
        let mut i: usize = 0;
        while i < world_size
            invariant
                i <= world_size,
                tiles@.len() == i,
                forall|k: int| 0 <= k < i ==> tiles@[k] == spec_default_tile(),
            decreases world_size - i,
        {
            tiles.push(Tile::default());
            i = i + 1;
        }
        Ok(World { tiles, width, height })
    }

    /// The cell at `(x, y)`: nothing when either coordinate is out of
    /// bounds, otherwise the cell at row-major index `y * width + x`.
    pub fn get_world_tile(&self, x: u32, y: u32) -> (r: Option<&Tile>)
        requires
            self.wf(),
        ensures
            (x >= self.spec_width() || y >= self.spec_height()) <==> r is None,
            r matches Some(t) ==> x < self.spec_width() && y < self.spec_height() && *t
                == self.spec_tiles()[(y as int) * (self.spec_width() as int) + (x as int)],
    {
        if x >= self.width || y >= self.height {
            None
        } else {
            let len = self.tiles.len();
            proof {
                assert((y as int) * (self.spec_width() as int) + (x as int) < (self.spec_width()
                    as int) * (self.spec_height() as int)) by (nonlinear_arith)
                    requires
                        x < self.spec_width(),
                        y < self.spec_height(),
                ;
            }
            let index: usize = (y as usize) * (self.width as usize) + (x as usize);
            Some(&self.tiles[index])
        }
    }

    /// Runs the synthesizer over the whole grid, one pass, each cell
    /// touched exactly once: final elevation from the two fields, then
    /// classification, then color.
    pub fn generate_terrain(
        &mut self,
        base_elevation_map: &WorldNoiseMap,
        plate_map: &WorldPlateMap,
        cfg: &GenConfig,
    )
        requires
            old(self).wf(),
            cfg.wf(),
            plate_map.wf(),
            base_elevation_map@.len() == old(self).spec_tiles().len(),
            plate_map.plates@.len() == old(self).spec_tiles().len(),
        ensures
            final(self).wf(),
            final(self).spec_width() == old(self).spec_width(),
            final(self).spec_height() == old(self).spec_height(),
            final(self).spec_tiles().len() == old(self).spec_tiles().len(),
            forall|i: int|
                0 <= i < old(self).spec_tiles().len() ==> final(self).spec_tiles()[i]
                    == spec_synth_tile(
                    old(self).spec_tiles()[i],
                    spec_normalized_height(base_elevation_map@[i]),
                    plate_map.spec_plate_type_at(i),
                    plate_map.plates@[i].dist_to_edge,
                    *cfg,
                ),
    {
        let ghost orig_tiles = self.tiles@;
        let ghost w0 = self.width;
        let ghost h0 = self.height;
        let n = self.tiles.len();
        let mut index: usize = 0;
        while index < n
            invariant
                index <= n,
                n == orig_tiles.len(),
                self.width == w0,
                self.height == h0,
                self.tiles@.len() == orig_tiles.len(),
                cfg.wf(),
                plate_map.wf(),
                base_elevation_map@.len() == orig_tiles.len(),
                plate_map.plates@.len() == orig_tiles.len(),
                forall|k: int|
                    0 <= k < index ==> self.tiles@[k] == spec_synth_tile(
                        orig_tiles[k],
                        spec_normalized_height(base_elevation_map@[k]),
                        plate_map.spec_plate_type_at(k),
                        plate_map.plates@[k].dist_to_edge,
                        *cfg,
                    ),
                forall|k: int| index <= k < orig_tiles.len() ==> self.tiles@[k] == orig_tiles[k],
            decreases n - index,
        {
            let base_height = base_elevation_map.get_height_from_noisemap(index);
            let plate_type = plate_map.get_plate_type(index);
            let distance_to_edge = plate_map.get_distance_to_edge(index);
            let final_elevation = synth_elevation(base_height, plate_type, distance_to_edge, cfg);
            let mut tile = self.tiles[index];
            tile.elevation = final_elevation;
            tile.update_tile_type(cfg);
            match tile.update_color(cfg) {
                Ok(()) => {},
                Err(_) => unreached(),
            }
            self.tiles[index] = tile;
            index = index + 1;
        }
    }

    /// Reclassifies every cell below the water level as ocean and
    /// recolors it; cells at or above the water level stay untouched.
    pub fn apply_water_level(&mut self, cfg: &GenConfig)
        ensures
            final(self).spec_width() == old(self).spec_width(),
            final(self).spec_height() == old(self).spec_height(),
            final(self).spec_tiles().len() == old(self).spec_tiles().len(),
            forall|i: int|
                0 <= i < old(self).spec_tiles().len() ==> final(self).spec_tiles()[i]
                    == spec_water_leveled(old(self).spec_tiles()[i], *cfg),
    {
        let ghost orig_tiles = self.tiles@;
        let ghost w0 = self.width;
        let ghost h0 = self.height;
        let n = self.tiles.len();
        let mut index: usize = 0;
        while index < n
            invariant
                index <= n,
                n == orig_tiles.len(),
                self.width == w0,
                self.height == h0,
                self.tiles@.len() == orig_tiles.len(),
                forall|k: int|
                    0 <= k < index ==> self.tiles@[k] == spec_water_leveled(orig_tiles[k], *cfg),
                forall|k: int| index <= k < orig_tiles.len() ==> self.tiles@[k] == orig_tiles[k],
            decreases n - index,
        {
            let mut tile = self.tiles[index];
            if tile.elevation < cfg.water_level {
                tile.tile_type = TileType::Ocean;
                match tile.update_color(cfg) {
                    Ok(()) => {},
                    Err(_) => unreached(),
                }
                self.tiles[index] = tile;
            }
            index = index + 1;
        }
    }
}

/// A cell after the water-level pass: below the water level it is ocean
/// with the ocean color, otherwise unchanged.
pub open spec fn spec_water_leveled(t: Tile, cfg: GenConfig) -> Tile {
    if t.elevation < cfg.water_level {
        (Tile {
            tile_type: TileType::Ocean,
            tile_color: spec_tile_color(TileType::Ocean, t.elevation, cfg),
            ..t
        })
    } else {
        t
    }
}

/// The plate kind the cell at index `i` of `ps` resolves to, under the
/// id-to-kind table drawn from `seed`.
pub open spec fn spec_plate_kind_at(ps: Seq<PlateData>, seed: u64, i: int) -> TectonicPlateType {
    spec_kind_of(spec_plate_table(ps, seed), spec_trunc_plate_id(ps[i].id)).unwrap()
}

/// What `generate_new_world` promises of a world it returns: the full
/// pipeline, cell by cell, as a function of the inputs alone.
pub open spec fn spec_generated_world(
    w: World,
    width: u32,
    height: u32,
    es: Seq<i64>,
    ps: Seq<PlateData>,
    seed: u64,
    cfg: GenConfig,
) -> bool {
    &&& w.wf()
    &&& w.spec_width() == width
    &&& w.spec_height() == height
    &&& w.spec_tiles().len() == (width as int) * (height as int)
    &&& forall|i: int|
        0 <= i < w.spec_tiles().len() ==> w.spec_tiles()[i] == spec_synth_tile(
            spec_default_tile(),
            spec_normalized_height(es[i]),
            spec_plate_kind_at(ps, seed, i),
            ps[i].dist_to_edge,
            cfg,
        )
}

/// The generation entry point: allocates the grid, builds the two fields
/// from the raw sample vectors (one fixed-point sample per cell, row-major),
/// and runs the synthesizer. Deterministic: the result is a function of
/// the arguments alone.
pub fn generate_new_world(
    width: u32,
    height: u32,
    elevation_samples: Vec<i64>,
    plate_samples: Vec<PlateData>,
    seed: u64,
    cfg: &GenConfig,
) -> (r: Result<World, GenError>)
    requires
        cfg.wf(),
        forall|i: int|
            0 <= i < plate_samples@.len() ==> #[trigger] plate_samples@[i].dist_to_edge >= 0,
    ensures
        (width == 0 || height == 0) ==> r == Err::<World, GenError>(GenError::ZeroDimension),
        width > 0 && height > 0 && (width as int) * (height as int) > (usize::MAX as int) ==> r
            == Err::<World, GenError>(GenError::SizeOverflow),
        width > 0 && height > 0 && (width as int) * (height as int) <= (usize::MAX as int) && !(
        elevation_samples@.len() == (width as int) * (height as int) && plate_samples@.len() == (
        width as int) * (height as int)) ==> r == Err::<World, GenError>(
            GenError::FieldSizeMismatch,
        ),
        r is Ok <==> width > 0 && height > 0 && (width as int) * (height as int) <= (usize::MAX
            as int) && elevation_samples@.len() == (width as int) * (height as int)
            && plate_samples@.len() == (width as int) * (height as int),
        r matches Ok(w) ==> spec_generated_world(
            w,
            width,
            height,
            elevation_samples@,
            plate_samples@,
            seed,
            *cfg,
        ),
{
    let mut world = match World::new(width, height) {
        Ok(w) => w,
        Err(e) => { return Err(e) },
    };
    let world_size = world.tiles.len();
    if elevation_samples.len() != world_size || plate_samples.len() != world_size {
        return Err(GenError::FieldSizeMismatch);
    }
    let base_elevation_map = gen_elevation_map(elevation_samples);
    let plate_map = gen_plate_map(plate_samples, seed);
    world.generate_terrain(&base_elevation_map, &plate_map, cfg);
    Ok(world)
}

/// Maps a row-major cell index to grid coordinates: `x = index mod width`,
/// `y = index div width`. Meaningful only for a positive width.
pub fn coords_from_index(index: usize, width: u32) -> (r: (u32, u32))
    requires
        width > 0,
        index <= u32::MAX as usize,
    ensures
        r.0 == (index as int) % (width as int),
        r.1 == (index as int) / (width as int),
{
    let w = width as usize;
    let x = index % w;
    let y = index / w;
    proof {
        vstd::arithmetic::div_mod::lemma_div_nonincreasing(index as int, w as int);
        vstd::arithmetic::div_mod::lemma_div_pos_is_pos(index as int, w as int);
    }
    (x as u32, y as u32)
}

/// Maps grid coordinates to the row-major cell index: `y * width + x`.
pub fn coords_to_index(x: u32, y: u32, width: u32) -> (index: u64)
    ensures
        index == (y as int) * (width as int) + (x as int),
{
    proof {
        lemma_mul_upper_bound(y as int, u32::MAX as int, width as int, u32::MAX as int);
    }
    (y as u64) * (width as u64) + (x as u64)
}

/// Coordinates of a cell index in the default world's grid.
pub fn get_coords_from_index(index: usize) -> (r: (u32, u32))
    requires
        index <= u32::MAX as usize,
    ensures
        r.0 == (index as int) % (WORLD_X_WIDTH as int),
        r.1 == (index as int) / (WORLD_X_WIDTH as int),
{
    coords_from_index(index, WORLD_X_WIDTH)
}

/// Cell index of coordinates in the default world's grid.
pub fn get_index_from_coords(x: u32, y: u32) -> (index: u32)
    requires
        x < WORLD_X_WIDTH,
        y < WORLD_Y_HEIGHT,
    ensures
        index == (y as int) * (WORLD_X_WIDTH as int) + (x as int),
{
    y * WORLD_X_WIDTH + x
}

/// Determinism: for a fixed seed, fixed parameters and fixed sample
/// fields, two generated worlds agree in every cell — elevations,
/// classifications and colors alike.
pub proof fn lemma_generate_world_deterministic(
    w1: World,
    w2: World,
    width: u32,
    height: u32,
    es: Seq<i64>,
    ps: Seq<PlateData>,
    seed: u64,
    cfg: GenConfig,
)
    requires
        spec_generated_world(w1, width, height, es, ps, seed, cfg),
        spec_generated_world(w2, width, height, es, ps, seed, cfg),
    ensures
        w1.spec_tiles() == w2.spec_tiles(),
        w1.spec_width() == w2.spec_width(),
        w1.spec_height() == w2.spec_height(),
{
    assert(w1.spec_tiles() =~= w2.spec_tiles());
}

/// Classification consistency: a synthesized cell is ocean exactly when
/// its final elevation lies below the water level.
pub proof fn lemma_classification_consistent(
    t: Tile,
    prior: Tile,
    base: u8,
    kind: TectonicPlateType,
    dist: i64,
    cfg: GenConfig,
)
    requires
        t == spec_synth_tile(prior, base, kind, dist, cfg),
    ensures
        t.tile_type == TileType::Ocean <==> t.elevation < cfg.water_level,
{
}

/// Color totality: a synthesized cell never falls through all color
/// rules — land below the water level cannot come out of the synthesizer —
/// and every channel of the derived color is one byte, hence in [0, 255].
pub proof fn lemma_color_rules_total(
    t: Tile,
    prior: Tile,
    base: u8,
    kind: TectonicPlateType,
    dist: i64,
    cfg: GenConfig,
)
    requires
        t == spec_synth_tile(prior, base, kind, dist, cfg),
    ensures
        spec_color_ok(t.tile_type, t.elevation, cfg.water_level),
{
}

/// Classification consistency over a whole generated world: every cell
/// is ocean exactly when its final elevation lies below the water level.
pub proof fn lemma_world_classification_consistent(
    w: World,
    width: u32,
    height: u32,
    es: Seq<i64>,
    ps: Seq<PlateData>,
    seed: u64,
    cfg: GenConfig,
)
    requires
        spec_generated_world(w, width, height, es, ps, seed, cfg),
    ensures
        forall|i: int|
            0 <= i < w.spec_tiles().len() ==> ((#[trigger] w.spec_tiles()[i]).tile_type
                == TileType::Ocean <==> w.spec_tiles()[i].elevation < cfg.water_level),
{
}

/// Color totality over a whole generated world: no cell falls through
/// all color rules.
pub proof fn lemma_world_color_rules_total(
    w: World,
    width: u32,
    height: u32,
    es: Seq<i64>,
    ps: Seq<PlateData>,
    seed: u64,
    cfg: GenConfig,
)
    requires
        spec_generated_world(w, width, height, es, ps, seed, cfg),
    ensures
        forall|i: int|
            0 <= i < w.spec_tiles().len() ==> spec_color_ok(
                (#[trigger] w.spec_tiles()[i]).tile_type,
                w.spec_tiles()[i].elevation,
                cfg.water_level,
            ),
{
}

/// Mountain bonus monotonicity: of two cells with the same base elevation
/// and plate kind, both within the mountain formation distance, the one
/// nearer its plate boundary never ends up with a lower final elevation.
pub proof fn lemma_mountain_bonus_monotonic(
    base: u8,
    kind: TectonicPlateType,
    d1: i64,
    d2: i64,
    cfg: GenConfig,
)
    requires
        cfg.wf(),
        0 <= d1 <= d2,
        d2 < cfg.mountain_formation_distance,
    ensures
        spec_synth_elevation(base, kind, d1, cfg) >= spec_synth_elevation(base, kind, d2, cfg),
{
    let mfd = cfg.mountain_formation_distance as int;
    let mmh = cfg.mountain_max_height as int;
    let m = MICRO as int;
    lemma_mul_inequality(d1 as int, d2 as int, m);
    lemma_div_is_ordered(d1 as int * m, d2 as int * m, mfd);
    lemma_mul_strict_inequality(d2 as int, mfd, m);
    lemma_multiply_divide_lt(d2 as int * m, mfd, m);
    vstd::arithmetic::div_mod::lemma_div_pos_is_pos(d1 as int * m, mfd);
    let f1 = m - (d1 as int * m) / mfd;
    let f2 = m - (d2 as int * m) / mfd;
    assert(0 <= f2 <= f1);
    lemma_mul_inequality(f2, f1, f2);
    lemma_mul_inequality(f2, f1, f1);
    assert(f2 * f2 <= f1 * f1);
    lemma_div_is_ordered(f2 * f2, f1 * f1, m);
    lemma_mul_inequality((f2 * f2) / m, (f1 * f1) / m, mmh);
    lemma_div_is_ordered(mmh * ((f2 * f2) / m), mmh * ((f1 * f1) / m), m);
    assert(spec_mountain_bonus(d2, cfg) <= spec_mountain_bonus(d1, cfg));
    let total1 = (base + spec_plate_bias(kind)) * m + spec_mountain_bonus(d1, cfg);
    let total2 = (base + spec_plate_bias(kind)) * m + spec_mountain_bonus(d2, cfg);
    lemma_div_is_ordered(total2, total1, m);
}

} // verus!
