//! The two per-cell fields the terrain synthesizer consumes: the layered
//! noise elevation field and the tectonic-plate field.
//!
//! Raw noise samples arrive as fixed-point integers (millionths of a
//! unit), one per cell index. This module normalizes elevation samples to
//! the 8-bit scale, truncates continuous plate identifiers to canonical
//! integer ids, and gives every discovered plate a kind from a seeded
//! random source, so that a fixed seed yields the same world every run.

use crate::config::MICRO;
use vstd::prelude::*;

verus! {

/// The kind of a tectonic plate, biasing the elevation of its cells.
#[derive(Clone, Copy, Debug, PartialEq, Eq, Structural)]
pub enum TectonicPlateType {
    Oceanic,
    Continental,
}

/// The elevation field: one raw noise sample per cell index, in
/// micro-units, nominally in [-1, +1].
pub struct WorldNoiseMap {
    noise_instance: Vec<i64>,
}

impl View for WorldNoiseMap {
    type V = Seq<i64>;

    closed spec fn view(&self) -> Seq<i64> {
        self.noise_instance@
    }
}

impl Default for WorldNoiseMap {
    /// An empty elevation field.
    fn default() -> (r: Self)
        ensures
            r@ == Seq::<i64>::empty(),
    {
        WorldNoiseMap { noise_instance: Vec::new() }
    }
}

/// The canonical normalization from a raw sample to the 8-bit elevation
/// scale: `(sample + 1) * 127.5`, truncated, clamped to [0, 255]. In
/// micro-units that is `(s + MICRO) * 255 / (2 * MICRO)`, rounded toward
/// zero; samples at or below -1 give 0, at or above +1 give 255.
pub open spec fn spec_normalized_height(s: i64) -> u8 {
    if s <= -MICRO {
        0u8
    } else if s >= MICRO {
        255u8
    } else {
        ((((s + MICRO) * 255) / ((2 * MICRO) as int)) as u8)
    }
}

/// Builds the elevation field from one raw sample per cell index, in
/// row-major order.
pub fn gen_elevation_map(samples: Vec<i64>) -> (m: WorldNoiseMap)
    ensures
        m@ == samples@,
{
    WorldNoiseMap { noise_instance: samples }
}

impl WorldNoiseMap {
    /// Number of samples held.
    pub fn len(&self) -> (n: usize)
        ensures
            n == self@.len(),
    {
        self.noise_instance.len()
    }

    /// The normalized 8-bit elevation of the cell at `index`.
    pub fn get_height_from_noisemap(&self, index: usize) -> (h: u8)
        requires
            index < self@.len(),
        ensures
            h == spec_normalized_height(self@[index as int]),
    {
        let s = self.noise_instance[index];
        if s <= -MICRO {
            0
        } else if s >= MICRO {
            255
        } else {
            let t: u64 = (s + MICRO) as u64;
            ((t * 255) / (2 * (MICRO as u64))) as u8
        }
    }
}

/// One cell of the plate field: the continuous identifier of the plate
/// the cell falls in, and the distance to the nearest plate boundary,
/// both in micro-units.
#[derive(Clone, Copy, Debug, PartialEq, Eq, Structural)]
pub struct PlateData {
    /// Continuous plate identifier value, micro-units.
    pub id: i64,
    /// Distance to the nearest plate boundary, micro-units, non-negative.
    pub dist_to_edge: i64,
}

/// The canonical integer form of a continuous plate identifier: truncated
/// toward zero and saturated to the `u32` range, so nearby identifier
/// values from the same plate collapse to one key.
pub open spec fn spec_trunc_plate_id(id: i64) -> u32 {
    if id <= 0 {
        0u32
    } else if (id as int) / (MICRO as int) > u32::MAX {
        u32::MAX
    } else {
        (((id as int) / (MICRO as int)) as u32)
    }
}

/// Exec form of [`spec_trunc_plate_id`].
pub fn trunc_plate_id(id: i64) -> (r: u32)
    ensures
        r == spec_trunc_plate_id(id),
{
    if id <= 0 {
        0
    } else {
        let q: u64 = (id as u64) / (MICRO as u64);
        if q > (u32::MAX as u64) {
            u32::MAX
        } else {
            q as u32
        }
    }
}

/// The seeded random source: start state of the stream drawn from `seed`.
/// A zero seed is replaced by a fixed odd constant, since the step
/// function holds zero in place.
pub open spec fn spec_rng_init(seed: u64) -> u64 {
    if seed == 0 {
        0x9E3779B97F4A7C15u64
    } else {
        seed
    }
}

/// One xorshift step of the seeded random source.
pub open spec fn spec_rng_step(x: u64) -> u64 {
    let a = x ^ (x << 13u64);
    let b = a ^ (a >> 7u64);
    b ^ (b << 17u64)
}

/// The plate kind drawn from one state of the random source.
pub open spec fn spec_kind_from(x: u64) -> TectonicPlateType {
    if (x >> 32u64) & 1u64 == 1u64 {
        TectonicPlateType::Continental
    } else {
        TectonicPlateType::Oceanic
    }
}

fn rng_init(seed: u64) -> (r: u64)
    ensures
        r == spec_rng_init(seed),
{
    if seed == 0 {
        0x9E3779B97F4A7C15
    } else {
        seed
    }
}

fn rng_step(x: u64) -> (r: u64)
    ensures
        r == spec_rng_step(x),
{
    let a = x ^ (x << 13u64);
    let b = a ^ (a >> 7u64);
    b ^ (b << 17u64)
}

fn kind_from(x: u64) -> (r: TectonicPlateType)
    ensures
        r == spec_kind_from(x),
{
    if (x >> 32u64) & 1u64 == 1u64 {
        TectonicPlateType::Continental
    } else {
        TectonicPlateType::Oceanic
    }
}

/// The canonical ids of `samples`, in order of first appearance, each
/// once: the left fold that skips an id already in `acc`.
pub open spec fn spec_unique_ids(samples: Seq<PlateData>, acc: Seq<u32>) -> Seq<u32>
    decreases samples.len(),
{
    if samples.len() == 0 {
        acc
    } else {
        let t = spec_trunc_plate_id(samples[0].id);
        let acc2 = if acc.contains(t) {
            acc
        } else {
            acc.push(t)
        };
        spec_unique_ids(samples.drop_first(), acc2)
    }
}

/// The id-to-kind table built over `ids` in order, drawing one kind per
/// id from the random source started at `st`.
pub open spec fn spec_kind_table(ids: Seq<u32>, st: u64) -> Seq<(u32, TectonicPlateType)>
    decreases ids.len(),
{
    if ids.len() == 0 {
        Seq::<(u32, TectonicPlateType)>::empty()
    } else {
        seq![(ids[0], spec_kind_from(spec_rng_step(st)))] + spec_kind_table(
            ids.drop_first(),
            spec_rng_step(st),
        )
    }
}

/// First-match lookup in the id-to-kind table.
pub open spec fn spec_kind_of(table: Seq<(u32, TectonicPlateType)>, id: u32) -> Option<
    TectonicPlateType,
>
    decreases table.len(),
{
    if table.len() == 0 {
        None
    } else if table[0].0 == id {
        Some(table[0].1)
    } else {
        spec_kind_of(table.drop_first(), id)
    }
}

/// The id-to-kind table of a whole plate field: every id discovered in
/// the samples, keyed in order of first appearance, with kinds drawn from
/// the source seeded by `seed`.
pub open spec fn spec_plate_table(samples: Seq<PlateData>, seed: u64) -> Seq<
    (u32, TectonicPlateType),
> {
    spec_kind_table(spec_unique_ids(samples, Seq::<u32>::empty()), spec_rng_init(seed))
}

/// A table with a key has a kind for it.
proof fn lemma_kind_of_some(table: Seq<(u32, TectonicPlateType)>, id: u32)
    requires
        exists|k: int| 0 <= k < table.len() && #[trigger] table[k].0 == id,
    ensures
        spec_kind_of(table, id) is Some,
    decreases table.len(),
{
    let k = choose|k: int| 0 <= k < table.len() && #[trigger] table[k].0 == id;
    if table[0].0 == id {
    } else {
        assert(table.drop_first()[k - 1].0 == id);
        lemma_kind_of_some(table.drop_first(), id);
    }
}

/// Whether `x` occurs in `v`.
fn contains_u32(v: &Vec<u32>, x: u32) -> (r: bool)
    ensures
        r == v@.contains(x),
{
    let mut i: usize = 0;
    while i < v.len()
        invariant
            i <= v@.len(),
            forall|k: int| 0 <= k < i ==> v@[k] != x,
        decreases v@.len() - i,
    {
        if v[i] == x {
            return true;
        }
        i = i + 1;
    }
    false
}

/// First-match lookup of a canonical plate id in the kind table.
fn lookup_kind(table: &Vec<(u32, TectonicPlateType)>, id: u32) -> (r: Option<TectonicPlateType>)
    ensures
        r == spec_kind_of(table@, id),
{
    let mut i: usize = 0;
    proof {
        assert(table@.skip(0) =~= table@);
    }
    while i < table.len()
        invariant
            i <= table@.len(),
            spec_kind_of(table@, id) == spec_kind_of(table@.skip(i as int), id),
        decreases table@.len() - i,
    {
        proof {
            assert(table@.skip(i as int)[0] == table@[i as int]);
            assert(table@.skip(i as int).drop_first() =~= table@.skip(i as int + 1));
        }
        if table[i].0 == id {
            return Some(table[i].1);
        }
        i = i + 1;
    }
    proof {
        assert(table@.skip(i as int) =~= Seq::<(u32, TectonicPlateType)>::empty());
    }
    None
}

/// The tectonic-plate field: one `PlateData` per cell index, plus the
/// mapping from canonical plate id to plate kind. The mapping covers
/// every id that appears in the samples, each key once.
pub struct WorldPlateMap {
    /// One plate sample per cell index, row-major.
    pub plates: Vec<PlateData>,
    /// Canonical plate id to plate kind, unique keys.
    pub plate_data: Vec<(u32, TectonicPlateType)>,
}

impl WorldPlateMap {
    /// The field invariant: unique keys, a kind for every sampled id, and
    /// non-negative boundary distances.
    pub open spec fn wf(&self) -> bool {
        &&& forall|p: int, q: int|
            0 <= p < q < self.plate_data@.len() ==> self.plate_data@[p].0 != self.plate_data@[q].0
        &&& forall|i: int|
            0 <= i < self.plates@.len() ==> spec_kind_of(
                self.plate_data@,
                spec_trunc_plate_id(#[trigger] self.plates@[i].id),
            ) is Some
        &&& forall|i: int| 0 <= i < self.plates@.len() ==> #[trigger] self.plates@[i].dist_to_edge >= 0
    }

    /// The plate kind of the cell at index `i`.
    pub open spec fn spec_plate_type_at(&self, i: int) -> TectonicPlateType {
        spec_kind_of(self.plate_data@, spec_trunc_plate_id(self.plates@[i].id)).unwrap()
    }

    /// Number of plate samples held.
    pub fn len(&self) -> (n: usize)
        ensures
            n == self.plates@.len(),
    {
        self.plates.len()
    }

    /// Looks the cell's truncated plate id up in the kind mapping; the
    /// invariant guarantees the lookup succeeds.
    pub fn get_plate_type(&self, index: usize) -> (k: TectonicPlateType)
        requires
            self.wf(),
            index < self.plates@.len(),
        ensures
            k == self.spec_plate_type_at(index as int),
    {
        let tile_plate_data = self.plates[index];
        let plate_id_key = trunc_plate_id(tile_plate_data.id);
        match lookup_kind(&self.plate_data, plate_id_key) {
            Some(plate_type) => plate_type,
            None => unreached(),
        }
    }

    /// The stored distance from the cell at `index` to the nearest plate
    /// boundary, in micro-units.
    pub fn get_distance_to_edge(&self, index: usize) -> (d: i64)
        requires
            index < self.plates@.len(),
        ensures
            d == self.plates@[index as int].dist_to_edge,
    {
        self.plates[index].dist_to_edge
    }
}

/// Plate kind stability: two cells whose continuous identifiers truncate
/// to the same canonical plate id always resolve to the same kind.
pub proof fn lemma_plate_kind_stable(pm: &WorldPlateMap, i: int, j: int)
    requires
        pm.wf(),
        0 <= i < pm.plates@.len(),
        0 <= j < pm.plates@.len(),
        spec_trunc_plate_id(pm.plates@[i].id) == spec_trunc_plate_id(pm.plates@[j].id),
    ensures
        pm.spec_plate_type_at(i) == pm.spec_plate_type_at(j),
{
}

/// Builds the plate field from one sample per cell index: discovers the
/// set of distinct canonical plate ids in order of first appearance and
/// assigns each a kind drawn from the random source seeded by `seed`.
pub fn gen_plate_map(samples: Vec<PlateData>, seed: u64) -> (m: WorldPlateMap)
    requires
        forall|i: int| 0 <= i < samples@.len() ==> #[trigger] samples@[i].dist_to_edge >= 0,
    ensures
        m.plates@ == samples@,
        m.plate_data@ == spec_plate_table(samples@, seed),
        m.wf(),
{
    let mut ids: Vec<u32> = Vec::new();
    let mut i: usize = 0;
    proof {
        assert(samples@.skip(0) =~= samples@);
    }
    while i < samples.len()
        invariant
            i <= samples@.len(),
            spec_unique_ids(samples@, Seq::<u32>::empty()) == spec_unique_ids(
                samples@.skip(i as int),
                ids@,
            ),
            forall|k: int| 0 <= k < i ==> ids@.contains(spec_trunc_plate_id(#[trigger] samples@[k].id)),
            forall|p: int, q: int| 0 <= p < q < ids@.len() ==> ids@[p] != ids@[q],
        decreases samples@.len() - i,
    {
        proof {
            assert(samples@.skip(i as int)[0] == samples@[i as int]);
            assert(samples@.skip(i as int).drop_first() =~= samples@.skip(i as int + 1));
        }
        let t = trunc_plate_id(samples[i].id);
        let present = contains_u32(&ids, t);
        if !present {
            let ghost old_ids = ids@;
            ids.push(t);
            proof {
                assert(ids@ == old_ids.push(t));
                assert forall|x: u32| old_ids.contains(x) implies ids@.contains(x) by {
                    let j = choose|j: int| 0 <= j < old_ids.len() && old_ids[j] == x;
                    assert(ids@[j] == x);
                }
                assert(ids@[old_ids.len() as int] == t);
                assert(ids@.contains(t));
            }
        }
        i = i + 1;
    }
    proof {
        assert(samples@.skip(i as int) =~= Seq::<PlateData>::empty());
        assert(ids@ == spec_unique_ids(samples@, Seq::<u32>::empty()));
    }
    let ghost unique = ids@;
    let mut plate_data: Vec<(u32, TectonicPlateType)> = Vec::new();
    let mut st: u64 = rng_init(seed);
    let ghost st0 = st;
    let mut j: usize = 0;
    proof {
        assert(unique.skip(0) =~= unique);
        assert(plate_data@ + spec_kind_table(unique, st0) =~= spec_kind_table(unique, st0));
    }
    while j < ids.len()
        invariant
            j <= ids@.len(),
            ids@ == unique,
            plate_data@.len() == j,
            spec_kind_table(unique, st0) == plate_data@ + spec_kind_table(unique.skip(j as int), st),
            forall|k: int| 0 <= k < j ==> #[trigger] plate_data@[k].0 == unique[k],
        decreases ids@.len() - j,
    {
        proof {
            assert(unique.skip(j as int)[0] == unique[j as int]);
            assert(unique.skip(j as int).drop_first() =~= unique.skip(j as int + 1));
        }
        let ghost old_table = plate_data@;
        let ghost old_st = st;
        st = rng_step(st);
        let kind = kind_from(st);
        plate_data.push((ids[j], kind));
        proof {
            assert(spec_kind_table(unique.skip(j as int), old_st) == seq![
                (unique[j as int], spec_kind_from(spec_rng_step(old_st))),
            ] + spec_kind_table(unique.skip(j as int + 1), spec_rng_step(old_st)));
            assert(plate_data@ =~= old_table + seq![(unique[j as int], spec_kind_from(st))]);
            assert(old_table + (seq![(unique[j as int], spec_kind_from(st))] + spec_kind_table(
                unique.skip(j as int + 1),
                st,
            )) =~= plate_data@ + spec_kind_table(unique.skip(j as int + 1), st));
        }
        j = j + 1;
    }
    proof {
        assert(unique.skip(j as int) =~= Seq::<u32>::empty());
        assert(spec_kind_table(unique.skip(j as int), st) =~= Seq::<(u32, TectonicPlateType)>::empty());
        assert(plate_data@ =~= plate_data@ + Seq::<(u32, TectonicPlateType)>::empty());
        assert(plate_data@ == spec_kind_table(unique, st0));
    }
    let m = WorldPlateMap { plates: samples, plate_data };
    proof {
        assert forall|idx: int| 0 <= idx < m.plates@.len() implies spec_kind_of(
            m.plate_data@,
            spec_trunc_plate_id(#[trigger] m.plates@[idx].id),
        ) is Some by {
            let t = spec_trunc_plate_id(m.plates@[idx].id);
            assert(unique.contains(t));
            let w = choose|w: int| 0 <= w < unique.len() && unique[w] == t;
            assert(m.plate_data@[w].0 == t);
            lemma_kind_of_some(m.plate_data@, t);
        }
    }
    m
}

} // verus!
