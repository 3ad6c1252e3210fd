use vstd::prelude::*;

use crate::atlas::{get_hex_tex, section_uv, AtlasLayout, UvOptions};
use crate::hex::{
    hex_distance, hex_length, higher_res, range_order, higher_res_fits, range_count, range_fits, HexCoord,
};
use crate::random::random_index;

verus! {

/// Radius, in chunks, of the hexagonal world.
pub const WORLD_SIZE: u32 = 16;

/// Radius, in hexagons, of one chunk.
pub const HEX_SIZE: u32 = 2;

/// Number of grass textures, the first sections of the tile atlas, among
/// which each hexagon draws its look.
pub const GRASS_VARIANTS: usize = 3;

/// Number of hexagons in one chunk.
pub const CHUNK_TILES: usize = 19;

/// Number of chunks in the world.
pub const WORLD_CHUNKS: usize = 817;

/// One hexagon of the world and the texture section drawn on it.
#[derive(PartialEq, Eq, Structural, Clone, Copy, Debug)]
pub struct TilePlan {
    pub hex: HexCoord,
    pub uv: UvOptions,
}

/// One chunk of the world, drawn as a single mesh: its centre hexagon and
/// the hexagons around it.
pub struct ChunkPlan {
    pub center: HexCoord,
    pub tiles: Vec<TilePlan>,
}

/// The origin of the grid.
pub open spec fn origin() -> HexCoord {
    HexCoord { x: 0, y: 0 }
}

/// Whether a coordinate of the chunk grid names a chunk of the world.
pub open spec fn in_world(chunk: HexCoord) -> bool {
    hex_distance(chunk, origin()) <= WORLD_SIZE
}

/// The hexagons of a list of tiles, in order.
pub open spec fn tile_hexes(tiles: Seq<TilePlan>) -> Seq<HexCoord> {
    tiles.map_values(|t: TilePlan| t.hex)
}

/// `plan` holds the hexagons of chunk `chunk`: the hexagons within
/// `HEX_SIZE` of the chunk's centre, each once.
pub open spec fn covers_chunk(plan: ChunkPlan, chunk: HexCoord) -> bool {
    &&& plan.center == higher_res(chunk, HEX_SIZE as int)
    &&& tile_hexes(plan.tiles@) == range_order(plan.center, HEX_SIZE as int)
    &&& plan.tiles@.len() == CHUNK_TILES
    &&& tile_hexes(plan.tiles@).no_duplicates()
    &&& forall|k: int| 0 <= k < plan.tiles@.len() ==>
        hex_distance(#[trigger] plan.tiles@[k].hex, plan.center) <= HEX_SIZE
    &&& forall|h: HexCoord| hex_distance(h, plan.center) <= HEX_SIZE ==>
        #[trigger] tile_hexes(plan.tiles@).contains(h)
}

/// `uv` shows one of the grass sections of `atlas`.
pub open spec fn is_grass_uv(uv: UvOptions, atlas: AtlasLayout) -> bool {
    exists|t: int| 0 <= t < GRASS_VARIANTS && uv == #[trigger] section_uv(atlas.textures@[t], atlas.size)
}

/// `plan` holds the hexagons of some chunk of the world.
pub open spec fn covers_world_chunk(plan: ChunkPlan) -> bool {
    exists|c: HexCoord| in_world(c) && #[trigger] covers_chunk(plan, c)
}

/// Every tile of `plan` shows one of the grass sections of `atlas`.
pub open spec fn grass_textured(plan: ChunkPlan, atlas: AtlasLayout) -> bool {
    forall|k: int| 0 <= k < plan.tiles@.len() ==> is_grass_uv(#[trigger] plan.tiles@[k].uv, atlas)
}

/// A chunk of the world lies close enough to the origin for all of its
/// arithmetic to stay small.
proof fn lemma_world_chunk_bounds(chunk: HexCoord)
    requires
        in_world(chunk),
    ensures
        -16 <= chunk.x <= 16,
        -16 <= chunk.y <= 16,
        higher_res_fits(chunk, HEX_SIZE),
        range_fits(higher_res(chunk, HEX_SIZE as int), HEX_SIZE),
{
}

/// Plans chunk `chunk` with the given texture section for each of its
/// hexagons, in the order of `HexCoord::range`.
pub fn plan_chunk_with_textures(chunk: HexCoord, atlas: &AtlasLayout, textures: &Vec<usize>) -> (plan: ChunkPlan)
    requires
        in_world(chunk),
        textures@.len() == CHUNK_TILES,
        forall|k: int| 0 <= k < textures@.len() ==> #[trigger] textures@[k] < atlas.textures@.len(),
    ensures
        covers_chunk(plan, chunk),
        forall|k: int| 0 <= k < plan.tiles@.len() ==>
            (#[trigger] plan.tiles@[k]).uv == section_uv(atlas.textures@[textures@[k] as int], atlas.size),
{
    proof { lemma_world_chunk_bounds(chunk); }
    let center = chunk.to_higher_res(HEX_SIZE);
    let children = center.range(HEX_SIZE);
    let mut tiles: Vec<TilePlan> = Vec::new();
    for k in 0..children.len()
        invariant
            children@.len() == CHUNK_TILES,
            textures@.len() == CHUNK_TILES,
            forall|k: int| 0 <= k < textures@.len() ==> #[trigger] textures@[k] < atlas.textures@.len(),
            tiles@.len() == k,
            forall|j: int| 0 <= j < k ==> (#[trigger] tiles@[j]).hex == children@[j],
            forall|j: int| 0 <= j < k ==>
                (#[trigger] tiles@[j]).uv == section_uv(atlas.textures@[textures@[j] as int], atlas.size),
    {
        let uv = get_hex_tex(atlas, textures[k]);
        tiles.push(TilePlan { hex: children[k], uv });
    }
    assert(tile_hexes(tiles@) =~= children@);
    let plan = ChunkPlan { center, tiles };
    plan
}

/// Plans chunk `chunk`, drawing a grass section at random for each of its
/// hexagons.
pub fn plan_chunk(chunk: HexCoord, atlas: &AtlasLayout) -> (plan: ChunkPlan)
    requires
        in_world(chunk),
        GRASS_VARIANTS <= atlas.textures@.len(),
    ensures
        covers_chunk(plan, chunk),
        grass_textured(plan, *atlas),
{
    let mut textures: Vec<usize> = Vec::new();
    for k in 0..CHUNK_TILES
        invariant
            textures@.len() == k,
            forall|j: int| 0 <= j < k ==> #[trigger] textures@[j] < GRASS_VARIANTS,
    {
        textures.push(random_index(GRASS_VARIANTS));
    }
    let plan = plan_chunk_with_textures(chunk, atlas, &textures);
    assert forall|k: int| 0 <= k < plan.tiles@.len() implies is_grass_uv(#[trigger] plan.tiles@[k].uv, *atlas) by {
        let t = textures@[k] as int;
        assert(0 <= t < GRASS_VARIANTS);
        assert(plan.tiles@[k].uv == section_uv(atlas.textures@[t], atlas.size));
    }
    plan
}

/// Chunk centres of distinct chunks are at least `2 * HEX_SIZE + 1` apart.
pub proof fn lemma_chunk_centers_apart(a: HexCoord, b: HexCoord)
    requires
        in_world(a),
        in_world(b),
        a != b,
    ensures
        hex_distance(higher_res(a, HEX_SIZE as int), higher_res(b, HEX_SIZE as int)) >= 5,
{
    lemma_world_chunk_bounds(a);
    lemma_world_chunk_bounds(b);
    let ca = higher_res(a, HEX_SIZE as int);
    let cb = higher_res(b, HEX_SIZE as int);
    assert(ca.x == 5 * a.x + 2 * a.y && ca.y == 3 * a.y - 2 * a.x);
    assert(cb.x == 5 * b.x + 2 * b.y && cb.y == 3 * b.y - 2 * b.x);
    let p = a.x - b.x;
    let q = a.y - b.y;
    assert(p != 0 || q != 0);
    assert(hex_length(5 * p + 2 * q, 3 * q - 2 * p) >= 5);
}

/// Hexagon distance obeys the triangle inequality.
pub proof fn lemma_distance_triangle(a: HexCoord, b: HexCoord, c: HexCoord)
    ensures
        hex_distance(a, c) <= hex_distance(a, b) + hex_distance(b, c),
{
}

/// Two distinct chunks of the world share no hexagon.
pub proof fn lemma_chunks_disjoint(p: ChunkPlan, a: HexCoord, q: ChunkPlan, b: HexCoord, k: int, l: int)
    requires
        in_world(a),
        in_world(b),
        a != b,
        covers_chunk(p, a),
        covers_chunk(q, b),
        0 <= k < p.tiles@.len(),
        0 <= l < q.tiles@.len(),
    ensures
        p.tiles@[k].hex != q.tiles@[l].hex,
{
    lemma_chunk_centers_apart(a, b);
    let h = p.tiles@[k].hex;
    assert(hex_distance(h, p.center) <= HEX_SIZE);
    assert(hex_distance(q.tiles@[l].hex, q.center) <= HEX_SIZE);
    if h == q.tiles@[l].hex {
        lemma_distance_triangle(p.center, h, q.center);
    }
}

/// Facts about the chunk list that `plan_world` plans from.
pub open spec fn world_chunk_list(chunks: Seq<HexCoord>) -> bool {
    &&& chunks.no_duplicates()
    &&& forall|k: int| 0 <= k < chunks.len() ==> hex_distance(#[trigger] chunks[k], origin()) <= WORLD_SIZE
    &&& forall|h: HexCoord| hex_distance(h, origin()) <= WORLD_SIZE ==> #[trigger] chunks.contains(h)
}

/// `plans[j]` covers chunk `chunks[j]` for each `j`.
pub open spec fn plans_cover(chunks: Seq<HexCoord>, plans: Seq<ChunkPlan>) -> bool {
    &&& plans.len() == chunks.len()
    &&& forall|j: int| 0 <= j < plans.len() ==> covers_chunk(#[trigger] plans[j], chunks[j])
}

/// Each plan covers a chunk of the world.
proof fn lemma_plans_in_world(chunks: Seq<HexCoord>, plans: Seq<ChunkPlan>)
    requires
        world_chunk_list(chunks),
        plans_cover(chunks, plans),
    ensures
        forall|i: int| 0 <= i < plans.len() ==> covers_world_chunk(#[trigger] plans[i]),
{
    assert forall|i: int| 0 <= i < plans.len() implies covers_world_chunk(#[trigger] plans[i]) by {
        assert(in_world(chunks[i]));
        assert(covers_chunk(plans[i], chunks[i]));
    }
}

/// Each chunk of the world has a plan.
proof fn lemma_world_in_plans(chunks: Seq<HexCoord>, plans: Seq<ChunkPlan>)
    requires
        world_chunk_list(chunks),
        plans_cover(chunks, plans),
    ensures
        forall|c: HexCoord| #[trigger] in_world(c) ==> exists|i: int|
            0 <= i < plans.len() && plans[i].center == higher_res(c, HEX_SIZE as int),
{
    assert forall|c: HexCoord| #[trigger] in_world(c) implies exists|i: int|
        0 <= i < plans.len() && plans[i].center == higher_res(c, HEX_SIZE as int) by {
        assert(chunks.contains(c));
        let i = choose|i: int| 0 <= i < chunks.len() && chunks[i] == c;
        assert(covers_chunk(plans[i], chunks[i]));
        }
}

/// Plans of distinct chunks share no hexagon.
proof fn lemma_plans_disjoint(chunks: Seq<HexCoord>, plans: Seq<ChunkPlan>)
    requires
        world_chunk_list(chunks),
        plans_cover(chunks, plans),
    ensures
        forall|i: int, j: int, k: int, l: int|
            0 <= i < plans.len() && 0 <= j < plans.len() && i != j
            && 0 <= k < plans[i].tiles@.len() && 0 <= l < plans[j].tiles@.len() ==>
            #[trigger] plans[i].tiles@[k].hex != #[trigger] plans[j].tiles@[l].hex,
{
    assert forall|i: int, j: int, k: int, l: int|
        0 <= i < plans.len() && 0 <= j < plans.len() && i != j
        && 0 <= k < plans[i].tiles@.len() && 0 <= l < plans[j].tiles@.len() implies
        #[trigger] plans[i].tiles@[k].hex != #[trigger] plans[j].tiles@[l].hex by {
        assert(chunks[i] != chunks[j]);
        assert(in_world(chunks[i]) && in_world(chunks[j]));
        assert(covers_chunk(plans[i], chunks[i]) && covers_chunk(plans[j], chunks[j]));
        lemma_chunks_disjoint(plans[i], chunks[i], plans[j], chunks[j], k, l);
    }
}

/// Plans the whole world: one chunk for each coordinate within
/// `WORLD_SIZE` of the origin in the chunk grid, each covering the
/// hexagons within `HEX_SIZE` of its centre with randomly drawn grass.
/// Distinct chunks share no hexagon.
pub fn plan_world(atlas: &AtlasLayout) -> (plans: Vec<ChunkPlan>)
    requires
        GRASS_VARIANTS <= atlas.textures@.len(),
    ensures
        plans@.len() == WORLD_CHUNKS,
        forall|i: int| 0 <= i < plans@.len() ==>
            covers_chunk(#[trigger] plans@[i], range_order(origin(), WORLD_SIZE as int)[i]),
        forall|i: int| 0 <= i < plans@.len() ==> covers_world_chunk(#[trigger] plans@[i]),
        forall|c: HexCoord| #[trigger] in_world(c) ==> exists|i: int|
            0 <= i < plans@.len() && plans@[i].center == higher_res(c, HEX_SIZE as int),
        forall|i: int| 0 <= i < plans@.len() ==> grass_textured(#[trigger] plans@[i], *atlas),
        forall|i: int, j: int, k: int, l: int|
            0 <= i < plans@.len() && 0 <= j < plans@.len() && i != j
            && 0 <= k < plans@[i].tiles@.len() && 0 <= l < plans@[j].tiles@.len() ==>
            #[trigger] plans@[i].tiles@[k].hex != #[trigger] plans@[j].tiles@[l].hex,
{
    let chunks = HexCoord { x: 0, y: 0 }.range(WORLD_SIZE);
    let mut plans: Vec<ChunkPlan> = Vec::new();
    for i in 0..chunks.len()
        invariant
            chunks@.len() == WORLD_CHUNKS,
            chunks@.no_duplicates(),
            forall|k: int| 0 <= k < chunks@.len() ==> hex_distance(#[trigger] chunks@[k], origin()) <= WORLD_SIZE,
            forall|h: HexCoord| hex_distance(h, origin()) <= WORLD_SIZE ==> #[trigger] chunks@.contains(h),
            GRASS_VARIANTS <= atlas.textures@.len(),
            plans@.len() == i,
            forall|j: int| 0 <= j < i ==> covers_chunk(#[trigger] plans@[j], chunks@[j]),
            forall|j: int| 0 <= j < i ==> grass_textured(#[trigger] plans@[j], *atlas),
    {
        let plan = plan_chunk(chunks[i], atlas);
        plans.push(plan);
    }
    proof {
        lemma_plans_in_world(chunks@, plans@);
        lemma_world_in_plans(chunks@, plans@);
        lemma_plans_disjoint(chunks@, plans@);
    }
    plans
}

} // verus!
