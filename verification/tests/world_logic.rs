use std::collections::HashSet;

use slime_hex::atlas::{get_hex_tex, hex_tile_atlas, slime_atlas, Point2, TexRect, UvOptions};
use slime_hex::hex::{get_new_hex_direction, hex_direction_at, HexCoord, HexDirection};
use slime_hex::world::{plan_chunk, plan_chunk_with_textures, plan_world, CHUNK_TILES, WORLD_CHUNKS};

fn p(x: u32, y: u32) -> Point2 {
    Point2 { x, y }
}

fn distance(a: HexCoord, b: HexCoord) -> i32 {
    let dx = a.x - b.x;
    let dy = a.y - b.y;
    dx.abs().max(dy.abs()).max((dx + dy).abs())
}

#[test]
fn neighbors_follow_hexx_offsets() {
    let h = HexCoord { x: 10, y: -4 };
    let cases = [
        (HexDirection::FlatBottomRight, 11, -4),
        (HexDirection::FlatBottom, 10, -3),
        (HexDirection::FlatBottomLeft, 9, -3),
        (HexDirection::FlatTopLeft, 9, -4),
        (HexDirection::FlatTop, 10, -5),
        (HexDirection::FlatTopRight, 11, -5),
    ];
    for (d, x, y) in cases {
        assert_eq!(h.neighbor(d), HexCoord { x, y });
    }
}

#[test]
fn direction_table_order() {
    assert_eq!(hex_direction_at(0), HexDirection::FlatTop);
    assert_eq!(hex_direction_at(2), HexDirection::FlatBottomRight);
    assert_eq!(hex_direction_at(5), HexDirection::FlatTopLeft);
    for _ in 0..20 {
        let d = get_new_hex_direction();
        assert_eq!(distance(HexCoord { x: 0, y: 0 }.neighbor(d), HexCoord { x: 0, y: 0 }), 1);
    }
}

#[test]
fn range_holds_every_close_hexagon_once() {
    let c = HexCoord { x: 3, y: -1 };
    assert_eq!(c.range(0), vec![c]);
    for r in 0..4u32 {
        let v = c.range(r);
        assert_eq!(v.len() as u32, 3 * r * (r + 1) + 1);
        let set: HashSet<(i32, i32)> = v.iter().map(|h| (h.x, h.y)).collect();
        assert_eq!(set.len(), v.len());
        assert!(v.iter().all(|h| distance(*h, c) <= r as i32));
    }
}

#[test]
fn higher_res_centres() {
    assert_eq!(HexCoord { x: 1, y: 0 }.to_higher_res(2), HexCoord { x: 5, y: -2 });
    assert_eq!(HexCoord { x: 0, y: 1 }.to_higher_res(2), HexCoord { x: 2, y: 3 });
    assert_eq!(HexCoord { x: -3, y: 2 }.to_higher_res(2), HexCoord { x: -11, y: 12 });
    assert_eq!(HexCoord { x: 0, y: 0 }.to_higher_res(7), HexCoord { x: 0, y: 0 });
}

#[test]
fn hex_tile_atlas_grid() {
    let a = hex_tile_atlas();
    assert_eq!(a.textures.len(), 25);
    assert_eq!(a.size, p(645, 645));
    assert_eq!(a.textures[0], TexRect { min: p(0, 0), max: p(125, 125) });
    assert_eq!(a.textures[1], TexRect { min: p(130, 0), max: p(255, 125) });
    assert_eq!(a.textures[6], TexRect { min: p(130, 130), max: p(255, 255) });
    assert_eq!(a.textures[24], TexRect { min: p(520, 520), max: p(645, 645) });
}

#[test]
fn slime_atlas_strip() {
    let a = slime_atlas();
    assert_eq!(a.textures.len(), 9);
    assert_eq!(a.size, p(288, 32));
    assert_eq!(a.textures[8], TexRect { min: p(256, 0), max: p(288, 32) });
}

#[test]
fn hex_tex_maps_section_with_flipped_v() {
    let a = hex_tile_atlas();
    let uv = get_hex_tex(&a, 2);
    assert_eq!(
        uv,
        UvOptions { rect_min: p(260, 0), rect_max: p(385, 125), extent: p(645, 645), flip_u: false, flip_v: true }
    );
}

#[test]
fn chunk_with_chosen_textures() {
    let a = hex_tile_atlas();
    let textures: Vec<usize> = (0..CHUNK_TILES).map(|k| k % 3).collect();
    let plan = plan_chunk_with_textures(HexCoord { x: 1, y: 0 }, &a, &textures);
    assert_eq!(plan.center, HexCoord { x: 5, y: -2 });
    assert_eq!(plan.tiles.len(), 19);
    for (k, t) in plan.tiles.iter().enumerate() {
        assert!(distance(t.hex, plan.center) <= 2);
        assert_eq!(t.uv, get_hex_tex(&a, k % 3));
    }
}

#[test]
fn random_chunk_uses_grass() {
    let a = hex_tile_atlas();
    let grass: Vec<UvOptions> = (0..3).map(|i| get_hex_tex(&a, i)).collect();
    let plan = plan_chunk(HexCoord { x: -2, y: 1 }, &a);
    assert!(plan.tiles.iter().all(|t| grass.contains(&t.uv)));
}

#[test]
fn world_chunks_do_not_overlap() {
    let a = hex_tile_atlas();
    let plans = plan_world(&a);
    assert_eq!(plans.len(), WORLD_CHUNKS);
    let mut seen = HashSet::new();
    for plan in &plans {
        assert_eq!(plan.tiles.len(), CHUNK_TILES);
        for t in &plan.tiles {
            assert!(seen.insert((t.hex.x, t.hex.y)));
        }
    }
    assert_eq!(seen.len(), 817 * 19);
}

#[test]
fn all_six_directions_are_drawn() {
    let mut seen = HashSet::new();
    for _ in 0..1000 {
        seen.insert(format!("{:?}", get_new_hex_direction()));
    }
    assert_eq!(seen.len(), 6);
}

#[test]
fn neighbor_at_edge_stepping_inward() {
    let h = HexCoord { x: i32::MAX, y: i32::MIN };
    assert_eq!(h.neighbor(HexDirection::FlatBottomLeft), HexCoord { x: i32::MAX - 1, y: i32::MIN + 1 });
}
