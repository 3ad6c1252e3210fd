use vstd::prelude::*;

use bevy::image::TextureAtlasLayout;
use bevy::math::UVec2;

use crate::slime::slime_frame_count;

verus! {

/// A pair of unsigned pixel quantities (a position or a size).
#[derive(PartialEq, Eq, Structural, Clone, Copy, Debug)]
pub struct Point2 {
    pub x: u32,
    pub y: u32,
}

/// A rectangle of a texture in pixels, `min` inclusive, `max` exclusive.
#[derive(PartialEq, Eq, Structural, Clone, Copy, Debug)]
pub struct TexRect {
    pub min: Point2,
    pub max: Point2,
}

/// The sections of a texture atlas: the atlas size in pixels and the
/// rectangle of each section, as `TextureAtlasLayout` holds them.
pub struct AtlasLayout {
    pub size: Point2,
    pub textures: Vec<TexRect>,
}

/// UV mapping options of a hexagon mesh: UV coordinates, after the flips,
/// are remapped into the rectangle from `rect_min / extent` to
/// `rect_max / extent` (component by component), as `hexx::UVOptions`
/// with unit scale and zero offset does.
#[derive(PartialEq, Eq, Structural, Clone, Copy, Debug)]
pub struct UvOptions {
    pub rect_min: Point2,
    pub rect_max: Point2,
    pub extent: Point2,
    pub flip_u: bool,
    pub flip_v: bool,
}

/// The value of an optional pixel pair, zero when absent.
pub open spec fn or_zero(p: Option<Point2>) -> Point2 {
    match p {
        Some(v) => v,
        None => Point2 { x: 0, y: 0 },
    }
}

/// Rectangle of section `i` of a grid atlas with `columns` sections per row:
/// section `(x, y) = (i % columns, i / columns)` starts at
/// `cell * (tile_size + padding) + offset` and spans `tile_size`.
pub open spec fn grid_rect(tile_size: Point2, columns: nat, padding: Point2, offset: Point2, i: nat) -> TexRect {
    let x = i % columns;
    let y = i / columns;
    let min_x = x * (tile_size.x + padding.x) + offset.x;
    let min_y = y * (tile_size.y + padding.y) + offset.y;
    TexRect {
        min: Point2 { x: min_x as u32, y: min_y as u32 },
        max: Point2 { x: (min_x + tile_size.x) as u32, y: (min_y + tile_size.y) as u32 },
    }
}

/// One side of a grid atlas: `count` tiles with `pad` between neighbors
/// (none before the first), ignoring the offset. `used_pad` says whether
/// the padding of that side was applied at all.
pub open spec fn grid_extent(tile: nat, pad: nat, count: nat, used_pad: bool) -> nat {
    let p = if used_pad { pad } else { 0 };
    ((tile + p) * count - p) as nat
}

/// Size of a grid atlas as `TextureAtlasLayout::from_grid` computes it.
pub open spec fn grid_size(tile_size: Point2, columns: nat, rows: nat, padding: Point2) -> Point2 {
    Point2 {
        x: grid_extent(tile_size.x as nat, padding.x as nat, columns, rows >= 1 && columns >= 2) as u32,
        y: grid_extent(tile_size.y as nat, padding.y as nat, rows, rows >= 2) as u32,
    }
}

/// The grid's pixel arithmetic fits in `u32`.
pub open spec fn grid_fits(tile_size: Point2, columns: u32, rows: u32, padding: Point2, offset: Point2) -> bool {
    &&& tile_size.x + padding.x <= u32::MAX
    &&& tile_size.y + padding.y <= u32::MAX
    &&& columns * (tile_size.x + padding.x) + offset.x + tile_size.x <= u32::MAX
    &&& rows * (tile_size.y + padding.y) + offset.y + tile_size.y <= u32::MAX
}

/// `TextureAtlasLayout::from_grid`: `rows` rows of `columns` sections of
/// `tile_size`, listed row by row, each at `cell * (tile_size + padding) +
/// offset`; padding and offset default to zero. Its `u32` arithmetic
/// overflows outside `grid_fits`.
#[verifier::external_body]
fn bevy_atlas_from_grid(
    tile_size: Point2,
    columns: u32,
    rows: u32,
    padding: Option<Point2>,
    offset: Option<Point2>,
) -> (a: AtlasLayout)
    requires
        grid_fits(tile_size, columns, rows, or_zero(padding), or_zero(offset)),
    ensures
        a.textures@.len() == columns * rows,
        forall|i: int| 0 <= i < a.textures@.len() ==>
            #[trigger] a.textures@[i] == grid_rect(tile_size, columns as nat, or_zero(padding), or_zero(offset), i as nat),
        a.size == grid_size(tile_size, columns as nat, rows as nat, or_zero(padding)),
{
    let l = TextureAtlasLayout::from_grid(
        UVec2::new(tile_size.x, tile_size.y),
        columns,
        rows,
        padding.map(|p| UVec2::new(p.x, p.y)),
        offset.map(|p| UVec2::new(p.x, p.y)),
    );
    let mut textures = Vec::new();
    for r in l.textures.iter() {
        textures.push(TexRect { min: Point2 { x: r.min.x, y: r.min.y }, max: Point2 { x: r.max.x, y: r.max.y } });
    }
    AtlasLayout { size: Point2 { x: l.size.x, y: l.size.y }, textures }
}

/// Rectangles of sections of a texture with `columns` sections per row,
/// without padding or offset, the sections of the `atlas` of that grid.
pub open spec fn is_grid_atlas(atlas: AtlasLayout, tile_size: Point2, columns: nat, rows: nat, padding: Point2) -> bool {
    &&& atlas.textures@.len() == columns * rows
    &&& forall|i: int| 0 <= i < atlas.textures@.len() ==>
        #[trigger] atlas.textures@[i] == grid_rect(tile_size, columns, padding, Point2 { x: 0, y: 0 }, i as nat)
    &&& atlas.size == grid_size(tile_size, columns, rows, padding)
}

/// Every section lies inside the atlas.
pub open spec fn sections_inside(atlas: AtlasLayout) -> bool {
    forall|i: int| 0 <= i < atlas.textures@.len() ==> {
        &&& (#[trigger] atlas.textures@[i]).min.x <= atlas.textures@[i].max.x <= atlas.size.x
        &&& atlas.textures@[i].min.y <= atlas.textures@[i].max.y <= atlas.size.y
    }
}

/// The grassland hexagon tile sheet: 5 by 5 tiles of 125 pixels with 5
/// pixels between them.
pub fn hex_tile_atlas() -> (a: AtlasLayout)
    ensures
        is_grid_atlas(a, Point2 { x: 125, y: 125 }, 5, 5, Point2 { x: 5, y: 5 }),
        a.textures@.len() == 25,
        a.size == (Point2 { x: 645, y: 645 }),
        sections_inside(a),
{
    let a = bevy_atlas_from_grid(Point2 { x: 125, y: 125 }, 5, 5, Some(Point2 { x: 5, y: 5 }), None);
    assert forall|i: int| 0 <= i < a.textures@.len() implies {
        &&& (#[trigger] a.textures@[i]).min.x <= a.textures@[i].max.x <= a.size.x
        &&& a.textures@[i].min.y <= a.textures@[i].max.y <= a.size.y
    } by {
        let x = i % 5;
        let y = i / 5;
        assert(0 <= x < 5 && 0 <= y < 5);
        assert(0 <= x * 130 <= 520 && 0 <= y * 130 <= 520) by (nonlinear_arith)
            requires
                0 <= x < 5,
                0 <= y < 5,
        ;
    }
    a
}

/// The slime sprite sheet: one row of 9 frames of 32 pixels.
pub fn slime_atlas() -> (a: AtlasLayout)
    ensures
        is_grid_atlas(a, Point2 { x: 32, y: 32 }, 9, 1, Point2 { x: 0, y: 0 }),
        a.textures@.len() == slime_frame_count(),
        a.size == (Point2 { x: 288, y: 32 }),
        sections_inside(a),
{
    let a = bevy_atlas_from_grid(Point2 { x: 32, y: 32 }, 9, 1, None, None);
    assert forall|i: int| 0 <= i < a.textures@.len() implies {
        &&& (#[trigger] a.textures@[i]).min.x <= a.textures@[i].max.x <= a.size.x
        &&& a.textures@[i].min.y <= a.textures@[i].max.y <= a.size.y
    } by {
        let x = i % 9;
        assert(0 <= x < 9);
        assert(i / 9 == 0);
        assert(0 <= x * 32 <= 256) by (nonlinear_arith)
            requires
                0 <= x < 9,
        ;
    }
    a
}

/// UV options that map a hexagon onto `rect` of an atlas of `size`, with the
/// `v` axis flipped.
pub open spec fn section_uv(rect: TexRect, size: Point2) -> UvOptions {
    UvOptions { rect_min: rect.min, rect_max: rect.max, extent: size, flip_u: false, flip_v: true }
}

/// UV options that show section `hex_texure_index` of the atlas on a
/// hexagon, upside down in `v`.
pub fn get_hex_tex(atlas_layout: &AtlasLayout, hex_texure_index: usize) -> (uv: UvOptions)
    requires
        hex_texure_index < atlas_layout.textures@.len(),
    ensures
        uv == section_uv(atlas_layout.textures@[hex_texure_index as int], atlas_layout.size),
{
    let rect = atlas_layout.textures[hex_texure_index];
    let (uv_max, uv_min) = (rect.max, rect.min);
    UvOptions { rect_min: uv_min, rect_max: uv_max, extent: atlas_layout.size, flip_u: false, flip_v: true }
}

} // verus!
