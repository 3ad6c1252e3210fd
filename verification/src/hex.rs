use vstd::prelude::*;

use crate::random::random_index;

verus! {

/// Axial coordinates of a hexagon, as `hexx::Hex` holds them.
#[derive(PartialEq, Eq, Structural, Clone, Copy, Debug)]
pub struct HexCoord {
    pub x: i32,
    pub y: i32,
}

/// The six edge directions of a flat-topped hexagon, named after the
/// `hexx::EdgeDirection` constants they stand for.
#[derive(PartialEq, Eq, Structural, Clone, Copy, Debug)]
pub enum HexDirection {
    FlatTop,
    FlatTopRight,
    FlatBottomRight,
    FlatBottom,
    FlatBottomLeft,
    FlatTopLeft,
}

/// Absolute value of an integer.
pub open spec fn abs(v: int) -> int {
    if v < 0 { -v } else { v }
}

/// Hexagonal length of the axial vector `(dx, dy)`: the largest absolute
/// cubic coordinate.
pub open spec fn hex_length(dx: int, dy: int) -> int {
    let a = abs(dx);
    let b = abs(dy);
    let c = abs(dx + dy);
    if a >= b && a >= c { a } else if b >= c { b } else { c }
}

/// Number of hexagon steps between `a` and `b`.
pub open spec fn hex_distance(a: HexCoord, b: HexCoord) -> int {
    hex_length(a.x - b.x, a.y - b.y)
}

/// Axial offset `(dx, dy)` of the neighbor in direction `d`.
pub open spec fn direction_offset(d: HexDirection) -> (int, int) {
    match d {
        HexDirection::FlatBottomRight => (1, 0),
        HexDirection::FlatBottom => (0, 1),
        HexDirection::FlatBottomLeft => (-1, 1),
        HexDirection::FlatTopLeft => (-1, 0),
        HexDirection::FlatTop => (0, -1),
        HexDirection::FlatTopRight => (1, -1),
    }
}

/// The coordinate one step from `h` in direction `d`.
pub open spec fn neighbor_of(h: HexCoord, d: HexDirection) -> HexCoord {
    HexCoord {
        x: (h.x + direction_offset(d).0) as i32,
        y: (h.y + direction_offset(d).1) as i32,
    }
}

/// A coordinate from which a step in any direction stays representable.
pub open spec fn can_step(h: HexCoord) -> bool {
    i32::MIN < h.x < i32::MAX && i32::MIN < h.y < i32::MAX
}

/// A coordinate from which a step in direction `d` stays representable.
pub open spec fn can_step_toward(h: HexCoord, d: HexDirection) -> bool {
    &&& i32::MIN <= h.x + direction_offset(d).0 <= i32::MAX
    &&& i32::MIN <= h.y + direction_offset(d).1 <= i32::MAX
}

/// The order in which a new direction is drawn.
pub open spec fn direction_table() -> Seq<HexDirection> {
    seq![
        HexDirection::FlatTop,
        HexDirection::FlatTopRight,
        HexDirection::FlatBottomRight,
        HexDirection::FlatBottom,
        HexDirection::FlatBottomLeft,
        HexDirection::FlatTopLeft,
    ]
}

/// Number of coordinates within distance `radius` of a hexagon.
pub open spec fn range_count(radius: int) -> int {
    3 * radius * (radius + 1) + 1
}

/// Column `x` (an offset from `center`) of the coordinates within `r`
/// steps of `center`, in increasing `y`.
pub open spec fn range_column(center: HexCoord, r: int, x: int) -> Seq<HexCoord> {
    let lo = if -r >= -x - r { -r } else { -x - r };
    let hi = if r <= r - x { r } else { r - x };
    Seq::new((hi - lo + 1) as nat, |k: int| HexCoord { x: (center.x + x) as i32, y: (center.y + lo + k) as i32 })
}

/// Columns `x` to `r` of the coordinates within `r` steps of `center`.
pub open spec fn range_columns(center: HexCoord, r: int, x: int) -> Seq<HexCoord>
    decreases r + 1 - x,
{
    if x > r {
        Seq::empty()
    } else {
        range_column(center, r, x) + range_columns(center, r, x + 1)
    }
}

/// The coordinates within `r` steps of `center` in the order in which
/// `hexx::Hex::range` lists them: column by column in increasing `x`, each
/// column in increasing `y`.
pub open spec fn range_order(center: HexCoord, r: int) -> Seq<HexCoord> {
    range_columns(center, r, -r)
}

/// `radius` and `center` are such that `hexx::Hex::range` computes every
/// coordinate and its count without overflow.
pub open spec fn range_fits(center: HexCoord, radius: u32) -> bool {
    &&& range_count(radius as int) <= u32::MAX
    &&& i32::MIN <= center.x - radius && center.x + radius <= i32::MAX
    &&& i32::MIN <= center.y - radius && center.y + radius <= i32::MAX
}

/// Axial `x` of `h` in the coordinate system whose hexagons are groups of
/// radius `r` (`hexx::Hex::to_higher_res`).
pub open spec fn higher_res_x(h: HexCoord, r: int) -> int {
    h.x * (r + 1) - r * (-h.x - h.y)
}

/// Axial `y` of `h` in the coordinate system whose hexagons are groups of
/// radius `r`.
pub open spec fn higher_res_y(h: HexCoord, r: int) -> int {
    h.y * (r + 1) - r * h.x
}

/// Centre, in the fine grid, of the group of radius `r` that `h` names in
/// the coarse grid.
pub open spec fn higher_res(h: HexCoord, r: int) -> HexCoord {
    HexCoord { x: higher_res_x(h, r) as i32, y: higher_res_y(h, r) as i32 }
}

/// Whether `i32` holds a value.
pub open spec fn in_i32(v: int) -> bool {
    i32::MIN <= v <= i32::MAX
}

/// Every intermediate value of `hexx::Hex::to_higher_res` fits in `i32`:
/// the cubic `z = -x - y` (negating `x` first), both products of each
/// coordinate and both differences.
pub open spec fn higher_res_fits(h: HexCoord, r: u32) -> bool {
    &&& r < i32::MAX
    &&& in_i32(-h.x)
    &&& in_i32(-h.x - h.y)
    &&& in_i32(h.x * (r + 1))
    &&& in_i32(r * (-h.x - h.y))
    &&& in_i32(higher_res_x(h, r as int))
    &&& in_i32(h.y * (r + 1))
    &&& in_i32(r * h.x)
    &&& in_i32(higher_res_y(h, r as int))
}

/// Twice the number of coordinates in columns `x0` to `r` of a range of
/// radius `r`.
pub open spec fn twice_columns_len(r: int, x0: int) -> int {
    if x0 >= 0 {
        (r + 1 - x0) * (3 * r + 2 - x0)
    } else {
        (r + 1) * (3 * r + 2) + 2 * (-x0) * (2 * r + 1) - (-x0) * (-x0 + 1)
    }
}

/// Column `x` of a range: its length, its coordinates and its
/// distinctness.
proof fn lemma_range_column(c: HexCoord, r: int, x: int)
    requires
        0 <= r,
        -r <= x <= r,
        i32::MIN <= c.x - r && c.x + r <= i32::MAX,
        i32::MIN <= c.y - r && c.y + r <= i32::MAX,
    ensures
        range_column(c, r, x).len() == 2 * r + 1 - abs(x),
        forall|k: int| 0 <= k < range_column(c, r, x).len() ==> {
            &&& (#[trigger] range_column(c, r, x)[k]).x - c.x == x
            &&& hex_distance(range_column(c, r, x)[k], c) <= r
        },
        forall|h: HexCoord| h.x - c.x == x && hex_distance(h, c) <= r ==>
            #[trigger] range_column(c, r, x).contains(h),
        range_column(c, r, x).no_duplicates(),
{
    let col = range_column(c, r, x);
    let lo = if -r >= -x - r { -r } else { -x - r };
    assert forall|h: HexCoord| h.x - c.x == x && hex_distance(h, c) <= r implies
        #[trigger] col.contains(h) by {
        let k = h.y - c.y - lo;
        assert(col[k] == h);
    }
    assert forall|i: int, j: int| 0 <= i < col.len() && 0 <= j < col.len() && i != j implies
        col[i] != col[j] by {
        assert(col[i].y - c.y == lo + i);
        assert(col[j].y - c.y == lo + j);
    }
}

/// Columns `x0` to `r` of a range: their length, their coordinates and
/// their distinctness.
proof fn lemma_range_columns(c: HexCoord, r: int, x0: int)
    requires
        0 <= r,
        -r <= x0 <= r + 1,
        i32::MIN <= c.x - r && c.x + r <= i32::MAX,
        i32::MIN <= c.y - r && c.y + r <= i32::MAX,
    ensures
        2 * range_columns(c, r, x0).len() == twice_columns_len(r, x0),
        forall|k: int| 0 <= k < range_columns(c, r, x0).len() ==> {
            &&& x0 <= (#[trigger] range_columns(c, r, x0)[k]).x - c.x
            &&& hex_distance(range_columns(c, r, x0)[k], c) <= r
        },
        forall|h: HexCoord| x0 <= h.x - c.x && hex_distance(h, c) <= r ==>
            #[trigger] range_columns(c, r, x0).contains(h),
        range_columns(c, r, x0).no_duplicates(),
    decreases r + 1 - x0,
{
    if x0 > r {
        assert(twice_columns_len(r, x0) == 0) by (nonlinear_arith)
            requires
                x0 == r + 1,
                0 <= r,
        ;
    } else {
        lemma_range_column(c, r, x0);
        lemma_range_columns(c, r, x0 + 1);
        let col = range_column(c, r, x0);
        let rest = range_columns(c, r, x0 + 1);
        let all = range_columns(c, r, x0);
        assert(all == col + rest);
        if x0 >= 0 {
            assert(twice_columns_len(r, x0) == 2 * (2 * r + 1 - x0) + twice_columns_len(r, x0 + 1))
                by (nonlinear_arith)
                requires
                    0 <= x0 <= r,
            ;
        } else if x0 == -1 {
            assert(twice_columns_len(r, -1) == 2 * (2 * r + 1 - 1) + twice_columns_len(r, 0))
                by (nonlinear_arith)
                requires
                    0 <= r,
            ;
        } else {
            assert(twice_columns_len(r, x0) == 2 * (2 * r + 1 + x0) + twice_columns_len(r, x0 + 1))
                by (nonlinear_arith)
                requires
                    x0 < -1,
            ;
        }
        assert forall|k: int| 0 <= k < all.len() implies {
            &&& x0 <= (#[trigger] all[k]).x - c.x
            &&& hex_distance(all[k], c) <= r
        } by {
            if k < col.len() {
                assert(all[k] == col[k]);
            } else {
                assert(all[k] == rest[k - col.len()]);
            }
        }
        assert forall|h: HexCoord| x0 <= h.x - c.x && hex_distance(h, c) <= r implies
            #[trigger] all.contains(h) by {
            if h.x - c.x == x0 {
                assert(col.contains(h));
                let k = choose|k: int| 0 <= k < col.len() && col[k] == h;
                assert(all[k] == h);
            } else {
                assert(rest.contains(h));
                let k = choose|k: int| 0 <= k < rest.len() && rest[k] == h;
                assert(all[k + col.len()] == h);
            }
        }
        assert forall|i: int, j: int| 0 <= i < all.len() && 0 <= j < all.len() && i != j implies
            all[i] != all[j] by {
            if i < col.len() && j < col.len() {
                assert(all[i] == col[i] && all[j] == col[j]);
            } else if i >= col.len() && j >= col.len() {
                assert(all[i] == rest[i - col.len()] && all[j] == rest[j - col.len()]);
            } else if i < col.len() {
                assert(all[i] == col[i] && all[j] == rest[j - col.len()]);
            } else {
                assert(all[j] == col[j] && all[i] == rest[i - col.len()]);
            }
        }
    }
}

/// The coordinates that `hexx::Hex::range` lists are those within the
/// radius, each once, `range_count` of them.
proof fn lemma_range_order(c: HexCoord, r: int)
    requires
        0 <= r,
        i32::MIN <= c.x - r && c.x + r <= i32::MAX,
        i32::MIN <= c.y - r && c.y + r <= i32::MAX,
    ensures
        range_order(c, r).len() == range_count(r),
        range_order(c, r).no_duplicates(),
        forall|i: int| 0 <= i < range_order(c, r).len() ==> hex_distance(#[trigger] range_order(c, r)[i], c) <= r,
        forall|h: HexCoord| hex_distance(h, c) <= r ==> #[trigger] range_order(c, r).contains(h),
{
    lemma_range_columns(c, r, -r);
    assert(twice_columns_len(r, -r) == 2 * range_count(r)) by (nonlinear_arith)
        requires
            0 <= r,
    ;
}

/// Steps once from `h` in direction `d` with `hexx::Hex::neighbor`, which
/// adds the direction's entry of `Hex::NEIGHBORS_COORDS` to `h`. The
/// addition overflows at the edges of `i32`, which `requires` leaves out.
#[verifier::external_body]
fn hexx_neighbor(h: HexCoord, d: HexDirection) -> (n: HexCoord)
    requires
        can_step_toward(h, d),
    ensures
        n == neighbor_of(h, d),
{
    let direction = match d {
        HexDirection::FlatTop => hexx::EdgeDirection::FLAT_TOP,
        HexDirection::FlatTopRight => hexx::EdgeDirection::FLAT_TOP_RIGHT,
        HexDirection::FlatBottomRight => hexx::EdgeDirection::FLAT_BOTTOM_RIGHT,
        HexDirection::FlatBottom => hexx::EdgeDirection::FLAT_BOTTOM,
        HexDirection::FlatBottomLeft => hexx::EdgeDirection::FLAT_BOTTOM_LEFT,
        HexDirection::FlatTopLeft => hexx::EdgeDirection::FLAT_TOP_LEFT,
    };
    let n = hexx::Hex::new(h.x, h.y).neighbor(direction);
    HexCoord { x: n.x, y: n.y }
}

/// Collects `hexx::Hex::range(center, radius)`: for each column offset `x`
/// from `-radius` to `radius`, the coordinates `center + (x, y)` for `y`
/// from `max(-radius, -x - radius)` to `min(radius, radius - x)`.
#[verifier::external_body]
fn hexx_range(center: HexCoord, radius: u32) -> (v: Vec<HexCoord>)
    requires
        range_fits(center, radius),
    ensures
        v@ == range_order(center, radius as int),
{
    let mut v = Vec::new();
    for h in hexx::Hex::new(center.x, center.y).range(radius) {
        v.push(HexCoord { x: h.x, y: h.y });
    }
    v
}

/// `hexx::Hex::to_higher_res(h, radius)`: with cubic `(x, y, z)` of `h`
/// and `r = radius`, the coordinate `(x*(r+1) - r*z, y*(r+1) - r*x)`.
/// Its `i32` arithmetic overflows outside `higher_res_fits`.
#[verifier::external_body]
fn hexx_to_higher_res(h: HexCoord, radius: u32) -> (c: HexCoord)
    requires
        higher_res_fits(h, radius),
    ensures
        c == higher_res(h, radius as int),
{
    let c = hexx::Hex::new(h.x, h.y).to_higher_res(radius);
    HexCoord { x: c.x, y: c.y }
}

/// A step in any direction reaches a coordinate at distance one.
pub proof fn lemma_neighbor_distance(h: HexCoord, d: HexDirection)
    requires
        can_step_toward(h, d),
    ensures
        hex_distance(neighbor_of(h, d), h) == 1,
{
}

impl HexCoord {
    /// The coordinate one step away in `direction`.
    pub fn neighbor(self, direction: HexDirection) -> (n: HexCoord)
        requires
            can_step_toward(self, direction),
        ensures
            n == neighbor_of(self, direction),
            hex_distance(n, self) == 1,
    {
        hexx_neighbor(self, direction)
    }

    /// Every coordinate within `radius` steps of `self`, each once, column
    /// by column.
    pub fn range(self, radius: u32) -> (v: Vec<HexCoord>)
        requires
            range_fits(self, radius),
        ensures
            v@ == range_order(self, radius as int),
            v@.len() == range_count(radius as int),
            v@.no_duplicates(),
            forall|i: int| 0 <= i < v@.len() ==> hex_distance(#[trigger] v@[i], self) <= radius,
            forall|h: HexCoord| hex_distance(h, self) <= radius ==> #[trigger] v@.contains(h),
    {
        let v = hexx_range(self, radius);
        proof { lemma_range_order(self, radius as int); }
        v
    }

    /// The centre, in this grid, of the group of radius `radius` that
    /// `self` names in the coarser grid of such groups.
    pub fn to_higher_res(self, radius: u32) -> (c: HexCoord)
        requires
            higher_res_fits(self, radius),
        ensures
            c == higher_res(self, radius as int),
    {
        hexx_to_higher_res(self, radius)
    }
}

/// The direction at position `i` of the drawing order.
pub fn hex_direction_at(i: usize) -> (d: HexDirection)
    requires
        i < 6,
    ensures
        d == direction_table()[i as int],
{
    let directions = [
        HexDirection::FlatTop,
        HexDirection::FlatTopRight,
        HexDirection::FlatBottomRight,
        HexDirection::FlatBottom,
        HexDirection::FlatBottomLeft,
        HexDirection::FlatTopLeft,
    ];
    directions[i]
}

/// Draws one of the six directions at random.
pub fn get_new_hex_direction() -> (d: HexDirection)
    ensures
        direction_table().contains(d),
{
    let i = random_index(6);
    let d = hex_direction_at(i);
    d
}

} // verus!
