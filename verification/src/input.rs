use vstd::prelude::*;

use crate::atlas::Point2;

verus! {

/// One step of the camera along an axis; the step length is
/// `200 * frame time * projection scale`, the scale taken before zooming.
#[derive(PartialEq, Eq, Structural, Clone, Copy, Debug)]
pub enum Pan {
    Up,
    Down,
    Left,
    Right,
}

/// What the camera controls read in one frame.
#[derive(PartialEq, Eq, Structural, Clone, Copy, Debug)]
pub struct ControlInput {
    /// The camera uses an orthographic projection.
    pub orthographic: bool,
    /// The mouse wheel turned towards the user (negative vertical delta).
    pub scroll_down: bool,
    /// The mouse wheel turned away from the user (positive vertical delta).
    pub scroll_up: bool,
    pub key_w: bool,
    pub key_s: bool,
    pub key_a: bool,
    pub key_d: bool,
    /// Physical size of the camera's viewport, if it has one.
    pub viewport_size: Option<Point2>,
    /// Physical size of the window.
    pub window_size: Point2,
}

/// What the camera does in one frame, in this order: zoom out (projection
/// scale times `4^(5 * frame time)`), zoom in (times
/// `0.25^(5 * frame time)`), the pans in order, then the viewport resize.
pub struct ControlAction {
    pub zoom_out: bool,
    pub zoom_in: bool,
    pub pans: Vec<Pan>,
    pub resize_viewport: Option<Point2>,
}

/// The pans of one frame: up for W, down for S, left for A, right for D.
pub open spec fn pans_for(input: ControlInput) -> Seq<Pan> {
    let s0 = Seq::<Pan>::empty();
    let s1 = if input.key_w { s0.push(Pan::Up) } else { s0 };
    let s2 = if input.key_s { s1.push(Pan::Down) } else { s1 };
    let s3 = if input.key_a { s2.push(Pan::Left) } else { s2 };
    if input.key_d { s3.push(Pan::Right) } else { s3 }
}

/// The new viewport size: the window size, when the viewport's differs.
pub open spec fn viewport_resize(input: ControlInput) -> Option<Point2> {
    match input.viewport_size {
        Some(v) => if v != input.window_size { Some(input.window_size) } else { None },
        None => None,
    }
}

/// How far a pan moves the camera, in steps along `x` (right) and `y` (up).
pub open spec fn pan_offset(p: Pan) -> (int, int) {
    match p {
        Pan::Up => (0, 1),
        Pan::Down => (0, -1),
        Pan::Left => (-1, 0),
        Pan::Right => (1, 0),
    }
}

/// Total camera movement of a list of pans, in steps along `x` and `y`.
pub open spec fn net_offset(pans: Seq<Pan>) -> (int, int)
    decreases pans.len(),
{
    if pans.len() == 0 {
        (0, 0)
    } else {
        let rest = net_offset(pans.drop_last());
        (rest.0 + pan_offset(pans.last()).0, rest.1 + pan_offset(pans.last()).1)
    }
}

/// Number of pressed keys among W, S, A and D.
pub open spec fn keys_pressed(input: ControlInput) -> int {
    (if input.key_w { 1int } else { 0 }) + (if input.key_s { 1int } else { 0 })
        + (if input.key_a { 1int } else { 0 }) + (if input.key_d { 1int } else { 0 })
}

/// Each movement key gives exactly its own pan, once: W up, S down, A left,
/// D right. The camera moves right by D minus A and up by W minus S, so A
/// and D (and W and S) pull in opposite directions.
pub proof fn lemma_pans_follow_keys(input: ControlInput)
    ensures
        pans_for(input).contains(Pan::Up) == input.key_w,
        pans_for(input).contains(Pan::Down) == input.key_s,
        pans_for(input).contains(Pan::Left) == input.key_a,
        pans_for(input).contains(Pan::Right) == input.key_d,
        pans_for(input).len() == keys_pressed(input),
        pans_for(input).no_duplicates(),
        net_offset(pans_for(input)) == ((if input.key_d { 1int } else { 0 }) - (if input.key_a { 1int } else { 0 }),
            (if input.key_w { 1int } else { 0 }) - (if input.key_s { 1int } else { 0 })),
{
    let s0 = Seq::<Pan>::empty();
    let s1 = if input.key_w { s0.push(Pan::Up) } else { s0 };
    let s2 = if input.key_s { s1.push(Pan::Down) } else { s1 };
    let s3 = if input.key_a { s2.push(Pan::Left) } else { s2 };
    let s4 = if input.key_d { s3.push(Pan::Right) } else { s3 };
    assert(s4 == pans_for(input));
    assert(net_offset(s0) == (0int, 0int));
    if input.key_w { assert(s1.drop_last() == s0); }
    if input.key_s { assert(s2.drop_last() == s1); }
    if input.key_a { assert(s3.drop_last() == s2); }
    if input.key_d { assert(s4.drop_last() == s3); }
    let w = if input.key_w { 1int } else { 0 };
    let sd = if input.key_s { 1int } else { 0 };
    let a = if input.key_a { 1int } else { 0 };
    let d = if input.key_d { 1int } else { 0 };
    assert(net_offset(s1) == (0int, w));
    assert(net_offset(s2) == (0int, w - sd));
    assert(net_offset(s3) == (-a, w - sd));
    assert(net_offset(s4) == (d - a, w - sd));
    assert(s1.contains(Pan::Up) == input.key_w) by {
        if input.key_w { assert(s1[0] == Pan::Up); }
    }
    assert(s2.contains(Pan::Down) == input.key_s && s2.contains(Pan::Up) == input.key_w) by {
        if input.key_s { assert(s2[s2.len() - 1] == Pan::Down); }
        if input.key_w { assert(s2[0] == Pan::Up); }
    }
    assert(s3.contains(Pan::Left) == input.key_a && s3.contains(Pan::Down) == input.key_s
        && s3.contains(Pan::Up) == input.key_w) by {
        if input.key_a { assert(s3[s3.len() - 1] == Pan::Left); }
        if input.key_s { assert(s3.contains(Pan::Down)) by {
            let i = choose|i: int| 0 <= i < s2.len() && s2[i] == Pan::Down;
            assert(s3[i] == Pan::Down);
        } }
        if input.key_w { assert(s3[0] == Pan::Up); }
    }
    assert(s4.contains(Pan::Right) == input.key_d && s4.contains(Pan::Left) == input.key_a
        && s4.contains(Pan::Down) == input.key_s && s4.contains(Pan::Up) == input.key_w) by {
        if input.key_d { assert(s4[s4.len() - 1] == Pan::Right); }
        if input.key_a { assert(s4.contains(Pan::Left)) by {
            let i = choose|i: int| 0 <= i < s3.len() && s3[i] == Pan::Left;
            assert(s4[i] == Pan::Left);
        } }
        if input.key_s { assert(s4.contains(Pan::Down)) by {
            let i = choose|i: int| 0 <= i < s3.len() && s3[i] == Pan::Down;
            assert(s4[i] == Pan::Down);
        } }
        if input.key_w { assert(s4[0] == Pan::Up); }
    }
    assert(s4.no_duplicates()) by {
        assert forall|i: int, j: int| 0 <= i < s4.len() && 0 <= j < s4.len() && i != j implies s4[i] != s4[j] by {
            // Pans are pushed in the order Up, Down, Left, Right, each at most once.
            let rank = |p: Pan| match p { Pan::Up => 0int, Pan::Down => 1int, Pan::Left => 2int, Pan::Right => 3int };
            assert(forall|a: int, b: int| 0 <= a < b < s4.len() ==> rank(s4[a]) < rank(s4[b]));
        }
    }
}

/// Camera controls of one frame: with an orthographic camera, the wheel
/// zooms, W/S/A/D pan, and a viewport whose size differs from the window's
/// takes the window's size; any other camera is left alone.
pub fn controls(input: &ControlInput) -> (action: ControlAction)
    ensures
        action.zoom_out == (input.orthographic && input.scroll_down),
        action.zoom_in == (input.orthographic && input.scroll_up),
        action.pans@ == (if input.orthographic { pans_for(*input) } else { Seq::empty() }),
        input.orthographic ==> {
            &&& action.pans@.contains(Pan::Up) == input.key_w
            &&& action.pans@.contains(Pan::Down) == input.key_s
            &&& action.pans@.contains(Pan::Left) == input.key_a
            &&& action.pans@.contains(Pan::Right) == input.key_d
            &&& action.pans@.no_duplicates()
        },
        action.resize_viewport == (if input.orthographic { viewport_resize(*input) } else { None }),
{
    let mut action = ControlAction { zoom_out: false, zoom_in: false, pans: Vec::new(), resize_viewport: None };
    if input.orthographic {
        action.zoom_out = input.scroll_down;
        action.zoom_in = input.scroll_up;
        if input.key_w {
            action.pans.push(Pan::Up);
        }
        if input.key_s {
            action.pans.push(Pan::Down);
        }
        if input.key_a {
            action.pans.push(Pan::Left);
        }
        if input.key_d {
            action.pans.push(Pan::Right);
        }
        if let Some(viewport) = input.viewport_size {
            if viewport.x != input.window_size.x || viewport.y != input.window_size.y {
                action.resize_viewport = Some(input.window_size);
            }
        }
    }
    assert(action.pans@ =~= (if input.orthographic { pans_for(*input) } else { Seq::empty() }));
    proof { lemma_pans_follow_keys(*input); }
    action
}

} // verus!
