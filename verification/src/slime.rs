use vstd::prelude::*;

use crate::hex::{can_step, can_step_toward, get_new_hex_direction, hex_distance, neighbor_of, HexCoord, HexDirection};
use crate::random::random_ratio;

verus! {

/// The movement phase of a slime; each phase owns a range of frames of the
/// slime sprite sheet.
#[derive(PartialEq, Eq, Structural, Clone, Copy, Debug)]
pub enum MoveState {
    Idle,
    Jump,
    Jumping,
    Moving,
    Land,
}

/// First frame of the sprite sheet shown in `state`.
pub open spec fn first_frame(state: MoveState) -> nat {
    match state {
        MoveState::Idle => 0,
        MoveState::Jump => 5,
        MoveState::Jumping => 7,
        MoveState::Moving => 6,
        MoveState::Land => 8,
    }
}

/// Last frame of the sprite sheet shown in `state`.
pub open spec fn last_frame(state: MoveState) -> nat {
    match state {
        MoveState::Idle => 4,
        MoveState::Jump => 5,
        MoveState::Jumping => 7,
        MoveState::Moving => 6,
        MoveState::Land => 8,
    }
}

impl MoveState {
    /// The first and last sprite sheet frame of this state.
    pub fn get_sprite_indices(&self) -> (r: (usize, usize))
        ensures
            r.0 == first_frame(*self),
            r.1 == last_frame(*self),
    {
        match self {
            MoveState::Idle => (0, 4),
            MoveState::Jump => (5, 5),
            MoveState::Jumping => (7, 7),
            MoveState::Moving => (6, 6),
            MoveState::Land => (8, 8),
        }
    }
}


/// Number of frames in the slime sprite sheet.
pub open spec fn slime_frame_count() -> nat {
    9
}

/// The phase that follows `state` once its last frame has been shown;
/// `wants_jump` is the roll that decides whether an idle slime jumps.
pub open spec fn phase_after(state: MoveState, wants_jump: bool) -> MoveState {
    match state {
        MoveState::Idle => if wants_jump { MoveState::Jump } else { MoveState::Idle },
        MoveState::Jump => MoveState::Jumping,
        MoveState::Jumping => MoveState::Moving,
        MoveState::Moving => MoveState::Moving,
        MoveState::Land => MoveState::Idle,
    }
}

/// Phase and frame after one animation tick: the next frame of the phase,
/// or, from its last frame, the first frame of the following phase.
pub open spec fn next_frame(state: MoveState, index: nat, wants_jump: bool) -> (MoveState, nat) {
    if index == last_frame(state) {
        let next = phase_after(state, wants_jump);
        (next, first_frame(next))
    } else {
        (state, index + 1)
    }
}

/// Whether the animation tick rolls the dice: only an idle slime on its
/// last frame decides whether to jump.
pub open spec fn rolls_for_jump(state: MoveState, index: nat) -> bool {
    state == MoveState::Idle && index == last_frame(state)
}

/// Advances the animation by one frame; `wants_jump` decides whether an
/// idle slime on its last frame starts a jump.
pub fn advance_frame(state: &mut MoveState, index: &mut usize, wants_jump: bool)
    requires
        *old(index) < usize::MAX,
    ensures
        (*final(state), *final(index) as nat) == next_frame(*old(state), *old(index) as nat, wants_jump),
{
    let (_, last_index) = state.get_sprite_indices();
    if *index == last_index {
        let next = match *state {
            MoveState::Idle => if wants_jump { MoveState::Jump } else { MoveState::Idle },
            MoveState::Jump => MoveState::Jumping,
            MoveState::Jumping => MoveState::Moving,
            MoveState::Moving => MoveState::Moving,
            MoveState::Land => MoveState::Idle,
        };
        *state = next;
        let (first_index, _) = state.get_sprite_indices();
        *index = first_index;
    } else {
        *index = *index + 1;
    }
}

/// One animation tick of a slime whose frame timer has just finished: an
/// idle slime on its last frame jumps with probability 9/10.
pub fn animate_sprite_frame(state: &mut MoveState, index: &mut usize)
    requires
        *old(index) < usize::MAX,
    ensures
        exists|wants_jump: bool|
            (*final(state), *final(index) as nat) == next_frame(*old(state), *old(index) as nat, wants_jump),
        !rolls_for_jump(*old(state), *old(index) as nat) ==>
            (*final(state), *final(index) as nat) == next_frame(*old(state), *old(index) as nat, false),
{
    let (_, last_index) = state.get_sprite_indices();
    let wants_jump = if *state == MoveState::Idle && *index == last_index {
        random_ratio(9, 10)
    } else {
        false
    };
    advance_frame(state, index, wants_jump);
}

/// Tint of a new slime: red, green and blue are each full or off, each
/// with an even chance; which ones is left to chance.
pub fn slime_tint() -> [bool; 3] {
    [random_ratio(1, 2), random_ratio(1, 2), random_ratio(1, 2)]
}

/// A slime's place on the grid.
#[derive(PartialEq, Eq, Structural, Clone, Copy, Debug)]
pub struct HexPosition(pub HexCoord);

/// What the caller does to the slime's transform after a movement step.
#[derive(PartialEq, Eq, Structural, Clone, Copy, Debug)]
pub enum SlimeMove {
    /// Set up a glide from the world position of `from` to that of `to`.
    Travel { from: HexCoord, to: HexCoord },
    /// Continue the glide, then report with `after_advance` whether it ended.
    Advance,
    /// Stand on the world position of `at`.
    Rest { at: HexCoord },
}

/// Phase after a movement step: a jump turns into a glide.
pub open spec fn moved_state(state: MoveState) -> MoveState {
    if state == MoveState::Jump { MoveState::Moving } else { state }
}

/// Phase after a glide step: a glide whose time is up lands.
pub open spec fn advanced_state(state: MoveState, arrived: bool) -> MoveState {
    if state == MoveState::Moving && arrived { MoveState::Land } else { state }
}

/// Movement step of a slime towards `direction`: a jumping slime moves to
/// the neighboring hexagon and starts gliding there, a gliding slime keeps
/// gliding, any other slime stands on its hexagon.
pub fn move_slime_toward(position: &mut HexPosition, state: &mut MoveState, direction: HexDirection) -> (m: SlimeMove)
    requires
        *old(state) == MoveState::Jump ==> can_step_toward(old(position).0, direction),
    ensures
        *final(state) == moved_state(*old(state)),
        *old(state) == MoveState::Jump ==> {
            &&& final(position).0 == neighbor_of(old(position).0, direction)
            &&& m == SlimeMove::Travel { from: old(position).0, to: final(position).0 }
        },
        *old(state) == MoveState::Moving ==> *final(position) == *old(position) && m == SlimeMove::Advance,
        *old(state) != MoveState::Jump && *old(state) != MoveState::Moving ==>
            *final(position) == *old(position) && m == (SlimeMove::Rest { at: old(position).0 }),
{
    if *state == MoveState::Jump {
        let origin = position.0;
        position.0 = origin.neighbor(direction);
        *state = MoveState::Moving;
        SlimeMove::Travel { from: origin, to: position.0 }
    } else if *state == MoveState::Moving {
        SlimeMove::Advance
    } else {
        SlimeMove::Rest { at: position.0 }
    }
}

/// Movement step of a slime: a jumping slime moves to a neighboring
/// hexagon in a random direction and starts gliding there.
pub fn move_slime(position: &mut HexPosition, state: &mut MoveState) -> (m: SlimeMove)
    requires
        *old(state) == MoveState::Jump ==> can_step(old(position).0),
    ensures
        *final(state) == moved_state(*old(state)),
        *old(state) == MoveState::Jump ==> {
            &&& exists|d: HexDirection| final(position).0 == neighbor_of(old(position).0, d)
            &&& hex_distance(final(position).0, old(position).0) == 1
            &&& m == SlimeMove::Travel { from: old(position).0, to: final(position).0 }
        },
        *old(state) == MoveState::Moving ==> *final(position) == *old(position) && m == SlimeMove::Advance,
        *old(state) != MoveState::Jump && *old(state) != MoveState::Moving ==>
            *final(position) == *old(position) && m == (SlimeMove::Rest { at: old(position).0 }),
{
    if *state == MoveState::Jump {
        let direction = get_new_hex_direction();
        proof { crate::hex::lemma_neighbor_distance(position.0, direction); }
        move_slime_toward(position, state, direction)
    } else {
        // Only a jump looks at the direction.
        move_slime_toward(position, state, HexDirection::FlatTop)
    }
}

/// Phase after the caller advanced a glide: it lands once `arrived`.
pub fn after_advance(state: MoveState, arrived: bool) -> (s: MoveState)
    ensures
        s == advanced_state(state, arrived),
{
    if state == MoveState::Moving && arrived {
        MoveState::Land
    } else {
        state
    }
}

/// The shown frame does not lie past the last frame of the phase. (A
/// movement step may leave the frame before the first frame of the new
/// phase; the next animation ticks then run on up to its last frame.)
pub open spec fn frame_fits(state: MoveState, index: nat) -> bool {
    index <= last_frame(state)
}

/// The shown frame is one of the frames of the phase.
pub open spec fn frame_in_phase(state: MoveState, index: nat) -> bool {
    first_frame(state) <= index <= last_frame(state)
}

/// An animation tick never shows a frame past the last frame of its phase.
pub proof fn lemma_animation_keeps_frame(state: MoveState, index: nat, wants_jump: bool)
    requires
        frame_fits(state, index),
    ensures
        frame_fits(next_frame(state, index, wants_jump).0, next_frame(state, index, wants_jump).1),
{
}

/// An animation tick from a frame of the phase shows a frame of the
/// resulting phase.
pub proof fn lemma_animation_keeps_frame_in_phase(state: MoveState, index: nat, wants_jump: bool)
    requires
        frame_in_phase(state, index),
    ensures
        frame_in_phase(next_frame(state, index, wants_jump).0, next_frame(state, index, wants_jump).1),
{
}

/// An animation tick changes the phase at most once and only along
/// Idle to Jump, Jump to Jumping, Jumping to Moving and Land to Idle: it
/// never leaves a glide and never starts a landing.
pub proof fn lemma_animation_transitions(state: MoveState, index: nat, wants_jump: bool)
    ensures
        ({
            let next = next_frame(state, index, wants_jump).0;
            &&& state == MoveState::Moving ==> next == MoveState::Moving
            &&& next == MoveState::Land ==> state == MoveState::Land
            &&& next != state ==> {
                ||| state == MoveState::Idle && next == MoveState::Jump
                ||| state == MoveState::Jump && next == MoveState::Jumping
                ||| state == MoveState::Jumping && next == MoveState::Moving
                ||| state == MoveState::Land && next == MoveState::Idle
            }
        }),
{
}

/// Movement steps (a jump turning into a glide, a glide landing) keep the
/// shown frame within the frames of the new phase.
pub proof fn lemma_movement_keeps_frame(state: MoveState, index: nat, arrived: bool)
    requires
        frame_fits(state, index),
    ensures
        frame_fits(moved_state(state), index),
        frame_fits(advanced_state(state, arrived), index),
{
}

/// A frame that fits its phase is a frame of the slime sprite sheet.
pub proof fn lemma_fitting_frame_on_sheet(state: MoveState, index: nat)
    requires
        frame_fits(state, index),
    ensures
        index < slime_frame_count(),
{
}

} // verus!
