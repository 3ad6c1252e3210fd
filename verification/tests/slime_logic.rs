use slime_hex::hex::{HexCoord, HexDirection};
use slime_hex::slime::{
    advance_frame, after_advance, animate_sprite_frame, move_slime, move_slime_toward, HexPosition,
    MoveState, SlimeMove,
};

fn distance(a: HexCoord, b: HexCoord) -> i32 {
    let dx = a.x - b.x;
    let dy = a.y - b.y;
    dx.abs().max(dy.abs()).max((dx + dy).abs())
}

#[test]
fn sprite_indices_of_each_state() {
    assert_eq!(MoveState::Idle.get_sprite_indices(), (0, 4));
    assert_eq!(MoveState::Jump.get_sprite_indices(), (5, 5));
    assert_eq!(MoveState::Jumping.get_sprite_indices(), (7, 7));
    assert_eq!(MoveState::Moving.get_sprite_indices(), (6, 6));
    assert_eq!(MoveState::Land.get_sprite_indices(), (8, 8));
}

#[test]
fn idle_frames_advance_then_roll() {
    let mut state = MoveState::Idle;
    let mut index = 0usize;
    for expected in 1..=4 {
        advance_frame(&mut state, &mut index, true);
        assert_eq!((state, index), (MoveState::Idle, expected));
    }
    advance_frame(&mut state, &mut index, false);
    assert_eq!((state, index), (MoveState::Idle, 0));
    index = 4;
    advance_frame(&mut state, &mut index, true);
    assert_eq!((state, index), (MoveState::Jump, 5));
}

#[test]
fn phases_follow_each_other_on_last_frame() {
    let mut state = MoveState::Jump;
    let mut index = 5usize;
    advance_frame(&mut state, &mut index, false);
    assert_eq!((state, index), (MoveState::Jumping, 7));
    advance_frame(&mut state, &mut index, false);
    assert_eq!((state, index), (MoveState::Moving, 6));
    advance_frame(&mut state, &mut index, true);
    assert_eq!((state, index), (MoveState::Moving, 6));
    let mut state = MoveState::Land;
    let mut index = 8usize;
    advance_frame(&mut state, &mut index, true);
    assert_eq!((state, index), (MoveState::Idle, 0));
}

#[test]
fn frame_before_last_just_advances() {
    let mut state = MoveState::Land;
    let mut index = 6usize;
    advance_frame(&mut state, &mut index, true);
    assert_eq!((state, index), (MoveState::Land, 7));
    advance_frame(&mut state, &mut index, true);
    assert_eq!((state, index), (MoveState::Land, 8));
}

#[test]
fn animate_idle_last_frame_either_jumps_or_restarts() {
    for _ in 0..50 {
        let mut state = MoveState::Idle;
        let mut index = 4usize;
        animate_sprite_frame(&mut state, &mut index);
        assert!((state, index) == (MoveState::Jump, 5) || (state, index) == (MoveState::Idle, 0));
    }
    let mut state = MoveState::Idle;
    let mut index = 2usize;
    animate_sprite_frame(&mut state, &mut index);
    assert_eq!((state, index), (MoveState::Idle, 3));
}

#[test]
fn jump_moves_toward_direction() {
    let mut position = HexPosition(HexCoord { x: 3, y: -2 });
    let mut state = MoveState::Jump;
    let m = move_slime_toward(&mut position, &mut state, HexDirection::FlatTopRight);
    assert_eq!(position.0, HexCoord { x: 4, y: -3 });
    assert_eq!(state, MoveState::Moving);
    assert_eq!(m, SlimeMove::Travel { from: HexCoord { x: 3, y: -2 }, to: HexCoord { x: 4, y: -3 } });
}

#[test]
fn gliding_and_resting_slimes_stay() {
    let start = HexCoord { x: -1, y: 5 };
    let mut position = HexPosition(start);
    let mut state = MoveState::Moving;
    assert_eq!(move_slime_toward(&mut position, &mut state, HexDirection::FlatBottom), SlimeMove::Advance);
    assert_eq!((position.0, state), (start, MoveState::Moving));
    for s in [MoveState::Idle, MoveState::Jumping, MoveState::Land] {
        let mut state = s;
        let m = move_slime(&mut position, &mut state);
        assert_eq!(m, SlimeMove::Rest { at: start });
        assert_eq!((position.0, state), (start, s));
    }
}

#[test]
fn random_jump_lands_on_neighbor() {
    for _ in 0..50 {
        let start = HexCoord { x: 7, y: 7 };
        let mut position = HexPosition(start);
        let mut state = MoveState::Jump;
        let m = move_slime(&mut position, &mut state);
        assert_eq!(state, MoveState::Moving);
        assert_eq!(distance(position.0, start), 1);
        assert_eq!(m, SlimeMove::Travel { from: start, to: position.0 });
    }
}

#[test]
fn glide_lands_only_when_arrived() {
    assert_eq!(after_advance(MoveState::Moving, true), MoveState::Land);
    assert_eq!(after_advance(MoveState::Moving, false), MoveState::Moving);
    assert_eq!(after_advance(MoveState::Idle, true), MoveState::Idle);
}

#[test]
fn frame_never_leaves_sprite_sheet() {
    let mut state = MoveState::Idle;
    let mut index = 0usize;
    let mut position = HexPosition(HexCoord { x: 0, y: 0 });
    for step in 0..2000usize {
        animate_sprite_frame(&mut state, &mut index);
        assert!(index <= state.get_sprite_indices().1);
        let m = move_slime(&mut position, &mut state);
        if m == SlimeMove::Advance {
            state = after_advance(state, step % 3 == 0);
        }
        assert!(index <= state.get_sprite_indices().1);
        assert!(index < 9);
    }
}

#[test]
fn animation_changes_phase_only_forward() {
    let states = [MoveState::Idle, MoveState::Jump, MoveState::Jumping, MoveState::Moving, MoveState::Land];
    let allowed = [
        (MoveState::Idle, MoveState::Jump),
        (MoveState::Jump, MoveState::Jumping),
        (MoveState::Jumping, MoveState::Moving),
        (MoveState::Land, MoveState::Idle),
    ];
    for s in states {
        for i in 0..=8usize {
            for roll in [false, true] {
                let mut state = s;
                let mut index = i;
                advance_frame(&mut state, &mut index, roll);
                assert!(state == s || allowed.contains(&(s, state)));
                assert!(s != MoveState::Moving || state == MoveState::Moving);
                assert!(state != MoveState::Land || s == MoveState::Land);
                let (first, last) = s.get_sprite_indices();
                if first <= i && i <= last {
                    let (f2, l2) = state.get_sprite_indices();
                    assert!(f2 <= index && index <= l2);
                }
            }
        }
    }
}

#[test]
fn idle_slime_eventually_jumps() {
    let mut jumped = false;
    for _ in 0..200 {
        let mut state = MoveState::Idle;
        let mut index = 4usize;
        animate_sprite_frame(&mut state, &mut index);
        if state == MoveState::Jump {
            jumped = true;
            break;
        }
    }
    assert!(jumped);
}

#[test]
fn slime_tints_vary() {
    let mut seen = [[false; 2]; 3];
    for _ in 0..200 {
        let tint = slime_hex::slime::slime_tint();
        for c in 0..3 {
            seen[c][tint[c] as usize] = true;
        }
    }
    assert!(seen.iter().all(|s| s[0] && s[1]));
}
