use seen_room_twice::player::{
    compute_player_f_pos, initiate_move, press_direction, release_direction, update_player, Player,
};
use seen_room_twice::types::{Action, AnimatedPos, Dir, FPos, Pos};

fn pos(x: i8, y: i8) -> Pos {
    Pos { x, y }
}

fn player(at: AnimatedPos) -> Player {
    Player {
        up_pressed: false,
        left_pressed: false,
        down_pressed: false,
        right_pressed: false,
        most_recent_dir: None,
        buffered_dir: None,
        pos: at,
    }
}

#[test]
fn press_buffers_taps_but_not_auto_repeat() {
    let mut pressed = false;
    let mut buffered: Option<Dir> = None;
    let mut recent: Option<Dir> = Some(Dir::Up);
    press_direction(&mut pressed, &mut buffered, &mut recent, Dir::Left);
    assert!(pressed);
    assert_eq!(buffered, Some(Dir::Left));
    assert_eq!(recent, Some(Dir::Left));
    buffered = None;
    press_direction(&mut pressed, &mut buffered, &mut recent, Dir::Left);
    assert_eq!(buffered, None);
    assert_eq!(recent, Some(Dir::Left));
    release_direction(&mut pressed);
    assert!(!pressed);
    assert_eq!(recent, Some(Dir::Left));
}

#[test]
fn buffered_tap_wins_over_held_key() {
    let mut p = player(AnimatedPos::MovingSince(pos(2, 1), Dir::Down, 0));
    p.up_pressed = true;
    p.most_recent_dir = Some(Dir::Up);
    p.buffered_dir = Some(Dir::Left);
    assert_eq!(update_player(&mut p, 1, 124), None);
    assert_eq!(p.pos, AnimatedPos::MovingSince(pos(2, 1), Dir::Down, 0));
    let action = update_player(&mut p, 1, 125);
    assert_eq!(action, Some(Action::Move(pos(2, 2), Dir::Left)));
    assert_eq!(p.pos, AnimatedPos::Idle(pos(2, 2)));
}

#[test]
fn blocked_tap_falls_back_to_held_key() {
    // (0, 2) is a wall: the tap to the left is blocked, the held up key is honoured
    let mut p = player(AnimatedPos::MovingSince(pos(1, 1), Dir::Down, 0));
    p.up_pressed = true;
    p.most_recent_dir = Some(Dir::Up);
    p.buffered_dir = Some(Dir::Left);
    let action = update_player(&mut p, 1, 200);
    assert_eq!(action, Some(Action::Move(pos(1, 2), Dir::Up)));
}

#[test]
fn held_keys_in_fixed_order() {
    let mut p = player(AnimatedPos::MovingSince(pos(2, 1), Dir::Down, 0));
    p.down_pressed = true;
    p.left_pressed = true;
    p.most_recent_dir = Some(Dir::Right);
    assert_eq!(update_player(&mut p, 1, 125), Some(Action::Move(pos(2, 2), Dir::Left)));
    let mut q = player(AnimatedPos::MovingSince(pos(2, 1), Dir::Down, 0));
    q.down_pressed = true;
    q.left_pressed = true;
    q.most_recent_dir = Some(Dir::Down);
    assert_eq!(update_player(&mut q, 1, 125), Some(Action::Move(pos(2, 2), Dir::Down)));
    let mut idle = player(AnimatedPos::MovingSince(pos(2, 1), Dir::Down, 0));
    assert_eq!(update_player(&mut idle, 1, 125), None);
    assert_eq!(idle.pos, AnimatedPos::Idle(pos(2, 2)));
}

#[test]
fn leaving_and_entering_levels() {
    let mut p = player(AnimatedPos::MovingOutSince(1, 2, 100));
    assert_eq!(update_player(&mut p, 1, 224), None);
    assert_eq!(update_player(&mut p, 1, 225), Some(Action::TransitionLevel(1, 2)));
    assert_eq!(p.pos, AnimatedPos::MovingInUntil(1, 2, 350));
    let mut q = player(AnimatedPos::MovingInUntil(2, 1, 300));
    assert_eq!(update_player(&mut q, 1, 299), None);
    assert_eq!(update_player(&mut q, 1, 300), None);
    assert_eq!(q.pos, AnimatedPos::Idle(pos(8, 5)));
    let mut r = player(AnimatedPos::MovingInUntil(1, 2, 300));
    update_player(&mut r, 2, 300);
    assert_eq!(r.pos, AnimatedPos::Idle(pos(0, 1)));
}

#[test]
fn starting_moves() {
    let mut p = player(AnimatedPos::Idle(pos(1, 2)));
    assert_eq!(initiate_move(&mut p, 1, Dir::Left), None);
    assert_eq!(initiate_move(&mut p, 1, Dir::Up), Some(Action::Move(pos(1, 2), Dir::Up)));
    let mut at_sign = player(AnimatedPos::Idle(pos(4, 2)));
    assert_eq!(
        initiate_move(&mut at_sign, 1, Dir::Down),
        Some(Action::ReadSign("Can you figure out what the numbers mean?"))
    );
    assert_eq!(at_sign.pos, AnimatedPos::Idle(pos(4, 2)));
    // a door ahead on the side the player goes leads out of the level
    let mut next_to_left_door = player(AnimatedPos::Idle(pos(1, 1)));
    assert_eq!(initiate_move(&mut next_to_left_door, 1, Dir::Left), Some(Action::PreviousLevel));
    let mut next_to_right_door = player(AnimatedPos::Idle(pos(7, 5)));
    assert_eq!(initiate_move(&mut next_to_right_door, 1, Dir::Right), Some(Action::NextLevel));
    // only the cell ahead counts, not the one the player stands on
    let mut on_left_door = player(AnimatedPos::Idle(pos(0, 1)));
    assert_eq!(initiate_move(&mut on_left_door, 1, Dir::Left), Some(Action::Move(pos(0, 1), Dir::Left)));
    assert_eq!(initiate_move(&mut on_left_door, 1, Dir::Right), Some(Action::Move(pos(0, 1), Dir::Right)));
    let mut moving = player(AnimatedPos::MovingSince(pos(1, 2), Dir::Up, 0));
    assert_eq!(initiate_move(&mut moving, 1, Dir::Up), None);
}

#[test]
fn player_animation() {
    let moving = AnimatedPos::MovingSince(pos(1, 2), Dir::Right, 0);
    assert_eq!(compute_player_f_pos(&moving, 62), FPos { x: 1496, y: 2000 });
    let idle = AnimatedPos::Idle(pos(3, 4));
    assert_eq!(compute_player_f_pos(&idle, 500), FPos { x: 3000, y: 4000 });
    let going_back = AnimatedPos::MovingOutSince(2, 1, 0);
    assert_eq!(compute_player_f_pos(&going_back, 10), FPos { x: -80, y: 1040 });
    let coming_in = AnimatedPos::MovingInUntil(1, 2, 125);
    assert_eq!(compute_player_f_pos(&coming_in, 100), FPos { x: -200, y: 1100 });
}
