use seen_room_twice::corpse::Corpse;
use seen_room_twice::game::update;
use seen_room_twice::state::{initial_state, State, THE_END_MESSAGE, TITLE_MESSAGE};
use seen_room_twice::types::{
    AnimatedPos, Dir, FPos, Lifetime, MovingSpiny, Pos, RawInputEvent, TemporaryWall,
};

fn pos(x: i8, y: i8) -> Pos {
    Pos { x, y }
}

fn playing() -> State {
    let mut state = initial_state();
    state.message = None;
    state
}

#[test]
fn starts_on_the_title() {
    let state = initial_state();
    assert_eq!(state.message, Some(TITLE_MESSAGE));
    assert_eq!(state.level_number, 1);
    assert_eq!(state.previous_level, 0);
    assert_eq!(state.player.pos, AnimatedPos::MovingInUntil(0, 1, 125));
    assert!(!state.frozen);
}

#[test]
fn paused_game_does_not_advance() {
    let mut state = initial_state();
    update(&mut state, RawInputEvent::TimePasses(500));
    assert_eq!(state.time, 0);
    assert_eq!(state.player.pos, AnimatedPos::MovingInUntil(0, 1, 125));
    assert_eq!(state.spinies_moving_since, 0);
    update(&mut state, RawInputEvent::PressUp);
    assert!(state.player.up_pressed);
    assert!(state.message.is_some());
    assert_eq!(state.player.pos, AnimatedPos::MovingInUntil(0, 1, 125));
    update(&mut state, RawInputEvent::ReleaseUp);
    assert!(!state.player.up_pressed);
    assert_eq!(state.message, None);
}

#[test]
fn paused_clock_ignores_any_delay() {
    let mut state = initial_state();
    let before = state.clone();
    update(&mut state, RawInputEvent::TimePasses(u64::MAX));
    assert_eq!(state, before);
}

#[test]
fn pause_and_any_key() {
    let mut state = playing();
    update(&mut state, RawInputEvent::PressPause);
    assert!(state.message.is_some());
    update(&mut state, RawInputEvent::TimePasses(100));
    assert_eq!(state.time, 0);
    update(&mut state, RawInputEvent::PressAnyKey);
    assert_eq!(state.message, None);
    update(&mut state, RawInputEvent::TimePasses(100));
    assert_eq!(state.time, 100);
}

#[test]
fn leaving_the_first_level_restarts() {
    let mut state = initial_state();
    update(&mut state, RawInputEvent::PressAnyKey);
    update(&mut state, RawInputEvent::TimePasses(125));
    assert_eq!(state.player.pos, AnimatedPos::Idle(pos(0, 1)));
    // step off the door, then face it
    update(&mut state, RawInputEvent::PressRight);
    update(&mut state, RawInputEvent::ReleaseRight);
    update(&mut state, RawInputEvent::TimePasses(125));
    assert_eq!(state.player.pos, AnimatedPos::Idle(pos(1, 1)));
    update(&mut state, RawInputEvent::PressLeft);
    assert_eq!(state.next_level, Some(0));
    assert_eq!(state.player.pos, AnimatedPos::MovingOutSince(1, 0, 250));
    update(&mut state, RawInputEvent::TimePasses(125));
    assert_eq!(state, initial_state());
}

#[test]
fn moving_clears_the_tap() {
    let mut state = playing();
    state.player.pos = AnimatedPos::Idle(pos(2, 2));
    update(&mut state, RawInputEvent::PressDown);
    assert_eq!(state.player.buffered_dir, None);
    assert_eq!(state.player.pos, AnimatedPos::MovingSince(pos(2, 2), Dir::Down, 0));
    update(&mut state, RawInputEvent::ReleaseDown);
    update(&mut state, RawInputEvent::TimePasses(125));
    assert_eq!(state.player.pos, AnimatedPos::Idle(pos(2, 3)));
}

#[test]
fn reading_a_sign_pauses() {
    let mut state = playing();
    state.player.pos = AnimatedPos::Idle(pos(4, 2));
    update(&mut state, RawInputEvent::PressDown);
    assert_eq!(state.message, Some("Can you figure out what the numbers mean?"));
    assert_eq!(state.player.pos, AnimatedPos::Idle(pos(4, 2)));
}

#[test]
fn touching_a_spiny_kills() {
    let mut state = playing();
    state.player.pos = AnimatedPos::Idle(pos(2, 2));
    state.spinies = vec![MovingSpiny {
        pos: pos(2, 2),
        dir: Dir::Up,
        lifetime: Lifetime { level_min: 1, level_max: 1 },
        enabled: true,
    }];
    update(&mut state, RawInputEvent::TimePasses(10));
    assert_eq!(state.corpses.len(), 1);
    assert_eq!(state.corpses[0], Corpse { f_pos: FPos { x: 2000, y: 2000 }, t0: 10 });
    assert_eq!(state.player.pos, AnimatedPos::MovingInUntil(0, 1, 10));
}

#[test]
fn far_spiny_is_harmless() {
    let mut state = playing();
    state.player.pos = AnimatedPos::Idle(pos(2, 2));
    state.spinies = vec![MovingSpiny {
        pos: pos(5, 5),
        dir: Dir::Up,
        lifetime: Lifetime { level_min: 1, level_max: 1 },
        enabled: true,
    }];
    update(&mut state, RawInputEvent::TimePasses(10));
    assert!(state.corpses.is_empty());
    assert_eq!(state.player.pos, AnimatedPos::Idle(pos(2, 2)));
}

#[test]
fn transition_waits_for_the_spinies() {
    let mut state = playing();
    state.player.pos = AnimatedPos::Idle(pos(7, 5));
    update(&mut state, RawInputEvent::PressRight);
    assert_eq!(state.next_level, Some(2));
    update(&mut state, RawInputEvent::TimePasses(125));
    // the swarm is mid-step: the player waits at the door
    assert_eq!(state.level_number, 1);
    assert_eq!(state.player.pos, AnimatedPos::MovingOutSince(1, 2, 0));
    update(&mut state, RawInputEvent::TimePasses(125));
    assert_eq!(state.spinies_moving_since, 250);
    assert_eq!(state.level_number, 2);
    assert_eq!(state.previous_level, 1);
    assert_eq!(state.next_level, None);
    assert_eq!(state.player.pos, AnimatedPos::MovingInUntil(1, 2, 250));
    let walls: Vec<(Pos, Lifetime)> =
        state.temporary_walls.iter().map(|w: &TemporaryWall| (w.pos, w.lifetime)).collect();
    assert_eq!(
        walls,
        vec![
            (pos(7, 1), Lifetime { level_min: 1, level_max: 3 }),
            (pos(5, 3), Lifetime { level_min: 1, level_max: 2 }),
            (pos(6, 3), Lifetime { level_min: 2, level_max: 3 }),
        ]
    );
}

#[test]
fn past_the_last_level_the_game_ends() {
    let mut state = playing();
    state.level_number = 13;
    state.previous_level = 12;
    state.spinies = Vec::new();
    state.player.pos = AnimatedPos::Idle(pos(7, 5));
    update(&mut state, RawInputEvent::PressRight);
    assert_eq!(state.next_level, Some(14));
    update(&mut state, RawInputEvent::TimePasses(125));
    assert_eq!(state.message, Some(THE_END_MESSAGE));
    assert!(state.frozen);
    update(&mut state, RawInputEvent::PressAnyKey);
    assert_eq!(state.message, Some(THE_END_MESSAGE));
    update(&mut state, RawInputEvent::ReleaseRight);
    assert_eq!(state.message, Some(THE_END_MESSAGE));
}
