use vstd::prelude::*;

use crate::corpse::{expire, update_corpses, Corpse};
use crate::levels::{
    adjust_spinies, adjust_walls, adjusted, adjusted_spinies, max_level, min_level, MAX_LEVEL,
    MIN_LEVEL,
};
use crate::player::{
    compute_player_f_pos, initiate_move, initiated, is_pressed, player_f_pos, player_tick,
    press_direction, release_direction, time_stamp, update_player, Player,
};
use crate::spiny::{compute_spiny_f_pos, next_anchor, spiny_f_pos, update_spinies, updated_spinies};
use crate::state::{initial_state, is_initial, State, PAUSED_MESSAGE, THE_END_MESSAGE};
use crate::types::{
    Action, AnimatedPos, Dir, FPos, Millis, MovingSpiny, RawInputEvent, TemporaryWall, CELL_UNITS,
    HIT_MARGIN, LevelNumber, MAX_TIME, PLAYER_MOVE_DURATION,
};

verus! {

/// Whether two cell-sized hit boxes, shrunk by the margin on each side, overlap. The margin
/// accounts for the round sprites.
pub open spec fn overlaps(a: FPos, b: FPos) -> bool {
    let limit = CELL_UNITS - 2 * HIT_MARGIN;
    &&& -limit < a.x - b.x < limit
    &&& -limit < a.y - b.y < limit
}

/// Whether the player, at time `t`, touches one of the spinies of a swarm anchored at `t0`.
pub open spec fn hit(player: AnimatedPos, spinies: Seq<MovingSpiny>, t0: Millis, t: Millis) -> bool {
    exists|i: int|
        0 <= i < spinies.len() && overlaps(
            player_f_pos(player, t),
            #[trigger] spiny_f_pos(spinies[i], t0, t),
        )
}

fn overlap_rectangle(a: FPos, b: FPos) -> (r: bool)
    ensures
        r == overlaps(a, b),
{
    let limit = (CELL_UNITS - 2 * HIT_MARGIN) as i128;
    let dx = a.x as i128 - b.x as i128;
    let dy = a.y as i128 - b.y as i128;
    -limit < dx && dx < limit && -limit < dy && dy < limit
}

/// The death of the player if it touches a spiny.
fn should_die(player: &AnimatedPos, spinies: &Vec<MovingSpiny>, t0: Millis, t: Millis) -> (r:
    Option<Action>)
    requires
        t0 <= t <= MAX_TIME,
        time_stamp(*player) <= MAX_TIME + PLAYER_MOVE_DURATION,
    ensures
        r == if hit(*player, spinies@, t0, t) {
            Some(Action::Die(player_f_pos(*player, t)))
        } else {
            None
        },
{
    let player_pos = compute_player_f_pos(player, t);
    let mut i: usize = 0;
    while i < spinies.len()
        invariant
            t0 <= t <= MAX_TIME,
            i <= spinies.len(),
            player_pos == player_f_pos(*player, t),
            forall|k: int|
                0 <= k < i ==> !overlaps(player_pos, #[trigger] spiny_f_pos(spinies@[k], t0, t)),
        decreases spinies.len() - i,
    {
        let spiny_pos = compute_spiny_f_pos(&spinies[i], t0, t);
        if overlap_rectangle(player_pos, spiny_pos) {
            return Some(Action::Die(player_pos));
        }
        i += 1;
    }
    None
}

/// The player once the key of `dir` is pressed.
pub open spec fn pressed(p: Player, dir: Dir) -> Player {
    let buffered_dir = if is_pressed(p, dir) {
        p.buffered_dir
    } else {
        Some(dir)
    };
    let p = Player { buffered_dir, most_recent_dir: Some(dir), ..p };
    match dir {
        Dir::Up => Player { up_pressed: true, ..p },
        Dir::Left => Player { left_pressed: true, ..p },
        Dir::Down => Player { down_pressed: true, ..p },
        Dir::Right => Player { right_pressed: true, ..p },
    }
}

/// The player once the key of `dir` is released.
pub open spec fn released(p: Player, dir: Dir) -> Player {
    match dir {
        Dir::Up => Player { up_pressed: false, ..p },
        Dir::Left => Player { left_pressed: false, ..p },
        Dir::Down => Player { down_pressed: false, ..p },
        Dir::Right => Player { right_pressed: false, ..p },
    }
}

pub open spec fn pressed_dir(e: RawInputEvent) -> Option<Dir> {
    match e {
        RawInputEvent::PressUp => Some(Dir::Up),
        RawInputEvent::PressLeft => Some(Dir::Left),
        RawInputEvent::PressDown => Some(Dir::Down),
        RawInputEvent::PressRight => Some(Dir::Right),
        _ => None,
    }
}

pub open spec fn released_dir(e: RawInputEvent) -> Option<Dir> {
    match e {
        RawInputEvent::ReleaseUp => Some(Dir::Up),
        RawInputEvent::ReleaseLeft => Some(Dir::Left),
        RawInputEvent::ReleaseDown => Some(Dir::Down),
        RawInputEvent::ReleaseRight => Some(Dir::Right),
        _ => None,
    }
}

/// The key bookkeeping for an event, which happens whether the game is paused or not.
pub open spec fn keys_after(p: Player, e: RawInputEvent) -> Player {
    match pressed_dir(e) {
        Some(dir) => pressed(p, dir),
        None => match released_dir(e) {
            Some(dir) => released(p, dir),
            None => p,
        },
    }
}

/// The events that dismiss a message.
pub open spec fn unpauses(e: RawInputEvent) -> bool {
    e == RawInputEvent::PressPause || e == RawInputEvent::PressAnyKey || released_dir(e) is Some
}

/// Time, the corpses and the spinies are the same in `a` and `b`.
pub open spec fn same_progress(a: State, b: State) -> bool {
    &&& a.time == b.time
    &&& a.corpses@ == b.corpses@
    &&& a.spinies_moving_since == b.spinies_moving_since
    &&& a.spinies@ == b.spinies@
}

/// The level and its walls are the same in `a` and `b`.
pub open spec fn same_room(a: State, b: State) -> bool {
    &&& a.level_number == b.level_number
    &&& a.previous_level == b.previous_level
    &&& a.next_level == b.next_level
    &&& a.temporary_walls@ == b.temporary_walls@
}

/// The message and the end-of-game lock are the same in `a` and `b`.
pub open spec fn same_screen(a: State, b: State) -> bool {
    a.message == b.message && a.frozen == b.frozen
}

pub open spec fn unchanged(a: State, b: State) -> bool {
    same_progress(a, b) && same_room(a, b) && same_screen(a, b) && a.player == b.player
}

pub open spec fn with_player_pos(p: Player, pos: AnimatedPos) -> Player {
    Player { pos, ..p }
}

/// `n` is `o` after handling event `e`, and `r` is the action that the event calls for.
pub open spec fn handled(o: State, n: State, e: RawInputEvent, r: Option<Action>) -> bool {
    let keys = keys_after(o.player, e);
    if o.message is Some {
        &&& same_progress(o, n)
        &&& same_room(o, n)
        &&& same_screen(o, n)
        &&& n.player == keys
        &&& r == if unpauses(e) {
            Some(Action::Unpause)
        } else {
            None
        }
    } else {
        match e {
            RawInputEvent::TimePasses(dt) => {
                let t = (o.time + dt) as Millis;
                let (player, player_action) = player_tick(o.player, o.level_number, t);
                let t0 = next_anchor(o.spinies_moving_since, t);
                &&& n.time == t
                &&& n.spinies_moving_since == t0
                &&& n.spinies@ == updated_spinies(
                    o.spinies@,
                    o.level_number,
                    o.spinies_moving_since,
                    t,
                )
                &&& n.corpses@ == expire(o.corpses@, t)
                &&& n.player == player
                &&& same_room(o, n)
                &&& same_screen(o, n)
                &&& r == if hit(player.pos, n.spinies@, t0, t) {
                    Some(Action::Die(player_f_pos(player.pos, t)))
                } else {
                    player_action
                }
            },
            _ => {
                &&& same_progress(o, n)
                &&& same_room(o, n)
                &&& same_screen(o, n)
                &&& n.player == keys
                &&& r == match pressed_dir(e) {
                    Some(dir) => initiated(keys, o.level_number, dir),
                    None => if e == RawInputEvent::PressPause {
                        Some(Action::Pause)
                    } else {
                        None
                    },
                }
            },
        }
    }
}

/// Routes an event: the keys are tracked in any case; while a message is shown, only dismissing
/// it is possible; otherwise time moves the spinies, the corpses and the player, in that order,
/// and touching a spiny overrides whatever the player was doing.
fn handle_raw_input_event(state: &mut State, raw_input_event: RawInputEvent) -> (r: Option<
    Action,
>)
    requires
        old(state).wf(),
        old(state).message is None ==> (raw_input_event matches RawInputEvent::TimePasses(dt)
            ==> old(state).time + dt <= MAX_TIME),
    ensures
        handled(*old(state), *final(state), raw_input_event, r),
        final(state).wf(),
{
    // Track the keys whether the game is paused or not, otherwise the character would keep moving
    // if the user pauses and then releases a key.
    match raw_input_event {
        RawInputEvent::PressUp => press_direction(
            &mut state.player.up_pressed,
            &mut state.player.buffered_dir,
            &mut state.player.most_recent_dir,
            Dir::Up,
        ),
        RawInputEvent::PressLeft => press_direction(
            &mut state.player.left_pressed,
            &mut state.player.buffered_dir,
            &mut state.player.most_recent_dir,
            Dir::Left,
        ),
        RawInputEvent::PressDown => press_direction(
            &mut state.player.down_pressed,
            &mut state.player.buffered_dir,
            &mut state.player.most_recent_dir,
            Dir::Down,
        ),
        RawInputEvent::PressRight => press_direction(
            &mut state.player.right_pressed,
            &mut state.player.buffered_dir,
            &mut state.player.most_recent_dir,
            Dir::Right,
        ),
        RawInputEvent::ReleaseUp => release_direction(&mut state.player.up_pressed),
        RawInputEvent::ReleaseLeft => release_direction(&mut state.player.left_pressed),
        RawInputEvent::ReleaseDown => release_direction(&mut state.player.down_pressed),
        RawInputEvent::ReleaseRight => release_direction(&mut state.player.right_pressed),
        _ => {},
    }

    if state.message.is_some() {
        match raw_input_event {
            RawInputEvent::PressPause | RawInputEvent::PressAnyKey | RawInputEvent::ReleaseUp
            | RawInputEvent::ReleaseLeft | RawInputEvent::ReleaseDown
            | RawInputEvent::ReleaseRight => Some(Action::Unpause),
            _ => None,
        }
    } else {
        match raw_input_event {
            RawInputEvent::TimePasses(dt) => {
                state.time = state.time + dt;
                let t = state.time;

                update_spinies(
                    &mut state.spinies,
                    state.level_number,
                    &mut state.spinies_moving_since,
                    t,
                );
                update_corpses(&mut state.corpses, t);
                let player_action = update_player(&mut state.player, state.level_number, t);

                let death = should_die(
                    &state.player.pos,
                    &state.spinies,
                    state.spinies_moving_since,
                    t,
                );
                if death.is_some() {
                    death
                } else {
                    player_action
                }
            },
            RawInputEvent::PressUp => initiate_move(&mut state.player, state.level_number, Dir::Up),
            RawInputEvent::PressLeft => initiate_move(
                &mut state.player,
                state.level_number,
                Dir::Left,
            ),
            RawInputEvent::PressDown => initiate_move(
                &mut state.player,
                state.level_number,
                Dir::Down,
            ),
            RawInputEvent::PressRight => initiate_move(
                &mut state.player,
                state.level_number,
                Dir::Right,
            ),
            RawInputEvent::PressPause => Some(Action::Pause),
            _ => None,
        }
    }
}

/// The time from which a player held at a door waits again for the spinies: one move ago, so
/// that the next tick tries the transition again.
pub open spec fn waiting_since(time: Millis) -> Millis {
    if time >= PLAYER_MOVE_DURATION {
        (time - PLAYER_MOVE_DURATION) as Millis
    } else {
        0
    }
}

/// `n` is `o` after carrying out action `a`.
pub open spec fn executed(o: State, n: State, a: Action) -> bool {
    if o.frozen {
        unchanged(o, n)
    } else {
        match a {
            Action::Move(pos, dir) => {
                &&& same_progress(o, n)
                &&& same_room(o, n)
                &&& same_screen(o, n)
                &&& n.player == Player {
                    buffered_dir: None,
                    pos: AnimatedPos::MovingSince(pos, dir, o.time),
                    ..o.player
                }
            },
            Action::ReadSign(message) => {
                &&& same_progress(o, n)
                &&& same_room(o, n)
                &&& n.message == Some(message)
                &&& n.frozen == o.frozen
                &&& n.player == o.player
            },
            Action::Die(f_pos) => {
                &&& n.time == o.time
                &&& n.spinies_moving_since == o.spinies_moving_since
                &&& n.spinies@ == o.spinies@
                &&& n.corpses@ == o.corpses@.push(Corpse { f_pos, t0: o.time })
                &&& same_room(o, n)
                &&& same_screen(o, n)
                &&& n.player == with_player_pos(
                    o.player,
                    AnimatedPos::MovingInUntil(o.previous_level, o.level_number, o.time),
                )
            },
            Action::PreviousLevel | Action::NextLevel => {
                let next = if a is PreviousLevel {
                    (o.level_number - 1) as u8
                } else {
                    (o.level_number + 1) as u8
                };
                &&& same_progress(o, n)
                &&& same_screen(o, n)
                &&& n.level_number == o.level_number
                &&& n.previous_level == o.previous_level
                &&& n.next_level == Some(next)
                &&& n.temporary_walls@ == o.temporary_walls@
                &&& n.player == with_player_pos(
                    o.player,
                    AnimatedPos::MovingOutSince(o.level_number, next, o.time),
                )
            },
            Action::TransitionLevel(level_src, level_dst) => if level_dst < MIN_LEVEL {
                is_initial(&n)
            } else if level_dst > MAX_LEVEL {
                &&& same_progress(o, n)
                &&& same_room(o, n)
                &&& n.message == Some(THE_END_MESSAGE)
                &&& n.frozen
                &&& n.player == o.player
            } else if o.time == o.spinies_moving_since {
                &&& n.time == o.time
                &&& n.corpses@ == o.corpses@
                &&& n.spinies_moving_since == o.spinies_moving_since
                &&& n.spinies@ == adjusted_spinies(o.spinies@, level_src, level_dst)
                &&& n.temporary_walls@ == adjusted(o.temporary_walls@, level_src, level_dst)
                &&& n.previous_level == level_src
                &&& n.level_number == level_dst
                &&& n.next_level is None
                &&& same_screen(o, n)
                &&& n.player == with_player_pos(
                    o.player,
                    AnimatedPos::MovingInUntil(level_src, level_dst, o.time),
                )
            } else {
                &&& same_progress(o, n)
                &&& same_room(o, n)
                &&& same_screen(o, n)
                &&& n.player == with_player_pos(
                    o.player,
                    AnimatedPos::MovingOutSince(level_src, level_dst, waiting_since(o.time)),
                )
            },
            Action::Pause | Action::Unpause => {
                &&& same_progress(o, n)
                &&& same_room(o, n)
                &&& n.message == if a is Pause {
                    Some(PAUSED_MESSAGE)
                } else {
                    None
                }
                &&& n.frozen == o.frozen
                &&& n.player == o.player
            },
        }
    }
}

/// Carries out an action. Nothing happens once the game is over. A level transition below the
/// first level restarts the game, one past the last level ends it, and any other only takes place
/// when the spinies are aligned with the grid: until then, the player waits at the door.
fn execute_action(state: &mut State, action: Action)
    requires
        old(state).wf(),
    ensures
        executed(*old(state), *final(state), action),
        final(state).wf(),
{
    // The end message cannot be dismissed: the player quits from there.
    if state.frozen {
        return ;
    }
    match action {
        Action::Move(pos, dir) => {
            state.player.buffered_dir = None;
            state.player.pos = AnimatedPos::MovingSince(pos, dir, state.time);
        },
        Action::ReadSign(message) => {
            state.message = Some(message);
        },
        Action::Die(f_pos) => {
            let corpse = Corpse { f_pos: f_pos, t0: state.time };
            state.corpses.push_back(corpse);

            state.player.pos = AnimatedPos::MovingInUntil(
                state.previous_level,
                state.level_number,
                state.time,
            );
        },
        Action::PreviousLevel => {
            let next_level = state.level_number - 1;

            state.next_level = Some(next_level);
            state.player.pos = AnimatedPos::MovingOutSince(
                state.level_number,
                next_level,
                state.time,
            );
        },
        Action::NextLevel => {
            let next_level = state.level_number + 1;

            state.next_level = Some(next_level);
            state.player.pos = AnimatedPos::MovingOutSince(
                state.level_number,
                next_level,
                state.time,
            );
        },
        Action::TransitionLevel(level_src, level_dst) => {
            if level_dst < min_level() {
                *state = initial_state();
            } else if level_dst > max_level() {
                state.message = Some(THE_END_MESSAGE);
                state.frozen = true;
            } else if state.time == state.spinies_moving_since {
                state.player.pos = AnimatedPos::MovingInUntil(level_src, level_dst, state.time);

                state.previous_level = level_src;
                state.level_number = level_dst;
                state.next_level = None;

                // Move the old lists out of the state, so that their entities can move into the
                // new ones.
                let mut spinies: Vec<MovingSpiny> = Vec::new();
                std::mem::swap(&mut spinies, &mut state.spinies);
                state.spinies = adjust_spinies(spinies, level_src, level_dst);

                let mut walls: Vec<TemporaryWall> = Vec::new();
                std::mem::swap(&mut walls, &mut state.temporary_walls);
                state.temporary_walls = adjust_walls(walls, level_src, level_dst);
            } else {
                // Wait at the door until the spinies are aligned with the grid.
                let since = if state.time >= PLAYER_MOVE_DURATION {
                    state.time - PLAYER_MOVE_DURATION
                } else {
                    0
                };
                state.player.pos = AnimatedPos::MovingOutSince(level_src, level_dst, since);
            }
        },
        Action::Pause => {
            state.message = Some(PAUSED_MESSAGE);
        },
        Action::Unpause => {
            state.message = None;
        },
    }
}

/// Handles one event from the host, and carries out the action it calls for.
pub fn update(state: &mut State, raw_input_event: RawInputEvent)
    requires
        old(state).wf(),
        old(state).message is None ==> (raw_input_event matches RawInputEvent::TimePasses(dt)
            ==> old(state).time + dt <= MAX_TIME),
    ensures
        final(state).wf(),
        exists|mid: State, action: Option<Action>|
            #[trigger] handled(*old(state), mid, raw_input_event, action) && match action {
                Some(a) => executed(mid, *final(state), a),
                None => unchanged(mid, *final(state)),
            },
        // While a message is shown, time stands still and nothing moves; releasing a direction
        // key dismisses the message, unless the game is over.
        old(state).message is Some && !old(state).frozen ==> {
            &&& final(state).time == old(state).time
            &&& final(state).spinies_moving_since == old(state).spinies_moving_since
            &&& final(state).spinies@ == old(state).spinies@
            &&& final(state).corpses@ == old(state).corpses@
            &&& final(state).player.pos == old(state).player.pos
            &&& final(state).temporary_walls@ == old(state).temporary_walls@
            &&& final(state).level_number == old(state).level_number
            &&& (raw_input_event is TimePasses ==> final(state).message == old(state).message)
            &&& (released_dir(raw_input_event) is Some ==> final(state).message is None)
        },
{
    let ghost before = *state;
    let action = handle_raw_input_event(state, raw_input_event);
    let ghost mid = *state;
    if let Some(a) = action {
        execute_action(state, a);
    }
    assert(handled(before, mid, raw_input_event, action));
}

/// Level-boundary reset: a transition to the level before the first one brings the whole state
/// back to the start of the game, whatever it was.
pub proof fn lemma_transition_below_first_level_resets(o: State, n: State, level_src: LevelNumber)
    requires
        !o.frozen,
        executed(o, n, Action::TransitionLevel(level_src, (MIN_LEVEL - 1) as LevelNumber)),
    ensures
        is_initial(&n),
{
}

} // verus!
