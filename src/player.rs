use vstd::prelude::*;

use crate::levels::{
    cell_at, cell_of, left_door, left_door_pos, message_at, message_of, right_door, right_door_pos,
    Cell,
};
use crate::types::{
    dx_of, dy_of, linear_motion, step, Action, AnimatedPos, Dir, FPos, LevelNumber, Millis, Pos,
    CELL_UNITS, MAX_TIME, PLAYER_MOVE_DURATION, PLAYER_SPEED,
};

verus! {

/// The player's position and the state of the direction keys.
#[derive(Clone, Copy, Debug, PartialEq, Eq, Structural)]
pub struct Player {
    pub up_pressed: bool,
    pub left_pressed: bool,
    pub down_pressed: bool,
    pub right_pressed: bool,
    /// Favoured when several keys are held.
    pub most_recent_dir: Option<Dir>,
    /// A key tap which has not been honoured yet.
    pub buffered_dir: Option<Dir>,
    pub pos: AnimatedPos,
}

pub open spec fn is_pressed(player: Player, dir: Dir) -> bool {
    match dir {
        Dir::Up => player.up_pressed,
        Dir::Left => player.left_pressed,
        Dir::Down => player.down_pressed,
        Dir::Right => player.right_pressed,
    }
}

/// The time stamp that an animated position carries, if any.
pub open spec fn time_stamp(pos: AnimatedPos) -> Millis {
    match pos {
        AnimatedPos::Idle(_) => 0,
        AnimatedPos::MovingSince(_, _, t0) => t0,
        AnimatedPos::MovingOutSince(_, _, t0) => t0,
        AnimatedPos::MovingInUntil(_, _, t_dst) => t_dst,
    }
}

/// Where the animation of `pos` starts, its velocity in sub-cell units per millisecond, and the
/// time at which it is at its start.
pub open spec fn motion_of(pos: AnimatedPos, t: Millis) -> (Pos, int, int, Millis) {
    match pos {
        AnimatedPos::Idle(p) => (p, 0, 0, t),
        AnimatedPos::MovingSince(p, dir, t0) => (
            p,
            dx_of(dir) * PLAYER_SPEED,
            dy_of(dir) * PLAYER_SPEED,
            t0,
        ),
        AnimatedPos::MovingOutSince(level_src, level_dst, t0) => if level_dst < level_src {
            (left_door(), -PLAYER_SPEED, PLAYER_SPEED / 2, t0)
        } else {
            (right_door(), PLAYER_SPEED as int, -PLAYER_SPEED / 2, t0)
        },
        AnimatedPos::MovingInUntil(level_src, level_dst, t_dst) => if level_dst < level_src {
            (right_door(), -PLAYER_SPEED, PLAYER_SPEED / 2, t_dst)
        } else {
            (left_door(), PLAYER_SPEED as int, -PLAYER_SPEED / 2, t_dst)
        },
    }
}

/// The player's animated position at time `t`, in sub-cell units.
pub open spec fn player_f_pos(pos: AnimatedPos, t: Millis) -> FPos {
    let (p, vx, vy, t0) = motion_of(pos, t);
    FPos {
        x: (p.x * CELL_UNITS + vx * (t - t0)) as i64,
        y: (p.y * CELL_UNITS + vy * (t - t0)) as i64,
    }
}

/// The player's position in sub-cell units, taking the movement into account, so that it can be
/// in between two cells. Going through a door, the player also slides sideways.
pub fn compute_player_f_pos(player: &AnimatedPos, t: Millis) -> (r: FPos)
    requires
        t <= MAX_TIME,
        time_stamp(*player) <= MAX_TIME + PLAYER_MOVE_DURATION,
    ensures
        r == player_f_pos(*player, t),
{
    let (pos, f_speed, t0) = match *player {
        AnimatedPos::Idle(pos) => (pos, FPos { x: 0, y: 0 }, t),
        AnimatedPos::MovingSince(pos, dir, t0) => (
            pos,
            FPos { x: dir.dx() as i64 * PLAYER_SPEED, y: dir.dy() as i64 * PLAYER_SPEED },
            t0,
        ),
        AnimatedPos::MovingOutSince(level_src, level_dst, t0) => {
            if level_dst < level_src {
                (left_door_pos(), FPos { x: -PLAYER_SPEED, y: PLAYER_SPEED / 2 }, t0)
            } else {
                (right_door_pos(), FPos { x: PLAYER_SPEED, y: -PLAYER_SPEED / 2 }, t0)
            }
        },
        AnimatedPos::MovingInUntil(level_src, level_dst, t_dst) => {
            if level_dst < level_src {
                (right_door_pos(), FPos { x: -PLAYER_SPEED, y: PLAYER_SPEED / 2 }, t_dst)
            } else {
                (left_door_pos(), FPos { x: PLAYER_SPEED, y: -PLAYER_SPEED / 2 }, t_dst)
            }
        },
    };

    linear_motion(pos, f_speed, t0, t)
}

/// What trying to step from `pos` in direction `dir` leads to, by the cell ahead: leaving the
/// level through the door on that side, reading a sign, nothing at a wall, or else a move.
pub open spec fn move_action(level_number: LevelNumber, pos: Pos, dir: Dir) -> Option<Action> {
    match cell_of(level_number, step(pos, dir)) {
        Cell::LeftDoorC if dir == Dir::Left => Some(Action::PreviousLevel),
        Cell::RightDoorC if dir == Dir::Right => Some(Action::NextLevel),
        Cell::SignC(i) => Some(Action::ReadSign(message_of(level_number, i))),
        Cell::WallC => None,
        _ => Some(Action::Move(pos, dir)),
    }
}

/// What pressing `dir` leads to: only an idle player can start a move.
pub open spec fn initiated(player: Player, level_number: LevelNumber, dir: Dir) -> Option<Action> {
    match player.pos {
        AnimatedPos::Idle(pos) => move_action(level_number, pos, dir),
        _ => None,
    }
}

fn try_move_action(level_number: LevelNumber, pos: Pos, dir: Dir) -> (r: Option<Action>)
    ensures
        r == move_action(level_number, pos, dir),
{
    match cell_at(level_number, pos.add(dir)) {
        Cell::LeftDoorC => {
            if dir == Dir::Left {
                Some(Action::PreviousLevel)
            } else {
                Some(Action::Move(pos, dir))
            }
        },
        Cell::RightDoorC => {
            if dir == Dir::Right {
                Some(Action::NextLevel)
            } else {
                Some(Action::Move(pos, dir))
            }
        },
        Cell::SignC(i) => Some(Action::ReadSign(message_at(level_number, i))),
        Cell::WallC => None,
        _ => Some(Action::Move(pos, dir)),
    }
}

pub fn initiate_move(player: &mut Player, level_number: LevelNumber, dir: Dir) -> (r: Option<
    Action,
>)
    ensures
        *final(player) == *old(player),
        r == initiated(*old(player), level_number, dir),
{
    match player.pos {
        AnimatedPos::Idle(pos) => try_move_action(level_number, pos, dir),
        _ => None,
    }
}

/// Records a press of the key for `dir`. A press of a key that is already held is the keyboard's
/// auto-repeat: it is not buffered as a tap.
pub fn press_direction(
    is_pressed: &mut bool,
    buffered_dir: &mut Option<Dir>,
    most_recent_dir: &mut Option<Dir>,
    dir: Dir,
)
    ensures
        *final(is_pressed),
        *final(buffered_dir) == if *old(is_pressed) {
            *old(buffered_dir)
        } else {
            Some(dir)
        },
        *final(most_recent_dir) == Some(dir),
{
    if !*is_pressed {
        *buffered_dir = Some(dir);
    }
    *is_pressed = true;
    *most_recent_dir = Some(dir);
}

pub fn release_direction(is_pressed: &mut bool)
    ensures
        !*final(is_pressed),
{
    *is_pressed = false;
}

/// The move to make on becoming idle, tried in this order until one is not blocked: the
/// buffered tap; the held key of the most recent direction; any held key, in the order up, left,
/// down, right.
pub open spec fn continuation(player: Player, level_number: LevelNumber) -> Option<Action> {
    let buffered = match player.buffered_dir {
        Some(d) => initiated(player, level_number, d),
        None => None,
    };
    let recent = match player.most_recent_dir {
        Some(d) => if is_pressed(player, d) {
            initiated(player, level_number, d)
        } else {
            None
        },
        None => None,
    };
    if buffered is Some {
        buffered
    } else if recent is Some {
        recent
    } else if player.up_pressed && initiated(player, level_number, Dir::Up) is Some {
        initiated(player, level_number, Dir::Up)
    } else if player.left_pressed && initiated(player, level_number, Dir::Left) is Some {
        initiated(player, level_number, Dir::Left)
    } else if player.down_pressed && initiated(player, level_number, Dir::Down) is Some {
        initiated(player, level_number, Dir::Down)
    } else if player.right_pressed {
        initiated(player, level_number, Dir::Right)
    } else {
        None
    }
}

fn continue_moving(player: &mut Player, level_number: LevelNumber) -> (r: Option<Action>)
    ensures
        *final(player) == *old(player),
        r == continuation(*old(player), level_number),
{
    // If the user holds right and taps down, go down one cell and then keep going right.
    if let Some(dir) = player.buffered_dir {
        let action = initiate_move(player, level_number, dir);
        if action.is_some() {
            return action;
        }
    }

    // If the user holds several keys, favour the most recent one.
    if let Some(dir) = player.most_recent_dir {
        let held = match dir {
            Dir::Up => player.up_pressed,
            Dir::Left => player.left_pressed,
            Dir::Down => player.down_pressed,
            Dir::Right => player.right_pressed,
        };
        if held {
            let action = initiate_move(player, level_number, dir);
            if action.is_some() {
                return action;
            }
        }
    }

    // Otherwise keep moving in one of the held directions.
    if player.up_pressed {
        let action = initiate_move(player, level_number, Dir::Up);
        if action.is_some() {
            return action;
        }
    }
    if player.left_pressed {
        let action = initiate_move(player, level_number, Dir::Left);
        if action.is_some() {
            return action;
        }
    }
    if player.down_pressed {
        let action = initiate_move(player, level_number, Dir::Down);
        if action.is_some() {
            return action;
        }
    }
    if player.right_pressed {
        return initiate_move(player, level_number, Dir::Right);
    }
    None
}

/// The player after a tick at time `t`, and the action that the tick produces.
pub open spec fn player_tick(player: Player, level_number: LevelNumber, t: Millis) -> (
    Player,
    Option<Action>,
) {
    match player.pos {
        AnimatedPos::MovingSince(pos, dir, t0) => if t >= t0 + PLAYER_MOVE_DURATION {
            let idle = Player { pos: AnimatedPos::Idle(step(pos, dir)), ..player };
            (idle, continuation(idle, level_number))
        } else {
            (player, None)
        },
        AnimatedPos::MovingOutSince(level_src, level_dst, t0) => if t >= t0
            + PLAYER_MOVE_DURATION {
            (
                Player {
                    pos: AnimatedPos::MovingInUntil(
                        level_src,
                        level_dst,
                        (t + PLAYER_MOVE_DURATION) as Millis,
                    ),
                    ..player
                },
                Some(Action::TransitionLevel(level_src, level_dst)),
            )
        } else {
            (player, None)
        },
        AnimatedPos::MovingInUntil(level_src, level_dst, t_dst) => if t >= t_dst {
            let door = if level_dst < level_src {
                right_door()
            } else {
                left_door()
            };
            let idle = Player { pos: AnimatedPos::Idle(door), ..player };
            (idle, continuation(idle, level_number))
        } else {
            (player, None)
        },
        AnimatedPos::Idle(_) => (player, None),
    }
}

/// Advances the player to time `t`: a move ends once its duration has elapsed, and the player
/// then goes on as the keys say; leaving through a door produces the level transition.
pub fn update_player(player: &mut Player, level_number: LevelNumber, t: Millis) -> (r: Option<
    Action,
>)
    requires
        t <= MAX_TIME,
    ensures
        (*final(player), r) == player_tick(*old(player), level_number, t),
{
    match player.pos {
        AnimatedPos::MovingSince(pos, dir, t0) => {
            if t >= t0 && t - t0 >= PLAYER_MOVE_DURATION {
                player.pos = AnimatedPos::Idle(pos.add(dir));

                continue_moving(player, level_number)
            } else {
                None
            }
        },
        AnimatedPos::MovingOutSince(level_src, level_dst, t0) => {
            if t >= t0 && t - t0 >= PLAYER_MOVE_DURATION {
                let t_dst = t + PLAYER_MOVE_DURATION;
                player.pos = AnimatedPos::MovingInUntil(level_src, level_dst, t_dst);

                Some(Action::TransitionLevel(level_src, level_dst))
            } else {
                None
            }
        },
        AnimatedPos::MovingInUntil(level_src, level_dst, t_dst) => {
            if t >= t_dst {
                let door_dst = if level_dst < level_src {
                    right_door_pos()
                } else {
                    left_door_pos()
                };
                player.pos = AnimatedPos::Idle(door_dst);

                continue_moving(player, level_number)
            } else {
                None
            }
        },
        AnimatedPos::Idle(_) => None,
    }
}

} // verus!
