use std::collections::VecDeque;

use vstd::prelude::*;

use crate::corpse::Corpse;
use crate::levels::{
    adjust_spinies, adjust_walls, adjusted, adjusted_spinies, MAX_LEVEL, MIN_LEVEL,
};
use crate::player::Player;
use crate::types::{
    AnimatedPos, LevelNumber, Message, Millis, MovingSpiny, TemporaryWall, MAX_TIME,
    PLAYER_MOVE_DURATION, SPINY_MOVE_DURATION,
};

verus! {

pub const TITLE_MESSAGE: Message = ".............................................\n\
                   .                                           .\n\
                   .            I've Seen This Room            .\n\
                   .               Twice Already               .\n\
                   .                                           .\n\
                   .                                           .\n\
                   .                                           .\n\
                   .                                           .\n\
                   .    made in 72 hours by Samuel Gélineau    .\n\
                   .             for Ludum Dare 37             .\n\
                   .                                           .\n\
                   .              theme: One Room              .\n\
                   .                                           .\n\
                   .                                           .\n\
                   .           press any key to begin          .\n\
                   .                                           .\n\
                   .............................................";

pub const PAUSED_MESSAGE: Message = ".............................................\n\
                            .                                           .\n\
                            .                                           .\n\
                            .                                           .\n\
                            .                                           .\n\
                            .                                           .\n\
                            .                                           .\n\
                            .                ** PAUSED **               .\n\
                            .                                           .\n\
                            .                                           .\n\
                            .                                           .\n\
                            .                                           .\n\
                            .                                           .\n\
                            .                                           .\n\
                            .         press any key to continue         .\n\
                            .                                           .\n\
                            .............................................";

pub const THE_END_MESSAGE: Message = ".............................................\n\
                              .                                           .\n\
                              .                                           .\n\
                              .                                           .\n\
                              .                  THE END                  .\n\
                              .                                           .\n\
                              .           Thank you for playing           .\n\
                              .    \"I've Seen This Room Twice Already\"!   .\n\
                              .                                           .\n\
                              .     If you have enjoyed it, consider      .\n\
                              .     playing the Ludum Dare 31 prequel,    .\n\
                              .     \"I've Seen This Room Before\" :)       .\n\
                              .                                           .\n\
                              .                                           .\n\
                              .             press esc to quit             .\n\
                              .                                           .\n\
                              .............................................";

/// Everything the game tracks.
#[derive(Clone, Debug, PartialEq, Eq)]
pub struct State {
    pub time: Millis,
    /// While a message is shown, the game is paused.
    pub message: Option<Message>,
    /// Set at the end of the game: the final message stays.
    pub frozen: bool,
    pub level_number: LevelNumber,
    pub previous_level: LevelNumber,
    pub next_level: Option<LevelNumber>,
    pub player: Player,
    pub corpses: VecDeque<Corpse>,
    /// The time at which all the spinies were last aligned with the grid.
    pub spinies_moving_since: Millis,
    pub spinies: Vec<MovingSpiny>,
    pub temporary_walls: Vec<TemporaryWall>,
}

/// Time stamps of the player's animation that the game can hold at time `time`.
pub open spec fn player_time_ok(pos: AnimatedPos, time: Millis) -> bool {
    match pos {
        AnimatedPos::Idle(_) => true,
        AnimatedPos::MovingSince(_, _, t0) => t0 <= time,
        AnimatedPos::MovingOutSince(_, _, t0) => t0 <= time,
        AnimatedPos::MovingInUntil(_, _, t_dst) => t_dst <= time + PLAYER_MOVE_DURATION,
    }
}

impl State {
    /// Time stays within bounds and never runs behind the time stamps it holds; all the spinies
    /// move in lockstep from one anchor, less than a step behind the current time; and the current
    /// level is one of the game's.
    pub open spec fn wf(&self) -> bool {
        &&& self.time <= MAX_TIME
        &&& self.spinies_moving_since <= self.time
        &&& self.time - self.spinies_moving_since < SPINY_MOVE_DURATION
        &&& player_time_ok(self.player.pos, self.time)
        &&& MIN_LEVEL <= self.level_number <= MAX_LEVEL
    }
}

pub open spec fn initial_player() -> Player {
    Player {
        up_pressed: false,
        left_pressed: false,
        down_pressed: false,
        right_pressed: false,
        most_recent_dir: None,
        buffered_dir: None,
        pos: AnimatedPos::MovingInUntil(0, 1, PLAYER_MOVE_DURATION),
    }
}

/// The state at the start of the game: the title is shown, and the player walks into the first
/// level.
pub open spec fn is_initial(s: &State) -> bool {
    &&& s.time == 0
    &&& s.message == Some(TITLE_MESSAGE)
    &&& !s.frozen
    &&& s.level_number == MIN_LEVEL
    &&& s.previous_level == MIN_LEVEL - 1
    &&& s.next_level is None
    &&& s.player == initial_player()
    &&& s.corpses@ == Seq::<Corpse>::empty()
    &&& s.spinies_moving_since == 0
    &&& s.spinies@ == adjusted_spinies(Seq::empty(), 0, 1)
    &&& s.temporary_walls@ == adjusted(Seq::<TemporaryWall>::empty(), 0, 1)
}

pub fn initial_state() -> (r: State)
    ensures
        is_initial(&r),
        r.wf(),
{
    let t: Millis = 0;
    let level_number: LevelNumber = 1;
    let previous_level: LevelNumber = level_number - 1;

    State {
        time: t,
        message: Some(TITLE_MESSAGE),
        frozen: false,
        level_number: level_number,
        previous_level: previous_level,
        next_level: None,
        player: Player {
            up_pressed: false,
            left_pressed: false,
            down_pressed: false,
            right_pressed: false,
            most_recent_dir: None,
            buffered_dir: None,
            pos: AnimatedPos::MovingInUntil(
                previous_level,
                level_number,
                t + PLAYER_MOVE_DURATION,
            ),
        },
        corpses: VecDeque::new(),
        spinies_moving_since: t,
        spinies: adjust_spinies(Vec::new(), previous_level, level_number),
        temporary_walls: adjust_walls(Vec::new(), previous_level, level_number),
    }
}

} // verus!
