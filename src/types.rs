use vstd::prelude::*;

verus! {

/// Text shown on screen while the game is paused.
pub type Message = &'static str;

pub type LevelNumber = u8;

/// Simulation time, in milliseconds.
pub type Millis = u64;

/// Time after which the simulation refuses to advance.
pub const MAX_TIME: u64 = 1_000_000_000_000;

/// Time the player takes to cross one cell.
pub const PLAYER_MOVE_DURATION: u64 = 125;

/// Time a spiny takes to cross one cell.
pub const SPINY_MOVE_DURATION: u64 = 250;

pub const SPINY_HALF_MOVE_DURATION: u64 = 125;

/// Time a corpse stays on screen.
pub const CORPSE_FADE_OUT_DURATION: u64 = 1000;

/// Sub-cell units per cell, for animated positions.
pub const CELL_UNITS: i64 = 1000;

/// Player speed, in sub-cell units per millisecond.
pub const PLAYER_SPEED: i64 = 8;

/// Spiny speed, in sub-cell units per millisecond.
pub const SPINY_SPEED: i64 = 4;

/// Inward margin of the hit box on each side, in sub-cell units.
pub const HIT_MARGIN: i64 = 100;

/// One of the four unit steps on the grid.
#[derive(Clone, Copy, Debug, PartialEq, Eq, Structural)]
pub enum Dir {
    Up,
    Left,
    Down,
    Right,
}

/// A grid cell; x grows to the right and y grows downwards.
#[derive(Clone, Copy, Debug, PartialEq, Eq, Structural)]
pub struct Pos {
    pub x: i8,
    pub y: i8,
}

/// A position in sub-cell units, used for animation and hit boxes.
#[derive(Clone, Copy, Debug, PartialEq, Eq, Structural)]
pub struct FPos {
    pub x: i64,
    pub y: i64,
}

pub open spec fn dx_of(d: Dir) -> i8 {
    match d {
        Dir::Left => -1i8,
        Dir::Right => 1i8,
        _ => 0i8,
    }
}

pub open spec fn dy_of(d: Dir) -> i8 {
    match d {
        Dir::Up => -1i8,
        Dir::Down => 1i8,
        _ => 0i8,
    }
}

pub open spec fn opposite_of(d: Dir) -> Dir {
    match d {
        Dir::Up => Dir::Down,
        Dir::Left => Dir::Right,
        Dir::Down => Dir::Up,
        Dir::Right => Dir::Left,
    }
}

/// The neighbour of `p` in direction `d` (coordinates wrap around the `i8` range).
pub open spec fn step(p: Pos, d: Dir) -> Pos {
    Pos { x: p.x.wrapping_add(dx_of(d)), y: p.y.wrapping_add(dy_of(d)) }
}

impl Dir {
    pub fn dx(&self) -> (r: i8)
        ensures
            r == dx_of(*self),
    {
        match self {
            Dir::Left => -1,
            Dir::Right => 1,
            _ => 0,
        }
    }

    pub fn dy(&self) -> (r: i8)
        ensures
            r == dy_of(*self),
    {
        match self {
            Dir::Up => -1,
            Dir::Down => 1,
            _ => 0,
        }
    }

    pub fn opposite(&self) -> (r: Dir)
        ensures
            r == opposite_of(*self),
    {
        match self {
            Dir::Up => Dir::Down,
            Dir::Left => Dir::Right,
            Dir::Down => Dir::Up,
            Dir::Right => Dir::Left,
        }
    }
}

impl Pos {
    /// The neighbour of this cell in direction `d`.
    pub fn add(self, d: Dir) -> (r: Pos)
        ensures
            r == step(self, d),
    {
        Pos { x: self.x.wrapping_add(d.dx()), y: self.y.wrapping_add(d.dy()) }
    }
}

/// Velocity of something moving in direction `d` at `speed` sub-cell units per millisecond.
pub fn compute_f_speed(d: Dir, speed: i64) -> (r: FPos)
    requires
        speed != i64::MIN,
    ensures
        r.x == dx_of(d) * speed,
        r.y == dy_of(d) * speed,
{
    FPos { x: d.dx() as i64 * speed, y: d.dy() as i64 * speed }
}

/// The animated position `pos + velocity * (t - t0)`, in sub-cell units.
pub fn linear_motion(pos: Pos, velocity: FPos, t0: Millis, t: Millis) -> (r: FPos)
    requires
        t0 <= MAX_TIME + PLAYER_MOVE_DURATION,
        t <= MAX_TIME,
        -CELL_UNITS <= velocity.x <= CELL_UNITS,
        -CELL_UNITS <= velocity.y <= CELL_UNITS,
    ensures
        r.x == pos.x * CELL_UNITS + velocity.x * (t - t0),
        r.y == pos.y * CELL_UNITS + velocity.y * (t - t0),
{
    let dt: i64 = t as i64 - t0 as i64;
    assert(-2_000_000_000_000_000 <= velocity.x * dt <= 2_000_000_000_000_000) by (nonlinear_arith)
        requires
            -CELL_UNITS <= velocity.x <= CELL_UNITS,
            -1_000_000_000_200 <= dt <= 1_000_000_000_000,
    ;
    assert(-2_000_000_000_000_000 <= velocity.y * dt <= 2_000_000_000_000_000) by (nonlinear_arith)
        requires
            -CELL_UNITS <= velocity.y <= CELL_UNITS,
            -1_000_000_000_200 <= dt <= 1_000_000_000_000,
    ;
    FPos {
        x: pos.x as i64 * CELL_UNITS + velocity.x * dt,
        y: pos.y as i64 * CELL_UNITS + velocity.y * dt,
    }
}

/// The levels during which an entity exists, both ends included.
#[derive(Clone, Copy, Debug, PartialEq, Eq, Structural)]
pub struct Lifetime {
    pub level_min: LevelNumber,
    pub level_max: LevelNumber,
}

pub open spec fn alive_at(lifetime: Lifetime, level_number: LevelNumber) -> bool {
    lifetime.level_min <= level_number <= lifetime.level_max
}

/// Whether an entity with this lifetime exists at `level_number`.
pub fn still_alive(lifetime: &Lifetime, level_number: LevelNumber) -> (r: bool)
    ensures
        r == alive_at(*lifetime, level_number),
{
    lifetime.level_min <= level_number && level_number <= lifetime.level_max
}

/// An enemy which walks in a straight line and bounces off obstacles.
#[derive(Clone, Copy, Debug, PartialEq, Eq, Structural)]
pub struct MovingSpiny {
    pub pos: Pos,
    pub dir: Dir,
    pub lifetime: Lifetime,
    pub enabled: bool,
}

/// A wall which only exists during part of the game.
#[derive(Clone, Copy, Debug, PartialEq, Eq, Structural)]
pub struct TemporaryWall {
    pub pos: Pos,
    pub lifetime: Lifetime,
}

/// Where the player is, and how it is moving.
#[derive(Clone, Copy, Debug, PartialEq, Eq, Structural)]
pub enum AnimatedPos {
    Idle(Pos),
    MovingSince(Pos, Dir, Millis),
    MovingOutSince(LevelNumber, LevelNumber, Millis),
    MovingInUntil(LevelNumber, LevelNumber, Millis),
}

/// An event handed over by the host's event loop.
#[derive(Clone, Copy, Debug, PartialEq, Eq, Structural)]
pub enum RawInputEvent {
    TimePasses(Millis),
    PressUp,
    ReleaseUp,
    PressLeft,
    ReleaseLeft,
    PressDown,
    ReleaseDown,
    PressRight,
    ReleaseRight,
    PressPause,
    PressAnyKey,
}

/// What the game decides to do in response to an event.
#[derive(Clone, Copy, Debug, PartialEq, Eq)]
pub enum Action {
    Move(Pos, Dir),
    ReadSign(Message),
    Die(FPos),
    PreviousLevel,
    NextLevel,
    TransitionLevel(LevelNumber, LevelNumber),
    Pause,
    Unpause,
}

} // verus!
