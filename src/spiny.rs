use vstd::prelude::*;

use crate::levels::{cell_at, cell_of, disable_overlapping, with_occupancy, Cell};
use crate::types::{
    compute_f_speed, dx_of, dy_of, linear_motion, opposite_of, step, Dir, FPos, LevelNumber,
    Millis, MovingSpiny, Pos, CELL_UNITS, MAX_TIME, SPINY_HALF_MOVE_DURATION, SPINY_MOVE_DURATION,
    SPINY_SPEED,
};

verus! {

// Spinies move in unison: they are cell-aligned on the same frame, and each is the same fraction
// of the way to its next cell as every other one. Collisions can thus be decided from the source
// cell and the direction of each spiny, read from one snapshot of the swarm.

/// The direction of the last enabled spiny of `s` whose source cell is `p`.
pub open spec fn source_dir(s: Seq<MovingSpiny>, p: Pos) -> Option<Dir>
    decreases s.len(),
{
    if s.len() == 0 {
        None
    } else if s.last().enabled && s.last().pos == p {
        Some(s.last().dir)
    } else {
        source_dir(s.drop_last(), p)
    }
}

/// The number of enabled spinies of `s` heading into cell `p`.
pub open spec fn dest_count(s: Seq<MovingSpiny>, p: Pos) -> nat
    decreases s.len(),
{
    if s.len() == 0 {
        0
    } else {
        dest_count(s.drop_last(), p) + if s.last().enabled && step(s.last().pos, s.last().dir)
            == p {
            1nat
        } else {
            0nat
        }
    }
}

/// Cells that a spiny bounces off.
pub open spec fn is_obstacle(c: Cell) -> bool {
    match c {
        Cell::LeftDoorC | Cell::RightDoorC | Cell::SignC(_) | Cell::WallC => true,
        _ => false,
    }
}

/// Whether the spiny leaving `src` in direction `dir`, `dt` milliseconds into the swarm's step,
/// bounces. The first rule that applies decides:
/// - past the middle of the step, the cell ahead is an obstacle;
/// - the cell ahead is the source of a spiny going the opposite way;
/// - past the middle of the step, several spinies head into the cell ahead;
/// - the cell ahead is the source of a spiny going the same way, and that one bounces.
/// The chain of spinies ahead is followed for at most `fuel` links.
pub open spec fn bounces(
    s: Seq<MovingSpiny>,
    level_number: LevelNumber,
    dt: int,
    src: Pos,
    dir: Dir,
    fuel: nat,
) -> bool
    decreases fuel,
{
    let dst = step(src, dir);
    if dt > SPINY_HALF_MOVE_DURATION && is_obstacle(cell_of(level_number, dst)) {
        true
    } else if source_dir(s, dst) == Some(opposite_of(dir)) {
        true
    } else if dt > SPINY_HALF_MOVE_DURATION && dest_count(s, dst) > 1 {
        true
    } else if source_dir(s, dst) == Some(dir) && fuel > 0 {
        bounces(s, level_number, dt, dst, dir, (fuel - 1) as nat)
    } else {
        false
    }
}

/// The spiny after bouncing: before the middle of the step it stays on its cell, after it, it
/// completes the step; either way it turns around.
pub open spec fn bounced(spiny: MovingSpiny, dt: int) -> MovingSpiny {
    MovingSpiny {
        pos: if dt <= SPINY_HALF_MOVE_DURATION {
            spiny.pos
        } else {
            step(spiny.pos, spiny.dir)
        },
        dir: opposite_of(spiny.dir),
        lifetime: spiny.lifetime,
        enabled: spiny.enabled,
    }
}

/// Whether spiny `i` of the snapshot `s` bounces.
pub open spec fn bounces_at(s: Seq<MovingSpiny>, level_number: LevelNumber, dt: int, i: int) -> bool {
    s[i].enabled && bounces(s, level_number, dt, s[i].pos, s[i].dir, s.len())
}

/// The swarm once every spiny that bounces, according to the snapshot `s`, has bounced.
pub open spec fn resolved(s: Seq<MovingSpiny>, level_number: LevelNumber, dt: int) -> Seq<
    MovingSpiny,
> {
    Seq::new(
        s.len(),
        |i: int|
            if bounces_at(s, level_number, dt, i) {
                bounced(s[i], dt)
            } else {
                s[i]
            },
    )
}

/// Every enabled spiny one cell further in its direction.
pub open spec fn advanced(s: Seq<MovingSpiny>) -> Seq<MovingSpiny> {
    Seq::new(
        s.len(),
        |i: int|
            if s[i].enabled {
                MovingSpiny {
                    pos: step(s[i].pos, s[i].dir),
                    dir: s[i].dir,
                    lifetime: s[i].lifetime,
                    enabled: true,
                }
            } else {
                s[i]
            },
    )
}

/// Whether the swarm, anchored at `t0`, completes a step at time `t`.
pub open spec fn step_due(t0: Millis, t: Millis) -> bool {
    t - t0 >= SPINY_MOVE_DURATION
}

/// The swarm's anchor after an update at time `t`.
pub open spec fn next_anchor(t0: Millis, t: Millis) -> Millis {
    if step_due(t0, t) {
        t
    } else {
        t0
    }
}

/// The swarm after an update at time `t`, before bounces are resolved.
pub open spec fn stepped(s: Seq<MovingSpiny>, t0: Millis, t: Millis) -> Seq<MovingSpiny> {
    if step_due(t0, t) {
        with_occupancy(advanced(s))
    } else {
        s
    }
}

/// The swarm after an update at time `t`.
pub open spec fn updated_spinies(
    s: Seq<MovingSpiny>,
    level_number: LevelNumber,
    t0: Millis,
    t: Millis,
) -> Seq<MovingSpiny> {
    resolved(stepped(s, t0, t), level_number, t - next_anchor(t0, t))
}

fn source_dir_at(spinies: &Vec<MovingSpiny>, p: Pos) -> (r: Option<Dir>)
    ensures
        r == source_dir(spinies@, p),
{
    let mut i: usize = spinies.len();
    assert(spinies@.take(i as int) =~= spinies@);
    while i > 0
        invariant
            i <= spinies.len(),
            source_dir(spinies@, p) == source_dir(spinies@.take(i as int), p),
        decreases i,
    {
        proof {
            let s = spinies@.take(i as int);
            assert(s.drop_last() =~= spinies@.take(i - 1));
            assert(s.last() == spinies@[i - 1]);
        }
        if spinies[i - 1].enabled && spinies[i - 1].pos == p {
            return Some(spinies[i - 1].dir);
        }
        i -= 1;
    }
    None
}

fn dest_count_at(spinies: &Vec<MovingSpiny>, p: Pos) -> (r: usize)
    ensures
        r == dest_count(spinies@, p),
{
    let mut count: usize = 0;
    let mut i: usize = 0;
    while i < spinies.len()
        invariant
            i <= spinies.len(),
            count == dest_count(spinies@.take(i as int), p),
            count <= i,
        decreases spinies.len() - i,
    {
        proof {
            let s = spinies@.take(i + 1);
            assert(s.drop_last() =~= spinies@.take(i as int));
            assert(s.last() == spinies@[i as int]);
        }
        let spiny = spinies[i];
        if spiny.enabled && spiny.pos.add(spiny.dir) == p {
            count += 1;
        }
        i += 1;
    }
    assert(spinies@.take(i as int) =~= spinies@);
    count
}

fn is_obstacle_cell(c: Cell) -> (r: bool)
    ensures
        r == is_obstacle(c),
{
    match c {
        Cell::LeftDoorC | Cell::RightDoorC | Cell::SignC(_) | Cell::WallC => true,
        _ => false,
    }
}

/// Whether the spiny leaving `src` in direction `dir` bounces, reading the other spinies from the
/// snapshot `spinies` anchored at `t0`.
pub fn should_bounce(
    src: Pos,
    dir: Dir,
    spinies: &Vec<MovingSpiny>,
    level_number: LevelNumber,
    t0: Millis,
    t: Millis,
    fuel: usize,
) -> (r: bool)
    requires
        t0 <= t,
    ensures
        r == bounces(spinies@, level_number, t - t0, src, dir, fuel as nat),
    decreases fuel,
{
    let dst = src.add(dir);
    let dt = t - t0;

    // An obstacle: bounce at the middle of the step, not at its start, so that a spiny stuck
    // between two walls does not bounce on every frame.
    if dt > SPINY_HALF_MOVE_DURATION && is_obstacle_cell(cell_at(level_number, dst)) {
        return true;
    }

    // A spiny on the next cell coming our way: this only arises at a cell boundary.
    let dir2 = source_dir_at(spinies, dst);
    if let Some(d2) = dir2 {
        if d2 == dir.opposite() {
            return true;
        }
    }

    // Two spinies meeting in the middle of a cell.
    if dt > SPINY_HALF_MOVE_DURATION && dest_count_at(spinies, dst) > 1 {
        return true;
    }

    // A chain: if the spiny ahead bounces, bounce too, or it would run into us on the next frame.
    if let Some(d2) = dir2 {
        if d2 == dir && fuel > 0 {
            return should_bounce(dst, dir, spinies, level_number, t0, t, fuel - 1);
        }
    }
    false
}

/// Turns the spiny around; past the middle of the step, it first completes the step.
pub fn bounce_spiny(spiny: &mut MovingSpiny, t0: Millis, t: Millis)
    requires
        t0 <= t,
    ensures
        *final(spiny) == bounced(*old(spiny), t - t0),
{
    let dt = t - t0;

    spiny.pos = if dt <= SPINY_HALF_MOVE_DURATION {
        spiny.pos
    } else {
        spiny.pos.add(spiny.dir)
    };
    spiny.dir = spiny.dir.opposite();
}

/// For each spiny of the snapshot, whether it bounces.
pub fn bounce_decisions(spinies: &Vec<MovingSpiny>, level_number: LevelNumber, t0: Millis, t: Millis) -> (r:
    Vec<bool>)
    requires
        t0 <= t,
    ensures
        r@.len() == spinies@.len(),
        forall|i: int|
            0 <= i < spinies@.len() ==> r@[i] == bounces_at(spinies@, level_number, t - t0, i),
{
    let mut decisions: Vec<bool> = Vec::new();
    let mut i: usize = 0;
    while i < spinies.len()
        invariant
            t0 <= t,
            i <= spinies.len(),
            decisions@.len() == i,
            forall|k: int|
                0 <= k < i ==> decisions@[k] == bounces_at(spinies@, level_number, t - t0, k),
        decreases spinies.len() - i,
    {
        let spiny = spinies[i];
        let b = spiny.enabled && should_bounce(
            spiny.pos,
            spiny.dir,
            spinies,
            level_number,
            t0,
            t,
            spinies.len(),
        );
        decisions.push(b);
        i += 1;
    }
    decisions
}

/// Advances the swarm to time `t`: once a step is complete, every enabled spiny moves on to the
/// next cell and the anchor `t0` moves to `t`; then the spinies that collide bounce, all decided
/// from the same snapshot.
pub fn update_spinies(
    spinies: &mut Vec<MovingSpiny>,
    level_number: LevelNumber,
    t0: &mut Millis,
    t: Millis,
)
    requires
        *old(t0) <= t,
    ensures
        *final(t0) == next_anchor(*old(t0), t),
        final(spinies)@ == updated_spinies(old(spinies)@, level_number, *old(t0), t),
        // all spinies share the one anchor, and none is more than a step away from it
        *final(t0) <= t,
        t - *final(t0) < SPINY_MOVE_DURATION,
{
    let ghost s0 = spinies@;
    if t - *t0 >= SPINY_MOVE_DURATION {
        *t0 = t;

        // Keep moving in the same direction; collisions come next.
        let n = spinies.len();
        let mut i: usize = 0;
        while i < n
            invariant
                n == spinies.len(),
                s0.len() == n,
                i <= n,
                forall|k: int| 0 <= k < i ==> spinies@[k] == advanced(s0)[k],
                forall|k: int| i <= k < n ==> spinies@[k] == s0[k],
            decreases n - i,
        {
            if spinies[i].enabled {
                let mut spiny = spinies[i];
                spiny.pos = spiny.pos.add(spiny.dir);
                spinies.set(i, spiny);
            }
            i += 1;
        }
        assert(spinies@ =~= advanced(s0));

        // Re-enable the spinies whose cell is free.
        disable_overlapping(spinies);
    }
    let ghost s1 = spinies@;
    assert(s1 == stepped(s0, *old(t0), t));

    let decisions = bounce_decisions(spinies, level_number, *t0, t);
    let n = spinies.len();
    let mut i: usize = 0;
    while i < n
        invariant
            n == spinies.len(),
            s1.len() == n,
            decisions@.len() == n,
            *t0 <= t,
            i <= n,
            forall|k: int|
                0 <= k < n ==> decisions@[k] == bounces_at(s1, level_number, t - *t0, k),
            forall|k: int| 0 <= k < i ==> spinies@[k] == resolved(s1, level_number, t - *t0)[k],
            forall|k: int| i <= k < n ==> spinies@[k] == s1[k],
        decreases n - i,
    {
        if decisions[i] {
            let mut spiny = spinies[i];
            bounce_spiny(&mut spiny, *t0, t);
            spinies.set(i, spiny);
        }
        i += 1;
    }
    assert(spinies@ =~= resolved(s1, level_number, t - *t0));
}

/// The spiny's animated position, `t - t0` milliseconds into the swarm's step, in sub-cell units;
/// a disabled spiny stays on its cell.
pub open spec fn spiny_f_pos(spiny: MovingSpiny, t0: Millis, t: Millis) -> FPos {
    if spiny.enabled {
        FPos {
            x: (spiny.pos.x * CELL_UNITS + dx_of(spiny.dir) * SPINY_SPEED * (t - t0)) as i64,
            y: (spiny.pos.y * CELL_UNITS + dy_of(spiny.dir) * SPINY_SPEED * (t - t0)) as i64,
        }
    } else {
        FPos { x: (spiny.pos.x * CELL_UNITS) as i64, y: (spiny.pos.y * CELL_UNITS) as i64 }
    }
}

pub fn compute_spiny_f_pos(spiny: &MovingSpiny, t0: Millis, t: Millis) -> (r: FPos)
    requires
        t0 <= t <= MAX_TIME,
    ensures
        r == spiny_f_pos(*spiny, t0, t),
{
    if spiny.enabled {
        linear_motion(spiny.pos, compute_f_speed(spiny.dir, SPINY_SPEED), t0, t)
    } else {
        FPos { x: spiny.pos.x as i64 * CELL_UNITS, y: spiny.pos.y as i64 * CELL_UNITS }
    }
}

/// Wall bounce timing: up to the middle of the step, a spiny with no spiny on the cell ahead
/// does not bounce, whatever that cell holds; past the middle, it bounces off a wall, a door or a
/// sign ahead.
pub proof fn lemma_obstacle_bounce_timing(
    s: Seq<MovingSpiny>,
    level_number: LevelNumber,
    dt: int,
    src: Pos,
    dir: Dir,
    fuel: nat,
)
    ensures
        0 <= dt <= SPINY_HALF_MOVE_DURATION && source_dir(s, step(src, dir)) is None ==> !bounces(
            s,
            level_number,
            dt,
            src,
            dir,
            fuel,
        ),
        dt > SPINY_HALF_MOVE_DURATION && is_obstacle(cell_of(level_number, step(src, dir)))
            ==> bounces(s, level_number, dt, src, dir, fuel),
{
}

/// Head-on bounce: a spiny whose cell ahead is the source of a spiny going the opposite way
/// bounces; up to the middle of the step, it turns around on its own cell, without crossing into
/// the other one's.
pub proof fn lemma_head_on_bounce(
    s: Seq<MovingSpiny>,
    level_number: LevelNumber,
    dt: int,
    spiny: MovingSpiny,
    fuel: nat,
)
    requires
        source_dir(s, step(spiny.pos, spiny.dir)) == Some(opposite_of(spiny.dir)),
    ensures
        bounces(s, level_number, dt, spiny.pos, spiny.dir, fuel),
        dt <= SPINY_HALF_MOVE_DURATION ==> bounced(spiny, dt).pos == spiny.pos,
        bounced(spiny, dt).dir == opposite_of(spiny.dir),
{
}

} // verus!
