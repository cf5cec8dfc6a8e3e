use seen_room_twice::spiny::{
    bounce_decisions, bounce_spiny, compute_spiny_f_pos, should_bounce, update_spinies,
};
use seen_room_twice::types::{Dir, FPos, Lifetime, MovingSpiny, Pos};

fn spiny(x: i8, y: i8, dir: Dir) -> MovingSpiny {
    MovingSpiny { pos: Pos { x, y }, dir, lifetime: Lifetime { level_min: 1, level_max: 13 }, enabled: true }
}

#[test]
fn head_on_at_the_boundary_bounces_both() {
    let mut spinies = vec![spiny(2, 0, Dir::Right), spiny(3, 0, Dir::Left)];
    let mut t0: u64 = 0;
    update_spinies(&mut spinies, 1, &mut t0, 0);
    assert_eq!(t0, 0);
    assert_eq!(spinies[0].pos, Pos { x: 2, y: 0 });
    assert_eq!(spinies[0].dir, Dir::Left);
    assert_eq!(spinies[1].pos, Pos { x: 3, y: 0 });
    assert_eq!(spinies[1].dir, Dir::Right);
}

#[test]
fn head_on_after_a_step() {
    let mut spinies = vec![spiny(2, 2, Dir::Right), spiny(5, 2, Dir::Left)];
    let mut t0: u64 = 0;
    update_spinies(&mut spinies, 1, &mut t0, 100);
    assert_eq!(t0, 0);
    assert_eq!(spinies, vec![spiny(2, 2, Dir::Right), spiny(5, 2, Dir::Left)]);
    update_spinies(&mut spinies, 1, &mut t0, 250);
    assert_eq!(t0, 250);
    assert_eq!(spinies, vec![spiny(3, 2, Dir::Left), spiny(4, 2, Dir::Right)]);
}

#[test]
fn wall_bounce_only_past_the_middle() {
    let mut spinies = vec![spiny(5, 0, Dir::Right)];
    let mut t0: u64 = 0;
    update_spinies(&mut spinies, 1, &mut t0, 125);
    assert_eq!(spinies, vec![spiny(5, 0, Dir::Right)]);
    update_spinies(&mut spinies, 1, &mut t0, 126);
    assert_eq!(t0, 0);
    assert_eq!(spinies, vec![spiny(6, 0, Dir::Left)]);
}

#[test]
fn chain_bounce() {
    // (8, 2) is a wall in the first level: the front spiny bounces off it, and the one behind too
    let snapshot = vec![spiny(6, 2, Dir::Right), spiny(7, 2, Dir::Right)];
    assert!(should_bounce(Pos { x: 7, y: 2 }, Dir::Right, &snapshot, 1, 0, 200, 2));
    assert!(should_bounce(Pos { x: 6, y: 2 }, Dir::Right, &snapshot, 1, 0, 200, 2));
    assert!(!should_bounce(Pos { x: 6, y: 2 }, Dir::Right, &snapshot, 1, 0, 200, 0));
    assert_eq!(bounce_decisions(&snapshot, 1, 0, 200), vec![true, true]);
    assert_eq!(bounce_decisions(&snapshot, 1, 0, 100), vec![false, false]);
}

#[test]
fn converging_spinies_bounce_mid_cell() {
    let mut spinies = vec![spiny(2, 2, Dir::Right), spiny(4, 2, Dir::Left)];
    let mut t0: u64 = 0;
    update_spinies(&mut spinies, 1, &mut t0, 100);
    assert_eq!(spinies, vec![spiny(2, 2, Dir::Right), spiny(4, 2, Dir::Left)]);
    update_spinies(&mut spinies, 1, &mut t0, 200);
    assert_eq!(spinies, vec![spiny(3, 2, Dir::Left), spiny(3, 2, Dir::Right)]);
}

#[test]
fn disabled_spinies_stay_and_are_ignored() {
    let mut frozen = spiny(3, 2, Dir::Left);
    frozen.enabled = false;
    let mut spinies = vec![spiny(2, 2, Dir::Right), frozen];
    let mut t0: u64 = 0;
    update_spinies(&mut spinies, 1, &mut t0, 0);
    assert_eq!(spinies[0], spiny(2, 2, Dir::Right));
    // after the step the moving one lands on the frozen one's cell: the later one is disabled
    update_spinies(&mut spinies, 1, &mut t0, 250);
    assert_eq!(spinies[0], spiny(3, 2, Dir::Right));
    assert_eq!(spinies[1].pos, Pos { x: 3, y: 2 });
    assert!(!spinies[1].enabled);
}

#[test]
fn swarm_stays_in_lockstep() {
    let mut spinies = vec![spiny(2, 2, Dir::Right), spiny(4, 4, Dir::Down)];
    let mut t0: u64 = 0;
    for t in [10u64, 300, 420, 549, 550, 1200] {
        update_spinies(&mut spinies, 3, &mut t0, t);
        assert!(t0 <= t && t - t0 < 250);
    }
    assert_eq!(t0, 1200);
}

#[test]
fn bounce_before_and_after_the_middle() {
    let mut a = spiny(2, 2, Dir::Up);
    bounce_spiny(&mut a, 0, 125);
    assert_eq!(a, spiny(2, 2, Dir::Down));
    let mut b = spiny(2, 2, Dir::Up);
    bounce_spiny(&mut b, 0, 126);
    assert_eq!(b, spiny(2, 1, Dir::Down));
}

#[test]
fn spiny_animation() {
    let s = spiny(2, 3, Dir::Left);
    assert_eq!(compute_spiny_f_pos(&s, 100, 150), FPos { x: 2000 - 200, y: 3000 });
    let mut d = spiny(2, 3, Dir::Down);
    d.enabled = false;
    assert_eq!(compute_spiny_f_pos(&d, 100, 150), FPos { x: 2000, y: 3000 });
}

#[test]
fn crossing_spiny_is_no_head_on() {
    // the spiny ahead goes up, out of the way: no bounce at the boundary
    let mut spinies = vec![spiny(2, 2, Dir::Right), spiny(3, 2, Dir::Up)];
    let mut t0: u64 = 0;
    update_spinies(&mut spinies, 1, &mut t0, 0);
    assert_eq!(spinies, vec![spiny(2, 2, Dir::Right), spiny(3, 2, Dir::Up)]);
}
