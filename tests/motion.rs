use seen_room_twice::types::{
    compute_f_speed, linear_motion, still_alive, Dir, FPos, Lifetime, Pos,
};

#[test]
fn directions() {
    assert_eq!((Dir::Up.dx(), Dir::Up.dy()), (0, -1));
    assert_eq!((Dir::Left.dx(), Dir::Left.dy()), (-1, 0));
    assert_eq!((Dir::Down.dx(), Dir::Down.dy()), (0, 1));
    assert_eq!((Dir::Right.dx(), Dir::Right.dy()), (1, 0));
    assert_eq!(Dir::Up.opposite(), Dir::Down);
    assert_eq!(Dir::Right.opposite(), Dir::Left);
}

#[test]
fn neighbours() {
    let p = Pos { x: 3, y: 4 };
    assert_eq!(p.add(Dir::Up), Pos { x: 3, y: 3 });
    assert_eq!(p.add(Dir::Left), Pos { x: 2, y: 4 });
    assert_eq!(p.add(Dir::Down), Pos { x: 3, y: 5 });
    assert_eq!(p.add(Dir::Right), Pos { x: 4, y: 4 });
    assert_eq!(Pos { x: 127, y: 0 }.add(Dir::Right), Pos { x: -128, y: 0 });
}

#[test]
fn speeds_and_motion() {
    assert_eq!(compute_f_speed(Dir::Left, 8), FPos { x: -8, y: 0 });
    assert_eq!(compute_f_speed(Dir::Down, 4), FPos { x: 0, y: 4 });
    let p = Pos { x: 2, y: -1 };
    assert_eq!(linear_motion(p, FPos { x: 8, y: -4 }, 100, 150), FPos { x: 2400, y: -1200 });
    assert_eq!(linear_motion(p, FPos { x: 8, y: -4 }, 150, 100), FPos { x: 1600, y: -800 });
    assert_eq!(linear_motion(p, FPos { x: 0, y: 0 }, 0, 1_000_000), FPos { x: 2000, y: -1000 });
}

#[test]
fn lifetimes() {
    let lifetime = Lifetime { level_min: 3, level_max: 5 };
    assert!(!still_alive(&lifetime, 2));
    assert!(still_alive(&lifetime, 3));
    assert!(still_alive(&lifetime, 5));
    assert!(!still_alive(&lifetime, 6));
}
