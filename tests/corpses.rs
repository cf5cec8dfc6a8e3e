use std::collections::VecDeque;

use seen_room_twice::corpse::{update_corpses, Corpse};
use seen_room_twice::types::FPos;

fn corpse(t0: u64) -> Corpse {
    Corpse { f_pos: FPos { x: 1000, y: 2000 }, t0 }
}

#[test]
fn corpses_expire_in_order() {
    let mut corpses: VecDeque<Corpse> = VecDeque::new();
    corpses.push_back(corpse(0));
    corpses.push_back(corpse(400));
    corpses.push_back(corpse(900));
    update_corpses(&mut corpses, 999);
    assert_eq!(corpses.len(), 3);
    update_corpses(&mut corpses, 1000);
    assert_eq!(corpses, VecDeque::from(vec![corpse(400), corpse(900)]));
    update_corpses(&mut corpses, 1400);
    assert_eq!(corpses, VecDeque::from(vec![corpse(900)]));
    // expiring twice at the same time changes nothing more
    update_corpses(&mut corpses, 1400);
    assert_eq!(corpses, VecDeque::from(vec![corpse(900)]));
    update_corpses(&mut corpses, 5000);
    assert!(corpses.is_empty());
    update_corpses(&mut corpses, 5000);
    assert!(corpses.is_empty());
}

#[test]
fn only_the_front_is_checked() {
    // a younger corpse in front hides an older one behind it
    let mut corpses: VecDeque<Corpse> = VecDeque::from(vec![corpse(3000), corpse(0)]);
    update_corpses(&mut corpses, 2000);
    assert_eq!(corpses.len(), 2);
}
