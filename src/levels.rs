use vstd::prelude::*;
use vstd::string::StringSliceAdditionalSpecFns;

use crate::level_data::{
    level_map, level_signs, LEVEL_10_MAP, LEVEL_11_MAP, LEVEL_11_SIGN_0, LEVEL_12_MAP,
    LEVEL_13_MAP, LEVEL_1_MAP, LEVEL_1_SIGN_0, LEVEL_2_MAP, LEVEL_2_SIGN_0, LEVEL_3_MAP,
    LEVEL_3_SIGN_0, LEVEL_4_MAP, LEVEL_4_SIGN_0, LEVEL_4_SIGN_1, LEVEL_5_MAP, LEVEL_5_SIGN_0,
    LEVEL_6_MAP, LEVEL_6_SIGN_0, LEVEL_6_SIGN_1, LEVEL_7_MAP, LEVEL_7_SIGN_0, LEVEL_7_SIGN_1,
    LEVEL_7_SIGN_2, LEVEL_7_SIGN_3, LEVEL_8_MAP, LEVEL_8_SIGN_0, LEVEL_9_MAP,
};
use crate::types::{
    alive_at, still_alive, Dir, Lifetime, LevelNumber, Message, MovingSpiny, Pos, TemporaryWall,
};

verus! {

/// A room: its map and the texts of its signs.
pub struct LevelDescription {
    pub ascii_map: &'static str,
    pub signs: Vec<Message>,
}

/// Static information about a cell, straight from the level description.
#[derive(Clone, Copy, Debug, PartialEq, Eq, Structural)]
pub enum Cell {
    FloorC,
    LeftDoorC,
    RightDoorC,
    /// A sign, with the index of its text among the level's signs.
    SignC(u8),
    SpinyC(Dir),
    WallC,
}

/// What the game tracks beyond the static cells: things that move, or that only exist during
/// part of the game.
#[derive(Clone, Copy, Debug, PartialEq, Eq, Structural)]
pub enum Entity {
    SpinyE(MovingSpiny),
    WallE(TemporaryWall),
}

pub const LEVEL_WIDTH: i8 = 9;

pub const LEVEL_HEIGHT: i8 = 7;

pub const MIN_LEVEL: u8 = 1;

pub const MAX_LEVEL: u8 = 13;

pub const ASCII_MAP_WIDTH: usize = 20;

pub const ASCII_MAP_OFFSET: usize = 21;

pub const CELL_WIDTH: usize = 2;

pub open spec fn left_door() -> Pos {
    Pos { x: 0, y: 1 }
}

pub open spec fn right_door() -> Pos {
    Pos { x: 8, y: 5 }
}

/// The cell of the door on the left wall.
pub fn left_door_pos() -> (r: Pos)
    ensures
        r == left_door(),
{
    Pos { x: 0, y: 1 }
}

/// The cell of the door on the right wall.
pub fn right_door_pos() -> (r: Pos)
    ensures
        r == right_door(),
{
    Pos { x: 8, y: 5 }
}

pub open spec fn in_grid(pos: Pos) -> bool {
    0 <= pos.x < LEVEL_WIDTH && 0 <= pos.y < LEVEL_HEIGHT
}

pub open spec fn inside_room(pos: Pos) -> bool {
    0 < pos.x < LEVEL_WIDTH - 1 && 0 < pos.y < LEVEL_HEIGHT - 1
}

/// Whether `pos` lies strictly inside the outer walls.
pub fn is_inside_room(pos: Pos) -> (r: bool)
    ensures
        r == inside_room(pos),
{
    pos.x > 0 && pos.y > 0 && pos.x < LEVEL_WIDTH - 1 && pos.y < LEVEL_HEIGHT - 1
}

pub fn min_level() -> (r: LevelNumber)
    ensures
        r == MIN_LEVEL,
{
    MIN_LEVEL
}

pub fn max_level() -> (r: LevelNumber)
    ensures
        r == MAX_LEVEL,
{
    MAX_LEVEL
}

/// The description of a level; a number outside the game gives an empty room.
pub fn get_level_description(level_number: LevelNumber) -> (r: LevelDescription)
    ensures
        r.ascii_map == level_map(level_number),
        r.signs@ == level_signs(level_number),
{
    match level_number {
        1 => LevelDescription { ascii_map: LEVEL_1_MAP, signs: vec![LEVEL_1_SIGN_0] },
        2 => LevelDescription { ascii_map: LEVEL_2_MAP, signs: vec![LEVEL_2_SIGN_0] },
        3 => LevelDescription { ascii_map: LEVEL_3_MAP, signs: vec![LEVEL_3_SIGN_0] },
        4 => LevelDescription {
            ascii_map: LEVEL_4_MAP,
            signs: vec![LEVEL_4_SIGN_0, LEVEL_4_SIGN_1],
        },
        5 => LevelDescription { ascii_map: LEVEL_5_MAP, signs: vec![LEVEL_5_SIGN_0] },
        6 => LevelDescription {
            ascii_map: LEVEL_6_MAP,
            signs: vec![LEVEL_6_SIGN_0, LEVEL_6_SIGN_1],
        },
        7 => LevelDescription {
            ascii_map: LEVEL_7_MAP,
            signs: vec![LEVEL_7_SIGN_0, LEVEL_7_SIGN_1, LEVEL_7_SIGN_2, LEVEL_7_SIGN_3],
        },
        8 => LevelDescription { ascii_map: LEVEL_8_MAP, signs: vec![LEVEL_8_SIGN_0] },
        9 => LevelDescription { ascii_map: LEVEL_9_MAP, signs: vec![] },
        10 => LevelDescription { ascii_map: LEVEL_10_MAP, signs: vec![] },
        11 => LevelDescription { ascii_map: LEVEL_11_MAP, signs: vec![LEVEL_11_SIGN_0] },
        12 => LevelDescription { ascii_map: LEVEL_12_MAP, signs: vec![] },
        13 => LevelDescription { ascii_map: LEVEL_13_MAP, signs: vec![] },
        _ => LevelDescription { ascii_map: "", signs: vec![] },
    }
}

/// The text of a sign; an index past the level's signs reads as an empty text.
pub open spec fn message_of(level_number: LevelNumber, message_index: u8) -> Message {
    if message_index < level_signs(level_number).len() {
        level_signs(level_number)[message_index as int]
    } else {
        ""
    }
}

pub fn message_at(level_number: LevelNumber, message_index: u8) -> (r: Message)
    ensures
        r == message_of(level_number, message_index),
{
    let description = get_level_description(level_number);
    if (message_index as usize) < description.signs.len() {
        description.signs[message_index as usize]
    } else {
        ""
    }
}

pub open spec fn code_index(pos: Pos) -> int {
    ASCII_MAP_OFFSET + pos.y * ASCII_MAP_WIDTH + pos.x * CELL_WIDTH
}

/// The two characters that describe the cell at `pos`; outside the grid, floor.
pub open spec fn code_of(level_number: LevelNumber, pos: Pos) -> (u8, u8) {
    let bytes = level_map(level_number).spec_bytes();
    let i = code_index(pos);
    if in_grid(pos) && i + 1 < bytes.len() {
        (bytes[i], bytes[i + 1])
    } else {
        (32u8, 32u8)
    }
}

pub open spec fn decode_cell(code: (u8, u8)) -> Cell {
    let (u1, u2) = code;
    if u1 == 76 {
        Cell::LeftDoorC  // 'L'
    } else if u1 == 82 {
        Cell::RightDoorC  // 'R'
    } else if u1 == 83 {
        Cell::SignC(u2.wrapping_sub(48))  // 'S' followed by a digit
    } else if u1 == 94 {
        Cell::SpinyC(Dir::Up)  // '^'
    } else if u1 == 60 {
        Cell::SpinyC(Dir::Left)  // '<'
    } else if u1 == 118 {
        Cell::SpinyC(Dir::Down)  // 'v'
    } else if u1 == 62 {
        Cell::SpinyC(Dir::Right)  // '>'
    } else if u1 == 35 {
        Cell::WallC  // '#'
    } else {
        Cell::FloorC
    }
}

/// What the cell at `pos` of a level holds; positions outside the grid are floor.
pub open spec fn cell_of(level_number: LevelNumber, pos: Pos) -> Cell {
    decode_cell(code_of(level_number, pos))
}

fn code_at(level_number: LevelNumber, pos: Pos) -> (r: (u8, u8))
    ensures
        r == code_of(level_number, pos),
{
    if pos.x < 0 || pos.y < 0 || pos.x >= LEVEL_WIDTH || pos.y >= LEVEL_HEIGHT {
        (32, 32)
    } else {
        let level_description = get_level_description(level_number);
        let bytes = level_description.ascii_map.as_bytes();
        let char_index: usize = ASCII_MAP_OFFSET + (pos.y as usize) * ASCII_MAP_WIDTH + (pos.x as usize)
            * CELL_WIDTH;
        if char_index + 1 < bytes.len() {
            (bytes[char_index], bytes[char_index + 1])
        } else {
            (32, 32)
        }
    }
}

pub fn cell_at(level_number: LevelNumber, pos: Pos) -> (r: Cell)
    ensures
        r == cell_of(level_number, pos),
{
    let (u1, u2) = code_at(level_number, pos);
    if u1 == 76 {
        Cell::LeftDoorC
    } else if u1 == 82 {
        Cell::RightDoorC
    } else if u1 == 83 {
        Cell::SignC(u2.wrapping_sub(48))
    } else if u1 == 94 {
        Cell::SpinyC(Dir::Up)
    } else if u1 == 60 {
        Cell::SpinyC(Dir::Left)
    } else if u1 == 118 {
        Cell::SpinyC(Dir::Down)
    } else if u1 == 62 {
        Cell::SpinyC(Dir::Right)
    } else if u1 == 35 {
        Cell::WallC
    } else {
        Cell::FloorC
    }
}

/// Whether `tag` is one of the characters that start a cell.
pub open spec fn known_tag(tag: u8) -> bool {
    tag == 32 || tag == 76 || tag == 82 || tag == 83 || tag == 94 || tag == 60 || tag == 118 || tag
        == 62 || tag == 35
}

/// A level's map has the expected size, every cell starts with a known character, and every
/// sign refers to one of the level's texts.
pub open spec fn well_formed(level_number: LevelNumber) -> bool {
    &&& level_map(level_number).spec_bytes().len() == ASCII_MAP_OFFSET + (LEVEL_HEIGHT as int)
        * ASCII_MAP_WIDTH - 1
    &&& forall|pos: Pos|
        #![trigger code_of(level_number, pos)]
        in_grid(pos) ==> {
            let (u1, u2) = code_of(level_number, pos);
            &&& known_tag(u1)
            &&& u1 == 83 ==> u2.wrapping_sub(48) < level_signs(level_number).len()
        }
}

fn is_known_tag(tag: u8) -> (r: bool)
    ensures
        r == known_tag(tag),
{
    tag == 32 || tag == 76 || tag == 82 || tag == 83 || tag == 94 || tag == 60 || tag == 118 || tag
        == 62 || tag == 35
}

/// Checks a level's description, so that a malformed one can be refused when the game starts.
pub fn level_is_well_formed(level_number: LevelNumber) -> (r: bool)
    ensures
        r == well_formed(level_number),
{
    let level_description = get_level_description(level_number);
    let expected_len: usize = ASCII_MAP_OFFSET + (LEVEL_HEIGHT as usize) * ASCII_MAP_WIDTH - 1;
    if level_description.ascii_map.as_bytes().len() != expected_len {
        return false;
    }
    let mut y: i8 = 0;
    while y < LEVEL_HEIGHT
        invariant
            0 <= y <= LEVEL_HEIGHT,
            level_description.signs@ == level_signs(level_number),
            level_map(level_number).spec_bytes().len() == expected_len,
            forall|pos: Pos|
                #![trigger code_of(level_number, pos)]
                in_grid(pos) && pos.y < y ==> {
                    let (u1, u2) = code_of(level_number, pos);
                    &&& known_tag(u1)
                    &&& u1 == 83 ==> u2.wrapping_sub(48) < level_signs(level_number).len()
                },
        decreases LEVEL_HEIGHT - y,
    {
        let mut x: i8 = 0;
        while x < LEVEL_WIDTH
            invariant
                0 <= y < LEVEL_HEIGHT,
                0 <= x <= LEVEL_WIDTH,
                level_description.signs@ == level_signs(level_number),
                level_map(level_number).spec_bytes().len() == expected_len,
                forall|pos: Pos|
                    #![trigger code_of(level_number, pos)]
                    in_grid(pos) && (pos.y < y || (pos.y == y && pos.x < x)) ==> {
                        let (u1, u2) = code_of(level_number, pos);
                        &&& known_tag(u1)
                        &&& u1 == 83 ==> u2.wrapping_sub(48) < level_signs(level_number).len()
                    },
            decreases LEVEL_WIDTH - x,
        {
            let (u1, u2) = code_at(level_number, Pos { x, y });
            if !is_known_tag(u1) {
                return false;
            }
            if u1 == 83 && u2.wrapping_sub(48) as usize >= level_description.signs.len() {
                return false;
            }
            x += 1;
        }
        y += 1;
    }
    true
}

/// The first level of the run of consecutive levels, ending at `l`, whose cell at `pos` is the
/// one of `level_number`.
pub open spec fn run_start(level_number: LevelNumber, pos: Pos, l: LevelNumber) -> LevelNumber
    decreases l,
{
    if l > MIN_LEVEL && cell_of((l - 1) as u8, pos) == cell_of(level_number, pos) {
        run_start(level_number, pos, (l - 1) as u8)
    } else {
        l
    }
}

/// The last level of the run of consecutive levels, starting at `l`, whose cell at `pos` is the
/// one of `level_number`.
pub open spec fn run_end(level_number: LevelNumber, pos: Pos, l: LevelNumber) -> LevelNumber
    decreases MAX_LEVEL - l,
{
    if l < MAX_LEVEL && cell_of((l + 1) as u8, pos) == cell_of(level_number, pos) {
        run_end(level_number, pos, (l + 1) as u8)
    } else {
        l
    }
}

/// The levels around `level_number` during which the cell at `pos` stays the same.
pub open spec fn lifetime_of(level_number: LevelNumber, pos: Pos) -> Lifetime {
    Lifetime {
        level_min: run_start(level_number, pos, level_number),
        level_max: run_end(level_number, pos, level_number),
    }
}

proof fn lemma_run_bounds(level_number: LevelNumber, pos: Pos, l: LevelNumber)
    ensures
        run_start(level_number, pos, l) <= l,
        run_end(level_number, pos, l) >= l,
    decreases l,
{
    if l > MIN_LEVEL && cell_of((l - 1) as u8, pos) == cell_of(level_number, pos) {
        lemma_run_bounds(level_number, pos, (l - 1) as u8);
    }
    lemma_run_end_bound(level_number, pos, l);
}

proof fn lemma_run_end_bound(level_number: LevelNumber, pos: Pos, l: LevelNumber)
    ensures
        run_end(level_number, pos, l) >= l,
    decreases MAX_LEVEL - l,
{
    if l < MAX_LEVEL && cell_of((l + 1) as u8, pos) == cell_of(level_number, pos) {
        lemma_run_end_bound(level_number, pos, (l + 1) as u8);
    }
}

/// A cell's lifetime contains the level it was read from.
pub proof fn lemma_lifetime_contains_level(level_number: LevelNumber, pos: Pos)
    ensures
        alive_at(lifetime_of(level_number, pos), level_number),
{
    lemma_run_bounds(level_number, pos, level_number);
}

fn lifetime_at(level_number: LevelNumber, pos: Pos) -> (r: Lifetime)
    ensures
        r == lifetime_of(level_number, pos),
{
    let expected_cell = cell_at(level_number, pos);

    let mut level_min: u8 = level_number;
    while level_min > MIN_LEVEL && cell_at(level_min - 1, pos) == expected_cell
        invariant
            expected_cell == cell_of(level_number, pos),
            run_start(level_number, pos, level_min) == run_start(level_number, pos, level_number),
        decreases level_min,
    {
        level_min -= 1;
    }

    let mut level_max: u8 = level_number;
    while level_max < MAX_LEVEL && cell_at(level_max + 1, pos) == expected_cell
        invariant
            expected_cell == cell_of(level_number, pos),
            run_end(level_number, pos, level_max) == run_end(level_number, pos, level_number),
        decreases MAX_LEVEL - level_max,
    {
        level_max += 1;
    }

    Lifetime { level_min, level_max }
}

/// The entity that a level places at `pos`, if any: spinies anywhere, and the walls inside the
/// room.
pub open spec fn entity_of(level_number: LevelNumber, pos: Pos) -> Option<Entity> {
    if !in_grid(pos) {
        None
    } else {
        match cell_of(level_number, pos) {
            Cell::SpinyC(dir) => Some(
                Entity::SpinyE(
                    MovingSpiny {
                        pos,
                        dir,
                        lifetime: lifetime_of(level_number, pos),
                        enabled: true,
                    },
                ),
            ),
            Cell::WallC => if inside_room(pos) {
                Some(Entity::WallE(TemporaryWall { pos, lifetime: lifetime_of(level_number, pos) }))
            } else {
                None
            },
            _ => None,
        }
    }
}

pub fn entity_at(level_number: LevelNumber, pos: Pos) -> (r: Option<Entity>)
    ensures
        r == entity_of(level_number, pos),
{
    if pos.x < 0 || pos.y < 0 || pos.x >= LEVEL_WIDTH || pos.y >= LEVEL_HEIGHT {
        None
    } else {
        match cell_at(level_number, pos) {
            Cell::SpinyC(dir) => Some(
                Entity::SpinyE(
                    MovingSpiny {
                        pos: pos,
                        dir: dir,
                        lifetime: lifetime_at(level_number, pos),
                        enabled: true,
                    },
                ),
            ),
            Cell::WallC => if is_inside_room(pos) {
                Some(
                    Entity::WallE(
                        TemporaryWall { pos: pos, lifetime: lifetime_at(level_number, pos) },
                    ),
                )
            } else {
                None
            },
            _ => None,
        }
    }
}

// Operations on entities which work with both spinies and walls.

/// What the entity operations need to know of spinies and walls.
pub trait LevelEntity: Sized + Copy {
    spec fn lifetime_spec(&self) -> Lifetime;

    /// The entity of this kind, if `entity` is one.
    spec fn of_entity(entity: Entity) -> Option<Self>;

    fn lifetime_of(&self) -> (r: Lifetime)
        ensures
            r == self.lifetime_spec(),
    ;

    fn from_entity(entity: Entity) -> (r: Option<Self>)
        ensures
            r == Self::of_entity(entity),
    ;

    /// An entity of this kind has the lifetime of the entity it was taken from.
    proof fn lemma_of_entity_lifetime(entity: Entity)
        ensures
            Self::of_entity(entity) matches Some(a) ==> a.lifetime_spec() == entity_lifetime(
                entity,
            ),
    ;
}

pub open spec fn entity_lifetime(entity: Entity) -> Lifetime {
    match entity {
        Entity::SpinyE(spiny) => spiny.lifetime,
        Entity::WallE(wall) => wall.lifetime,
    }
}

/// The entities of `s` that are alive at `level_number` (when `alive`) or dead there (when not),
/// in their order.
pub open spec fn select<A: LevelEntity>(s: Seq<A>, level_number: LevelNumber, alive: bool) -> Seq<A>
    decreases s.len(),
{
    if s.len() == 0 {
        seq![]
    } else {
        let rest = select(s.drop_last(), level_number, alive);
        if alive_at(s.last().lifetime_spec(), level_number) == alive {
            rest.push(s.last())
        } else {
            rest
        }
    }
}

/// The cell with row-major index `k`.
pub open spec fn cell_pos(k: int) -> Pos {
    Pos { x: (k % (LEVEL_WIDTH as int)) as i8, y: (k / (LEVEL_WIDTH as int)) as i8 }
}

/// The entities of kind `A` among the first `k` cells of a level, in row-major order.
pub open spec fn listed<A: LevelEntity>(level_number: LevelNumber, k: nat) -> Seq<A>
    decreases k,
{
    if k == 0 {
        seq![]
    } else {
        let prev = listed::<A>(level_number, (k - 1) as nat);
        match entity_of(level_number, cell_pos(k - 1)) {
            Some(entity) => match A::of_entity(entity) {
                Some(a) => prev.push(a),
                None => prev,
            },
            None => prev,
        }
    }
}

pub open spec fn grid_size() -> nat {
    (LEVEL_WIDTH * LEVEL_HEIGHT) as nat
}

/// The entities of kind `A` that a level places, in row-major order.
pub open spec fn level_entities<A: LevelEntity>(level_number: LevelNumber) -> Seq<A> {
    listed::<A>(level_number, grid_size())
}

/// The entities after going from `level_src` to `level_dst`: those still alive, then those that
/// `level_dst` places and that were not alive at `level_src`.
pub open spec fn adjusted<A: LevelEntity>(
    existing: Seq<A>,
    level_src: LevelNumber,
    level_dst: LevelNumber,
) -> Seq<A> {
    select(existing, level_dst, true) + select(level_entities::<A>(level_dst), level_src, false)
}

pub fn keep_live_entities<A: LevelEntity>(existing_entities: Vec<A>, level_number: LevelNumber) -> (r:
    Vec<A>)
    ensures
        r@ == select(existing_entities@, level_number, true),
{
    let mut remaining_entities: Vec<A> = Vec::new();
    let mut i: usize = 0;
    while i < existing_entities.len()
        invariant
            i <= existing_entities.len(),
            remaining_entities@ == select(existing_entities@.take(i as int), level_number, true),
        decreases existing_entities.len() - i,
    {
        let entity = existing_entities[i];
        proof {
            let s = existing_entities@.take(i + 1);
            assert(s.drop_last() =~= existing_entities@.take(i as int));
            assert(s.last() == entity);
        }
        if still_alive(&entity.lifetime_of(), level_number) {
            remaining_entities.push(entity);
        }
        i += 1;
    }
    assert(existing_entities@.take(i as int) =~= existing_entities@);
    remaining_entities
}

pub fn list_entities<A: LevelEntity>(level_number: LevelNumber) -> (r: Vec<A>)
    ensures
        r@ == level_entities::<A>(level_number),
{
    let mut vec: Vec<A> = Vec::new();
    let mut j: i8 = 0;
    while j < LEVEL_HEIGHT
        invariant
            0 <= j <= LEVEL_HEIGHT,
            vec@ == listed::<A>(level_number, (j * LEVEL_WIDTH) as nat),
        decreases LEVEL_HEIGHT - j,
    {
        let mut i: i8 = 0;
        while i < LEVEL_WIDTH
            invariant
                0 <= j < LEVEL_HEIGHT,
                0 <= i <= LEVEL_WIDTH,
                vec@ == listed::<A>(level_number, (j * LEVEL_WIDTH + i) as nat),
            decreases LEVEL_WIDTH - i,
        {
            let pos = Pos { x: i, y: j };
            proof {
                let k = j * LEVEL_WIDTH + i;
                assert(cell_pos(k) == pos);
            }
            let entity = entity_at(level_number, pos);
            match entity {
                Some(e) => match A::from_entity(e) {
                    Some(a) => vec.push(a),
                    None => {},
                },
                None => {},
            }
            i += 1;
        }
        j += 1;
    }
    vec
}

/// Appends the entities that `level_dst` places and that were not alive at `level_src`.
pub fn push_new_entities<A: LevelEntity>(
    entities: &mut Vec<A>,
    level_src: LevelNumber,
    level_dst: LevelNumber,
)
    ensures
        final(entities)@ == old(entities)@ + select(
            level_entities::<A>(level_dst),
            level_src,
            false,
        ),
{
    let listed_entities = list_entities::<A>(level_dst);
    let mut i: usize = 0;
    while i < listed_entities.len()
        invariant
            i <= listed_entities.len(),
            listed_entities@ == level_entities::<A>(level_dst),
            entities@ == old(entities)@ + select(listed_entities@.take(i as int), level_src, false),
        decreases listed_entities.len() - i,
    {
        let entity = listed_entities[i];
        proof {
            let s = listed_entities@.take(i + 1);
            assert(s.drop_last() =~= listed_entities@.take(i as int));
            assert(s.last() == entity);
        }
        if !still_alive(&entity.lifetime_of(), level_src) {
            entities.push(entity);
            proof {
                assert(entities@ =~= old(entities)@ + select(
                    listed_entities@.take(i + 1),
                    level_src,
                    false,
                ));
            }
        }
        i += 1;
    }
    assert(listed_entities@.take(i as int) =~= listed_entities@);
}

/// Keeps the entities which are still alive and adds the new ones.
pub fn adjust_entities<A: LevelEntity>(
    existing_entities: Vec<A>,
    level_src: LevelNumber,
    level_dst: LevelNumber,
) -> (r: Vec<A>)
    ensures
        r@ == adjusted(existing_entities@, level_src, level_dst),
{
    let mut remaining_entities = keep_live_entities(existing_entities, level_dst);
    push_new_entities(&mut remaining_entities, level_src, level_dst);
    remaining_entities
}

// Helpers to make the entity operations above work with both spinies and walls.

pub fn lifetime_of_spiny(moving_spiny: &MovingSpiny) -> (r: &Lifetime)
    ensures
        *r == moving_spiny.lifetime,
{
    &moving_spiny.lifetime
}

pub fn lifetime_of_wall(temporary_wall: &TemporaryWall) -> (r: &Lifetime)
    ensures
        *r == temporary_wall.lifetime,
{
    &temporary_wall.lifetime
}

pub fn is_spiny(entity: Entity) -> (r: Option<MovingSpiny>)
    ensures
        r == MovingSpiny::of_entity(entity),
{
    match entity {
        Entity::SpinyE(moving_spiny) => Some(moving_spiny),
        _ => None,
    }
}

pub fn is_wall(entity: Entity) -> (r: Option<TemporaryWall>)
    ensures
        r == TemporaryWall::of_entity(entity),
{
    match entity {
        Entity::WallE(temporary_wall) => Some(temporary_wall),
        _ => None,
    }
}

impl LevelEntity for MovingSpiny {
    open spec fn lifetime_spec(&self) -> Lifetime {
        self.lifetime
    }

    open spec fn of_entity(entity: Entity) -> Option<Self> {
        match entity {
            Entity::SpinyE(moving_spiny) => Some(moving_spiny),
            _ => None,
        }
    }

    fn lifetime_of(&self) -> (r: Lifetime) {
        *lifetime_of_spiny(self)
    }

    fn from_entity(entity: Entity) -> (r: Option<Self>) {
        is_spiny(entity)
    }

    proof fn lemma_of_entity_lifetime(entity: Entity) {
    }
}

impl LevelEntity for TemporaryWall {
    open spec fn lifetime_spec(&self) -> Lifetime {
        self.lifetime
    }

    open spec fn of_entity(entity: Entity) -> Option<Self> {
        match entity {
            Entity::WallE(temporary_wall) => Some(temporary_wall),
            _ => None,
        }
    }

    fn lifetime_of(&self) -> (r: Lifetime) {
        *lifetime_of_wall(self)
    }

    fn from_entity(entity: Entity) -> (r: Option<Self>) {
        is_wall(entity)
    }

    proof fn lemma_of_entity_lifetime(entity: Entity) {
    }
}

/// Whether a spiny before index `i` of `s` stands on the cell of `s[i]`.
pub open spec fn claimed_before(s: Seq<MovingSpiny>, i: int) -> bool {
    exists|j: int| 0 <= j < i && #[trigger] s[j].pos == s[i].pos
}

/// `s` where a spiny is enabled exactly when no spiny before it stands on its cell.
pub open spec fn with_occupancy(s: Seq<MovingSpiny>) -> Seq<MovingSpiny> {
    Seq::new(
        s.len(),
        |i: int|
            MovingSpiny {
                pos: s[i].pos,
                dir: s[i].dir,
                lifetime: s[i].lifetime,
                enabled: !claimed_before(s, i),
            },
    )
}

/// Temporarily disables the spinies whose cell is already taken by an earlier spiny, and enables
/// the others.
pub fn disable_overlapping(spinies: &mut Vec<MovingSpiny>)
    ensures
        final(spinies)@ == with_occupancy(old(spinies)@),
        forall|i: int, j: int|
            0 <= i < j < final(spinies)@.len() && (#[trigger] final(spinies)@[i]).enabled && (#[trigger] final(spinies)@[j]).enabled
                ==> final(spinies)@[i].pos != final(spinies)@[j].pos,
{
    proof {
        lemma_no_duplicate_occupancy(spinies@);
    }
    let ghost s = spinies@;
    let n = spinies.len();
    let mut i: usize = 0;
    while i < n
        invariant
            n == spinies.len(),
            s.len() == n,
            i <= n,
            forall|k: int| 0 <= k < i ==> spinies@[k] == with_occupancy(s)[k],
            forall|k: int| i <= k < n ==> spinies@[k] == s[k],
        decreases n - i,
    {
        let pos = spinies[i].pos;
        let mut occupied = false;
        let mut j: usize = 0;
        while j < i
            invariant
                n == spinies.len(),
                s.len() == n,
                j <= i < n,
                pos == s[i as int].pos,
                forall|k: int| 0 <= k < i ==> spinies@[k] == with_occupancy(s)[k],
                occupied == exists|m: int| 0 <= m < j && #[trigger] s[m].pos == s[i as int].pos,
            decreases i - j,
        {
            proof {
                assert(spinies@[j as int] == with_occupancy(s)[j as int]);
                assert(spinies@[j as int].pos == s[j as int].pos);
            }
            if spinies[j].pos == pos {
                occupied = true;
            }
            j += 1;
        }
        let mut spiny = spinies[i];
        spiny.enabled = !occupied;
        spinies.set(i, spiny);
        i += 1;
    }
    assert(spinies@ =~= with_occupancy(s));
}

pub open spec fn adjusted_spinies(
    existing: Seq<MovingSpiny>,
    level_src: LevelNumber,
    level_dst: LevelNumber,
) -> Seq<MovingSpiny> {
    with_occupancy(adjusted(existing, level_src, level_dst))
}

/// The spinies after going from `level_src` to `level_dst`, with those that share a cell
/// disabled.
pub fn adjust_spinies(
    existing_spinies: Vec<MovingSpiny>,
    level_src: LevelNumber,
    level_dst: LevelNumber,
) -> (r: Vec<MovingSpiny>)
    ensures
        r@ == adjusted_spinies(existing_spinies@, level_src, level_dst),
        forall|i: int, j: int|
            0 <= i < j < r@.len() && (#[trigger] r@[i]).enabled && (#[trigger] r@[j]).enabled
                ==> r@[i].pos != r@[j].pos,
{
    let mut spinies = adjust_entities(existing_spinies, level_src, level_dst);
    disable_overlapping(&mut spinies);
    spinies
}

/// The temporary walls after going from `level_src` to `level_dst`.
pub fn adjust_walls(
    existing_walls: Vec<TemporaryWall>,
    level_src: LevelNumber,
    level_dst: LevelNumber,
) -> (r: Vec<TemporaryWall>)
    ensures
        r@ == adjusted(existing_walls@, level_src, level_dst),
{
    adjust_entities(existing_walls, level_src, level_dst)
}

proof fn lemma_select_alive<A: LevelEntity>(s: Seq<A>, level_number: LevelNumber, alive: bool)
    ensures
        forall|k: int|
            0 <= k < select(s, level_number, alive).len() ==> alive_at(
                #[trigger] select(s, level_number, alive)[k].lifetime_spec(),
                level_number,
            ) == alive,
    decreases s.len(),
{
    if s.len() > 0 {
        lemma_select_alive(s.drop_last(), level_number, alive);
        let rest = select(s.drop_last(), level_number, alive);
        let sel = select(s, level_number, alive);
        assert forall|k: int| 0 <= k < sel.len() implies alive_at(
            sel[k].lifetime_spec(),
            level_number,
        ) == alive by {
            if k < rest.len() {
                assert(sel[k] == rest[k]);
            }
        }
    }
}

proof fn lemma_select_from<A: LevelEntity>(s: Seq<A>, level_number: LevelNumber, alive: bool)
    ensures
        forall|k: int|
            0 <= k < select(s, level_number, alive).len() ==> s.contains(
                #[trigger] select(s, level_number, alive)[k],
            ),
    decreases s.len(),
{
    if s.len() > 0 {
        lemma_select_from(s.drop_last(), level_number, alive);
        let rest = select(s.drop_last(), level_number, alive);
        assert forall|k: int| 0 <= k < rest.len() implies s.contains(rest[k]) by {
            assert(s.drop_last().contains(rest[k]));
            let m = choose|m: int| 0 <= m < s.drop_last().len() && s.drop_last()[m] == rest[k];
            assert(s[m] == rest[k]);
        }
        assert(s[s.len() - 1] == s.last());
    }
}

proof fn lemma_listed_alive<A: LevelEntity>(level_number: LevelNumber, k: nat)
    ensures
        forall|m: int|
            0 <= m < listed::<A>(level_number, k).len() ==> alive_at(
                #[trigger] listed::<A>(level_number, k)[m].lifetime_spec(),
                level_number,
            ),
    decreases k,
{
    if k > 0 {
        lemma_listed_alive::<A>(level_number, (k - 1) as nat);
        let pos = cell_pos(k - 1);
        lemma_lifetime_contains_level(level_number, pos);
        if let Some(entity) = entity_of(level_number, pos) {
            A::lemma_of_entity_lifetime(entity);
        }
        let prev = listed::<A>(level_number, (k - 1) as nat);
        let cur = listed::<A>(level_number, k);
        assert forall|m: int| 0 <= m < cur.len() implies alive_at(
            cur[m].lifetime_spec(),
            level_number,
        ) by {
            if m < prev.len() {
                assert(cur[m] == prev[m]);
            }
        }
    }
}

/// After a transition to `level_dst`, every entity of kind `A` is alive at `level_dst`.
pub proof fn lemma_adjusted_alive<A: LevelEntity>(
    existing: Seq<A>,
    level_src: LevelNumber,
    level_dst: LevelNumber,
)
    ensures
        forall|k: int|
            0 <= k < adjusted(existing, level_src, level_dst).len() ==> alive_at(
                #[trigger] adjusted(existing, level_src, level_dst)[k].lifetime_spec(),
                level_dst,
            ),
{
    let kept = select(existing, level_dst, true);
    let fresh = level_entities::<A>(level_dst);
    let added = select(fresh, level_src, false);
    lemma_select_alive(existing, level_dst, true);
    lemma_select_from(fresh, level_src, false);
    lemma_listed_alive::<A>(level_dst, grid_size());
    assert forall|k: int| 0 <= k < adjusted(existing, level_src, level_dst).len() implies alive_at(
        adjusted(existing, level_src, level_dst)[k].lifetime_spec(),
        level_dst,
    ) by {
        if k >= kept.len() {
            let a = added[k - kept.len()];
            assert(fresh.contains(a));
            let m = choose|m: int| 0 <= m < fresh.len() && fresh[m] == a;
            assert(alive_at(fresh[m].lifetime_spec(), level_dst));
        }
    }
}

/// Lifetime containment: after a transition to `level_dst`, every spiny and every temporary wall
/// has a lifetime that contains `level_dst`.
pub proof fn lemma_transition_lifetimes(
    spinies: Seq<MovingSpiny>,
    walls: Seq<TemporaryWall>,
    level_src: LevelNumber,
    level_dst: LevelNumber,
)
    ensures
        forall|k: int|
            0 <= k < adjusted_spinies(spinies, level_src, level_dst).len() ==> alive_at(
                #[trigger] adjusted_spinies(spinies, level_src, level_dst)[k].lifetime,
                level_dst,
            ),
        forall|k: int|
            0 <= k < adjusted(walls, level_src, level_dst).len() ==> alive_at(
                #[trigger] adjusted(walls, level_src, level_dst)[k].lifetime,
                level_dst,
            ),
{
    lemma_adjusted_alive(spinies, level_src, level_dst);
    lemma_adjusted_alive(walls, level_src, level_dst);
    let merged = adjusted(spinies, level_src, level_dst);
    assert forall|k: int| 0 <= k < adjusted_spinies(spinies, level_src, level_dst).len() implies alive_at(
        adjusted_spinies(spinies, level_src, level_dst)[k].lifetime,
        level_dst,
    ) by {
        assert(alive_at(merged[k].lifetime_spec(), level_dst));
    }
    assert forall|k: int| 0 <= k < adjusted(walls, level_src, level_dst).len() implies alive_at(
        adjusted(walls, level_src, level_dst)[k].lifetime,
        level_dst,
    ) by {
        assert(alive_at(adjusted(walls, level_src, level_dst)[k].lifetime_spec(), level_dst));
    }
}

/// No duplicate occupancy: after the occupancy pass, no two enabled spinies share a cell.
pub proof fn lemma_no_duplicate_occupancy(s: Seq<MovingSpiny>)
    ensures
        forall|i: int, j: int|
            0 <= i < j < with_occupancy(s).len() && (#[trigger] with_occupancy(s)[i]).enabled
                && (#[trigger] with_occupancy(s)[j]).enabled ==> with_occupancy(s)[i].pos
                != with_occupancy(s)[j].pos,
{
    assert forall|i: int, j: int|
        0 <= i < j < with_occupancy(s).len() && (#[trigger] with_occupancy(s)[i]).enabled
            && (#[trigger] with_occupancy(s)[j]).enabled implies with_occupancy(s)[i].pos
            != with_occupancy(s)[j].pos by {
        if s[i].pos == s[j].pos {
            assert(claimed_before(s, j));
        }
    }
}

} // verus!
