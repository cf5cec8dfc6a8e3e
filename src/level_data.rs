use vstd::prelude::*;

use crate::types::{LevelNumber, Message};

verus! {

// The thirteen rooms of the game. Each map is a grid of two-character cells, framed by dots.
// The first character of a cell says what it holds: a space for floor, L and R for the doors,
// S for a sign, ^ < v > for a spiny heading that way, # for a wall. After an S, the second
// character is the index of the sign's text in the level's list of signs.

pub const LEVEL_1_MAP: &'static str = " . . . . . . . . . .\
    .##################.\
    .LD            ####.\
    .##              ##.\
    .##    ##S0##    ##.\
    .##              ##.\
    .##              RD.\
    .##################.";

pub const LEVEL_1_SIGN_0: Message = "Can you figure out what the numbers mean?";

pub const LEVEL_2_MAP: &'static str = " . . . . . . . . . .\
    .##################.\
    .LD            ####.\
    .##              ##.\
    .##      S0####  ##.\
    .##              ##.\
    .##              RD.\
    .##################.";

pub const LEVEL_2_SIGN_0: Message = "How about now?";

pub const LEVEL_3_MAP: &'static str = " . . . . . . . . . .\
    .##################.\
    .LD            ####.\
    .##              ##.\
    .##      S0  ##  ##.\
    .##          ##  ##.\
    .##              RD.\
    .##################.";

pub const LEVEL_3_SIGN_0: Message = "You should be able to guess what's going to\n\
    happen to that corner block by now.";

pub const LEVEL_4_MAP: &'static str = " . . . . . . . . . .\
    .##################.\
    .LD            S1##.\
    .##              ##.\
    .##          ^^  ##.\
    .##      ^^  ^^  ##.\
    .##S0^^  ^^  ^^  RD.\
    .##################.";

pub const LEVEL_4_SIGN_0: Message = "I know, it's hard to read the numbers on the\n\
    spinies when they move so fast. But now that\n\
    you've stopped to read a sign, it's a lot\n\
    easier isn't it :)";

pub const LEVEL_4_SIGN_1: Message = "If there is no sign around, just press SPACE\n\
    or P to pause the game.";

pub const LEVEL_5_MAP: &'static str = " . . . . . . . . . .\
    .##################.\
    .LD            S0##.\
    .##              ##.\
    .##          ^^  ##.\
    .##      ^^  ##  ##.\
    .##  ^^  ##  ##  RD.\
    .##################.";

pub const LEVEL_5_SIGN_0: Message = "Now you know!";

pub const LEVEL_6_MAP: &'static str = " . . . . . . . . . .\
    .##################.\
    .LD              ##.\
    .##              ##.\
    .##      S0      ##.\
    .##  >>>>>>>>##  ##.\
    .##          S1  RD.\
    .##################.";

pub const LEVEL_6_SIGN_0: Message = "Ready, set...";

pub const LEVEL_6_SIGN_1: Message = "GO!";

pub const LEVEL_7_MAP: &'static str = " . . . . . . . . . .\
    .##################.\
    .LD  S0  S1  S2  ##.\
    .##              ##.\
    .##              ##.\
    .##  >>>>##>>>>  ##.\
    .##      S3      RD.\
    .##################.";

pub const LEVEL_7_SIGN_0: Message = "If you time yourself correctly, you can\n\
    control the number of spinies which appear\n\
    on either side.\n\
    \n\
    But how spinies can there be in a gap of\n\
    that size for you to be able to get through?";

pub const LEVEL_7_SIGN_1: Message = "Hint: the answer is in Level 5.";

pub const LEVEL_7_SIGN_2: Message = "Going to Level 5 will also re-synchronize\n\
    the spinies, which will make this easier.";

pub const LEVEL_7_SIGN_3: Message = "Congratulations! It's more luck than skill,\n\
    I know :(";

pub const LEVEL_8_MAP: &'static str = " . . . . . . . . . .\
    .##################.\
    .LD              ##.\
    .##              ##.\
    .##      S0      ##.\
    .##              ##.\
    .##              RD.\
    .##################.";

pub const LEVEL_8_SIGN_0: Message = "Almost there...";

pub const LEVEL_9_MAP: &'static str = " . . . . . . . . . .\
    .##################.\
    .LD              ##.\
    .##          ##  ##.\
    .##          vv  ##.\
    .##>>>>>>>>>>    ##.\
    .##              RD.\
    .##################.";

pub const LEVEL_10_MAP: &'static str = " . . . . . . . . . .\
    .##################.\
    .LD          ##  ##.\
    .##          ##  ##.\
    .##          vv  ##.\
    .##  >>>>>>>>    ##.\
    .##              RD.\
    .##################.";

pub const LEVEL_11_MAP: &'static str = " . . . . . . . . . .\
    .##################.\
    .LD              ##.\
    .##              ##.\
    .##      S0      ##.\
    .##              ##.\
    .##              RD.\
    .##################.";

pub const LEVEL_11_SIGN_0: Message = "Same thing, with only one slight difference...";

pub const LEVEL_12_MAP: &'static str = " . . . . . . . . . .\
    .##################.\
    .LD              ##.\
    .##          ##  ##.\
    .##          vv  ##.\
    .##vv>>>>>>>>    ##.\
    .##          ##  RD.\
    .##################.";

pub const LEVEL_13_MAP: &'static str = " . . . . . . . . . .\
    .##################.\
    .LD          ##  ##.\
    .##          ##  ##.\
    .##          vv  ##.\
    .##vv>>>>>>>>    ##.\
    .##              RD.\
    .##################.";

pub open spec fn level_map(level_number: LevelNumber) -> &'static str {
    match level_number {
        1 => LEVEL_1_MAP,
        2 => LEVEL_2_MAP,
        3 => LEVEL_3_MAP,
        4 => LEVEL_4_MAP,
        5 => LEVEL_5_MAP,
        6 => LEVEL_6_MAP,
        7 => LEVEL_7_MAP,
        8 => LEVEL_8_MAP,
        9 => LEVEL_9_MAP,
        10 => LEVEL_10_MAP,
        11 => LEVEL_11_MAP,
        12 => LEVEL_12_MAP,
        13 => LEVEL_13_MAP,
        _ => "",
    }
}

pub open spec fn level_signs(level_number: LevelNumber) -> Seq<Message> {
    match level_number {
        1 => seq![LEVEL_1_SIGN_0],
        2 => seq![LEVEL_2_SIGN_0],
        3 => seq![LEVEL_3_SIGN_0],
        4 => seq![LEVEL_4_SIGN_0, LEVEL_4_SIGN_1],
        5 => seq![LEVEL_5_SIGN_0],
        6 => seq![LEVEL_6_SIGN_0, LEVEL_6_SIGN_1],
        7 => seq![LEVEL_7_SIGN_0, LEVEL_7_SIGN_1, LEVEL_7_SIGN_2, LEVEL_7_SIGN_3],
        8 => seq![LEVEL_8_SIGN_0],
        9 => seq![],
        10 => seq![],
        11 => seq![LEVEL_11_SIGN_0],
        12 => seq![],
        13 => seq![],
        _ => seq![],
    }
}

} // verus!
