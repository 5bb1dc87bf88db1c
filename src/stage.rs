use vstd::prelude::*;
use crate::watcher::Watchable;

verus! {

/// Number of stages of the story, and of entries in the key table.
pub const STAGE_COUNT: usize = 49;

/// One checkpoint of the story, in order of progression.
#[derive(Clone, Copy, Debug, PartialEq, Eq, Hash, Structural)]
pub enum StageID {
    Chapter1_1,
    Chapter1_2,
    Chapter1_3,
    Chapter1_4,
    Chapter2_1,
    Chapter2_2,
    Chapter2_3,
    Chapter2_4,
    Chapter2_5,
    Chapter3_1,
    Chapter3_2,
    Chapter3_3,
    Chapter3_4,
    Chapter3_5,
    Chapter3_6,
    Chapter4_1,
    Chapter4_2,
    Chapter4_3,
    Chapter4_4,
    Chapter4_5,
    Chapter5_1,
    Chapter5_2,
    Chapter5_3,
    Chapter5_4,
    Chapter5_5,
    Chapter6_1,
    Chapter6_2,
    Chapter6_3,
    Chapter6_4,
    Chapter6_5,
    Chapter7_1,
    Chapter7_2,
    Chapter7_3,
    Chapter7_4,
    Chapter8_1,
    Chapter8_2,
    Chapter8_3,
    Chapter8_4,
    Chapter8_5,
    Chapter9_1,
    Chapter9_2,
    Chapter9_3,
    Chapter9_4,
    Chapter10_1,
    Chapter10_2,
    Chapter10_3,
    Chapter10_4,
    Chapter10_5,
    Chapter10_6,
}

impl Watchable for StageID {
    fn same(&self, other: &StageID) -> (r: bool) {
        *self == *other
    }
}

/// The position of a stage in the story, from 0.
pub open spec fn stage_index(s: StageID) -> int {
    match s {
        StageID::Chapter1_1 => 0,
        StageID::Chapter1_2 => 1,
        StageID::Chapter1_3 => 2,
        StageID::Chapter1_4 => 3,
        StageID::Chapter2_1 => 4,
        StageID::Chapter2_2 => 5,
        StageID::Chapter2_3 => 6,
        StageID::Chapter2_4 => 7,
        StageID::Chapter2_5 => 8,
        StageID::Chapter3_1 => 9,
        StageID::Chapter3_2 => 10,
        StageID::Chapter3_3 => 11,
        StageID::Chapter3_4 => 12,
        StageID::Chapter3_5 => 13,
        StageID::Chapter3_6 => 14,
        StageID::Chapter4_1 => 15,
        StageID::Chapter4_2 => 16,
        StageID::Chapter4_3 => 17,
        StageID::Chapter4_4 => 18,
        StageID::Chapter4_5 => 19,
        StageID::Chapter5_1 => 20,
        StageID::Chapter5_2 => 21,
        StageID::Chapter5_3 => 22,
        StageID::Chapter5_4 => 23,
        StageID::Chapter5_5 => 24,
        StageID::Chapter6_1 => 25,
        StageID::Chapter6_2 => 26,
        StageID::Chapter6_3 => 27,
        StageID::Chapter6_4 => 28,
        StageID::Chapter6_5 => 29,
        StageID::Chapter7_1 => 30,
        StageID::Chapter7_2 => 31,
        StageID::Chapter7_3 => 32,
        StageID::Chapter7_4 => 33,
        StageID::Chapter8_1 => 34,
        StageID::Chapter8_2 => 35,
        StageID::Chapter8_3 => 36,
        StageID::Chapter8_4 => 37,
        StageID::Chapter8_5 => 38,
        StageID::Chapter9_1 => 39,
        StageID::Chapter9_2 => 40,
        StageID::Chapter9_3 => 41,
        StageID::Chapter9_4 => 42,
        StageID::Chapter10_1 => 43,
        StageID::Chapter10_2 => 44,
        StageID::Chapter10_3 => 45,
        StageID::Chapter10_4 => 46,
        StageID::Chapter10_5 => 47,
        StageID::Chapter10_6 => 48,
    }
}

/// The stage at position `i` of the story.
pub open spec fn stage_at_index(i: int) -> StageID
    recommends
        0 <= i < STAGE_COUNT,
{
    if i == 0 {
        StageID::Chapter1_1
    } else if i == 1 {
        StageID::Chapter1_2
    } else if i == 2 {
        StageID::Chapter1_3
    } else if i == 3 {
        StageID::Chapter1_4
    } else if i == 4 {
        StageID::Chapter2_1
    } else if i == 5 {
        StageID::Chapter2_2
    } else if i == 6 {
        StageID::Chapter2_3
    } else if i == 7 {
        StageID::Chapter2_4
    } else if i == 8 {
        StageID::Chapter2_5
    } else if i == 9 {
        StageID::Chapter3_1
    } else if i == 10 {
        StageID::Chapter3_2
    } else if i == 11 {
        StageID::Chapter3_3
    } else if i == 12 {
        StageID::Chapter3_4
    } else if i == 13 {
        StageID::Chapter3_5
    } else if i == 14 {
        StageID::Chapter3_6
    } else if i == 15 {
        StageID::Chapter4_1
    } else if i == 16 {
        StageID::Chapter4_2
    } else if i == 17 {
        StageID::Chapter4_3
    } else if i == 18 {
        StageID::Chapter4_4
    } else if i == 19 {
        StageID::Chapter4_5
    } else if i == 20 {
        StageID::Chapter5_1
    } else if i == 21 {
        StageID::Chapter5_2
    } else if i == 22 {
        StageID::Chapter5_3
    } else if i == 23 {
        StageID::Chapter5_4
    } else if i == 24 {
        StageID::Chapter5_5
    } else if i == 25 {
        StageID::Chapter6_1
    } else if i == 26 {
        StageID::Chapter6_2
    } else if i == 27 {
        StageID::Chapter6_3
    } else if i == 28 {
        StageID::Chapter6_4
    } else if i == 29 {
        StageID::Chapter6_5
    } else if i == 30 {
        StageID::Chapter7_1
    } else if i == 31 {
        StageID::Chapter7_2
    } else if i == 32 {
        StageID::Chapter7_3
    } else if i == 33 {
        StageID::Chapter7_4
    } else if i == 34 {
        StageID::Chapter8_1
    } else if i == 35 {
        StageID::Chapter8_2
    } else if i == 36 {
        StageID::Chapter8_3
    } else if i == 37 {
        StageID::Chapter8_4
    } else if i == 38 {
        StageID::Chapter8_5
    } else if i == 39 {
        StageID::Chapter9_1
    } else if i == 40 {
        StageID::Chapter9_2
    } else if i == 41 {
        StageID::Chapter9_3
    } else if i == 42 {
        StageID::Chapter9_4
    } else if i == 43 {
        StageID::Chapter10_1
    } else if i == 44 {
        StageID::Chapter10_2
    } else if i == 45 {
        StageID::Chapter10_3
    } else if i == 46 {
        StageID::Chapter10_4
    } else if i == 47 {
        StageID::Chapter10_5
    } else {
        StageID::Chapter10_6
    }
}

/// The path component that the game uses for a stage.
pub open spec fn stage_key(s: StageID) -> Seq<u8> {
    match s {
        StageID::Chapter1_1 => seq![49, 95, 49],
        StageID::Chapter1_2 => seq![49, 95, 53],
        StageID::Chapter1_3 => seq![50, 95, 50],
        StageID::Chapter1_4 => seq![50, 95, 49],
        StageID::Chapter2_1 => seq![50, 95, 51, 65],
        StageID::Chapter2_2 => seq![50, 95, 51, 66],
        StageID::Chapter2_3 => seq![50, 95, 52],
        StageID::Chapter2_4 => seq![50, 95, 53],
        StageID::Chapter2_5 => seq![50, 95, 54],
        StageID::Chapter3_1 => seq![51, 95, 49],
        StageID::Chapter3_2 => seq![51, 95, 50],
        StageID::Chapter3_3 => seq![51, 95, 51],
        StageID::Chapter3_4 => seq![51, 95, 52, 49],
        StageID::Chapter3_5 => seq![51, 95, 53],
        StageID::Chapter3_6 => seq![51, 95, 53, 49],
        StageID::Chapter4_1 => seq![52, 95, 51, 65],
        StageID::Chapter4_2 => seq![52, 95, 49],
        StageID::Chapter4_3 => seq![53, 95, 49],
        StageID::Chapter4_4 => seq![53, 95, 50],
        StageID::Chapter4_5 => seq![53, 95, 51],
        StageID::Chapter5_1 => seq![54, 95, 49],
        StageID::Chapter5_2 => seq![54, 95, 50],
        StageID::Chapter5_3 => seq![54, 95, 50, 49],
        StageID::Chapter5_4 => seq![54, 95, 50, 50],
        StageID::Chapter5_5 => seq![54, 95, 51],
        StageID::Chapter6_1 => seq![57, 95, 48],
        StageID::Chapter6_2 => seq![57, 95, 49],
        StageID::Chapter6_3 => seq![57, 95, 50, 49],
        StageID::Chapter6_4 => seq![57, 95, 50, 50],
        StageID::Chapter6_5 => seq![57, 95, 51],
        StageID::Chapter7_1 => seq![49, 48, 95, 49],
        StageID::Chapter7_2 => seq![49, 48, 95, 50],
        StageID::Chapter7_3 => seq![49, 48, 95, 51],
        StageID::Chapter7_4 => seq![49, 48, 95, 51, 49],
        StageID::Chapter8_1 => seq![49, 49, 95, 48],
        StageID::Chapter8_2 => seq![49, 49, 95, 49, 49],
        StageID::Chapter8_3 => seq![49, 49, 95, 50],
        StageID::Chapter8_4 => seq![49, 49, 95, 51],
        StageID::Chapter8_5 => seq![49, 49, 95, 52],
        StageID::Chapter9_1 => seq![49, 50, 95, 49],
        StageID::Chapter9_2 => seq![49, 50, 95, 50],
        StageID::Chapter9_3 => seq![49, 50, 95, 51, 49],
        StageID::Chapter9_4 => seq![49, 50, 95, 51, 50],
        StageID::Chapter10_1 => seq![49, 51, 95, 49],
        StageID::Chapter10_2 => seq![49, 51, 95, 50],
        StageID::Chapter10_3 => seq![49, 51, 95, 51],
        StageID::Chapter10_4 => seq![49, 51, 95, 51, 49],
        StageID::Chapter10_5 => seq![49, 51, 95, 52],
        StageID::Chapter10_6 => seq![49, 51, 95, 52, 49],
    }
}

impl StageID {
    /// The position of this stage in the story, from 0.
    pub fn index(&self) -> (r: usize)
        ensures
            r == stage_index(*self),
            r < STAGE_COUNT,
    {
        match self {
            StageID::Chapter1_1 => 0,
            StageID::Chapter1_2 => 1,
            StageID::Chapter1_3 => 2,
            StageID::Chapter1_4 => 3,
            StageID::Chapter2_1 => 4,
            StageID::Chapter2_2 => 5,
            StageID::Chapter2_3 => 6,
            StageID::Chapter2_4 => 7,
            StageID::Chapter2_5 => 8,
            StageID::Chapter3_1 => 9,
            StageID::Chapter3_2 => 10,
            StageID::Chapter3_3 => 11,
            StageID::Chapter3_4 => 12,
            StageID::Chapter3_5 => 13,
            StageID::Chapter3_6 => 14,
            StageID::Chapter4_1 => 15,
            StageID::Chapter4_2 => 16,
            StageID::Chapter4_3 => 17,
            StageID::Chapter4_4 => 18,
            StageID::Chapter4_5 => 19,
            StageID::Chapter5_1 => 20,
            StageID::Chapter5_2 => 21,
            StageID::Chapter5_3 => 22,
            StageID::Chapter5_4 => 23,
            StageID::Chapter5_5 => 24,
            StageID::Chapter6_1 => 25,
            StageID::Chapter6_2 => 26,
            StageID::Chapter6_3 => 27,
            StageID::Chapter6_4 => 28,
            StageID::Chapter6_5 => 29,
            StageID::Chapter7_1 => 30,
            StageID::Chapter7_2 => 31,
            StageID::Chapter7_3 => 32,
            StageID::Chapter7_4 => 33,
            StageID::Chapter8_1 => 34,
            StageID::Chapter8_2 => 35,
            StageID::Chapter8_3 => 36,
            StageID::Chapter8_4 => 37,
            StageID::Chapter8_5 => 38,
            StageID::Chapter9_1 => 39,
            StageID::Chapter9_2 => 40,
            StageID::Chapter9_3 => 41,
            StageID::Chapter9_4 => 42,
            StageID::Chapter10_1 => 43,
            StageID::Chapter10_2 => 44,
            StageID::Chapter10_3 => 45,
            StageID::Chapter10_4 => 46,
            StageID::Chapter10_5 => 47,
            StageID::Chapter10_6 => 48,
        }
    }

    /// The stage at position `i` of the story.
    pub fn from_index(i: usize) -> (r: StageID)
        requires
            i < STAGE_COUNT,
        ensures
            r == stage_at_index(i as int),
            stage_index(r) == i,
    {
        match i {
            0 => StageID::Chapter1_1,
            1 => StageID::Chapter1_2,
            2 => StageID::Chapter1_3,
            3 => StageID::Chapter1_4,
            4 => StageID::Chapter2_1,
            5 => StageID::Chapter2_2,
            6 => StageID::Chapter2_3,
            7 => StageID::Chapter2_4,
            8 => StageID::Chapter2_5,
            9 => StageID::Chapter3_1,
            10 => StageID::Chapter3_2,
            11 => StageID::Chapter3_3,
            12 => StageID::Chapter3_4,
            13 => StageID::Chapter3_5,
            14 => StageID::Chapter3_6,
            15 => StageID::Chapter4_1,
            16 => StageID::Chapter4_2,
            17 => StageID::Chapter4_3,
            18 => StageID::Chapter4_4,
            19 => StageID::Chapter4_5,
            20 => StageID::Chapter5_1,
            21 => StageID::Chapter5_2,
            22 => StageID::Chapter5_3,
            23 => StageID::Chapter5_4,
            24 => StageID::Chapter5_5,
            25 => StageID::Chapter6_1,
            26 => StageID::Chapter6_2,
            27 => StageID::Chapter6_3,
            28 => StageID::Chapter6_4,
            29 => StageID::Chapter6_5,
            30 => StageID::Chapter7_1,
            31 => StageID::Chapter7_2,
            32 => StageID::Chapter7_3,
            33 => StageID::Chapter7_4,
            34 => StageID::Chapter8_1,
            35 => StageID::Chapter8_2,
            36 => StageID::Chapter8_3,
            37 => StageID::Chapter8_4,
            38 => StageID::Chapter8_5,
            39 => StageID::Chapter9_1,
            40 => StageID::Chapter9_2,
            41 => StageID::Chapter9_3,
            42 => StageID::Chapter9_4,
            43 => StageID::Chapter10_1,
            44 => StageID::Chapter10_2,
            45 => StageID::Chapter10_3,
            46 => StageID::Chapter10_4,
            47 => StageID::Chapter10_5,
            _ => StageID::Chapter10_6,
        }
    }

    /// The path component that the game uses for this stage.
    pub fn key(&self) -> (r: Vec<u8>)
        ensures
            r@ == stage_key(*self),
    {
        match self {
            StageID::Chapter1_1 => vec![49, 95, 49],
            StageID::Chapter1_2 => vec![49, 95, 53],
            StageID::Chapter1_3 => vec![50, 95, 50],
            StageID::Chapter1_4 => vec![50, 95, 49],
            StageID::Chapter2_1 => vec![50, 95, 51, 65],
            StageID::Chapter2_2 => vec![50, 95, 51, 66],
            StageID::Chapter2_3 => vec![50, 95, 52],
            StageID::Chapter2_4 => vec![50, 95, 53],
            StageID::Chapter2_5 => vec![50, 95, 54],
            StageID::Chapter3_1 => vec![51, 95, 49],
            StageID::Chapter3_2 => vec![51, 95, 50],
            StageID::Chapter3_3 => vec![51, 95, 51],
            StageID::Chapter3_4 => vec![51, 95, 52, 49],
            StageID::Chapter3_5 => vec![51, 95, 53],
            StageID::Chapter3_6 => vec![51, 95, 53, 49],
            StageID::Chapter4_1 => vec![52, 95, 51, 65],
            StageID::Chapter4_2 => vec![52, 95, 49],
            StageID::Chapter4_3 => vec![53, 95, 49],
            StageID::Chapter4_4 => vec![53, 95, 50],
            StageID::Chapter4_5 => vec![53, 95, 51],
            StageID::Chapter5_1 => vec![54, 95, 49],
            StageID::Chapter5_2 => vec![54, 95, 50],
            StageID::Chapter5_3 => vec![54, 95, 50, 49],
            StageID::Chapter5_4 => vec![54, 95, 50, 50],
            StageID::Chapter5_5 => vec![54, 95, 51],
            StageID::Chapter6_1 => vec![57, 95, 48],
            StageID::Chapter6_2 => vec![57, 95, 49],
            StageID::Chapter6_3 => vec![57, 95, 50, 49],
            StageID::Chapter6_4 => vec![57, 95, 50, 50],
            StageID::Chapter6_5 => vec![57, 95, 51],
            StageID::Chapter7_1 => vec![49, 48, 95, 49],
            StageID::Chapter7_2 => vec![49, 48, 95, 50],
            StageID::Chapter7_3 => vec![49, 48, 95, 51],
            StageID::Chapter7_4 => vec![49, 48, 95, 51, 49],
            StageID::Chapter8_1 => vec![49, 49, 95, 48],
            StageID::Chapter8_2 => vec![49, 49, 95, 49, 49],
            StageID::Chapter8_3 => vec![49, 49, 95, 50],
            StageID::Chapter8_4 => vec![49, 49, 95, 51],
            StageID::Chapter8_5 => vec![49, 49, 95, 52],
            StageID::Chapter9_1 => vec![49, 50, 95, 49],
            StageID::Chapter9_2 => vec![49, 50, 95, 50],
            StageID::Chapter9_3 => vec![49, 50, 95, 51, 49],
            StageID::Chapter9_4 => vec![49, 50, 95, 51, 50],
            StageID::Chapter10_1 => vec![49, 51, 95, 49],
            StageID::Chapter10_2 => vec![49, 51, 95, 50],
            StageID::Chapter10_3 => vec![49, 51, 95, 51],
            StageID::Chapter10_4 => vec![49, 51, 95, 51, 49],
            StageID::Chapter10_5 => vec![49, 51, 95, 52],
            StageID::Chapter10_6 => vec![49, 51, 95, 52, 49],
        }
    }
}

} // verus!
