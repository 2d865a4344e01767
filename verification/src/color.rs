//! The intensity and color mappers: fixed lookup tables from an escape
//! count or an estimated period to a greyscale byte or an RGB triple.

use vstd::prelude::*;

verus! {

/// An 8-bit-per-channel RGB pixel.
#[derive(Clone, Copy, PartialEq, Eq, Structural, Debug)]
pub struct Rgb {
    pub r: u8,
    pub g: u8,
    pub b: u8,
}

/// The greyscale byte for an escaped point: `limit - count`, so a point
/// that escapes sooner is darker.
pub open spec fn escape_shade(count: nat, limit: nat) -> u8
    recommends
        count < limit <= 255,
{
    (limit - count) as u8
}

/// The fixed greyscale byte for an interior point of estimated period `p`.
/// Period zero — member, period undetermined — has its own dedicated shade,
/// and every period at or beyond twelve shares one overflow shade.
pub open spec fn period_shade(p: nat) -> u8 {
    if p == 0 {
        210
    } else if p == 1 {
        0
    } else if p == 2 {
        50
    } else if p == 3 {
        100
    } else if p == 4 {
        120
    } else if p == 5 {
        130
    } else if p == 6 {
        140
    } else if p == 7 {
        150
    } else if p == 8 {
        160
    } else if p == 9 {
        170
    } else if p == 10 {
        180
    } else if p == 11 {
        190
    } else {
        200
    }
}

/// The fixed RGB triple for an interior point of estimated period `p`.
/// Thirty-one explicit entries; every period at or beyond thirty-one is
/// mapped to black.
pub open spec fn period_color(p: nat) -> Rgb {
    if p == 0 {
        (Rgb { r: 24, g: 25, b: 41 })
    } else if p == 1 {
        (Rgb { r: 61, g: 64, b: 105 })
    } else if p == 2 {
        (Rgb { r: 38, g: 63, b: 143 })
    } else if p == 3 {
        (Rgb { r: 0, g: 127, b: 150 })
    } else if p == 4 {
        (Rgb { r: 0, g: 160, b: 132 })
    } else if p == 5 {
        (Rgb { r: 0, g: 144, b: 69 })
    } else if p == 6 {
        (Rgb { r: 0, g: 184, b: 0 })
    } else if p == 7 {
        (Rgb { r: 131, g: 206, b: 0 })
    } else if p == 8 {
        (Rgb { r: 139, g: 235, b: 0 })
    } else if p == 9 {
        (Rgb { r: 255, g: 249, b: 0 })
    } else if p == 10 {
        (Rgb { r: 252, g: 200, b: 0 })
    } else if p == 11 {
        (Rgb { r: 250, g: 120, b: 2 })
    } else if p == 12 {
        (Rgb { r: 241, g: 56, b: 1 })
    } else if p == 13 {
        (Rgb { r: 255, g: 15, b: 15 })
    } else if p == 14 {
        (Rgb { r: 233, g: 0, b: 65 })
    } else if p == 15 {
        (Rgb { r: 179, g: 0, b: 96 })
    } else if p == 16 {
        (Rgb { r: 148, g: 1, b: 146 })
    } else if p == 17 {
        (Rgb { r: 97, g: 0, b: 141 })
    } else if p == 18 {
        (Rgb { r: 63, g: 3, b: 110 })
    } else if p == 19 {
        (Rgb { r: 2, g: 2, b: 97 })
    } else if p == 20 {
        (Rgb { r: 4, g: 46, b: 116 })
    } else if p == 21 {
        (Rgb { r: 0, g: 66, b: 66 })
    } else if p == 22 {
        (Rgb { r: 10, g: 80, b: 27 })
    } else if p == 23 {
        (Rgb { r: 17, g: 83, b: 14 })
    } else if p == 24 {
        (Rgb { r: 29, g: 95, b: 2 })
    } else if p == 25 {
        (Rgb { r: 75, g: 79, b: 7 })
    } else if p == 26 {
        (Rgb { r: 83, g: 62, b: 3 })
    } else if p == 27 {
        (Rgb { r: 76, g: 45, b: 5 })
    } else if p == 28 {
        (Rgb { r: 35, g: 16, b: 8 })
    } else if p == 29 {
        (Rgb { r: 31, g: 15, b: 10 })
    } else if p == 30 {
        (Rgb { r: 41, g: 29, b: 24 })
    } else {
        (Rgb { r: 0, g: 0, b: 0 })
    }
}

/// The greyscale byte for a point that escaped after `count` of at most
/// `limit` iterations.
pub fn escape_to_shade(count: usize, limit: usize) -> (r: u8)
    requires
        count < limit <= 255,
    ensures
        r == escape_shade(count as nat, limit as nat),
{
    (limit - count) as u8
}

/// The greyscale byte for an interior point of estimated period `p`.
pub fn period_to_shade(p: usize) -> (r: u8)
    ensures
        r == period_shade(p as nat),
{
    match p {
        0 => 210,
        1 => 0,
        2 => 50,
        3 => 100,
        4 => 120,
        5 => 130,
        6 => 140,
        7 => 150,
        8 => 160,
        9 => 170,
        10 => 180,
        11 => 190,
        _ => 200,
    }
}

/// The RGB triple for an interior point of estimated period `p`.
pub fn period_to_color(p: usize) -> (r: Rgb)
    ensures
        r == period_color(p as nat),
{
    match p {
        0 => Rgb { r: 24, g: 25, b: 41 },
        1 => Rgb { r: 61, g: 64, b: 105 },
        2 => Rgb { r: 38, g: 63, b: 143 },
        3 => Rgb { r: 0, g: 127, b: 150 },
        4 => Rgb { r: 0, g: 160, b: 132 },
        5 => Rgb { r: 0, g: 144, b: 69 },
        6 => Rgb { r: 0, g: 184, b: 0 },
        7 => Rgb { r: 131, g: 206, b: 0 },
        8 => Rgb { r: 139, g: 235, b: 0 },
        9 => Rgb { r: 255, g: 249, b: 0 },
        10 => Rgb { r: 252, g: 200, b: 0 },
        11 => Rgb { r: 250, g: 120, b: 2 },
        12 => Rgb { r: 241, g: 56, b: 1 },
        13 => Rgb { r: 255, g: 15, b: 15 },
        14 => Rgb { r: 233, g: 0, b: 65 },
        15 => Rgb { r: 179, g: 0, b: 96 },
        16 => Rgb { r: 148, g: 1, b: 146 },
        17 => Rgb { r: 97, g: 0, b: 141 },
        18 => Rgb { r: 63, g: 3, b: 110 },
        19 => Rgb { r: 2, g: 2, b: 97 },
        20 => Rgb { r: 4, g: 46, b: 116 },
        21 => Rgb { r: 0, g: 66, b: 66 },
        22 => Rgb { r: 10, g: 80, b: 27 },
        23 => Rgb { r: 17, g: 83, b: 14 },
        24 => Rgb { r: 29, g: 95, b: 2 },
        25 => Rgb { r: 75, g: 79, b: 7 },
        26 => Rgb { r: 83, g: 62, b: 3 },
        27 => Rgb { r: 76, g: 45, b: 5 },
        28 => Rgb { r: 35, g: 16, b: 8 },
        29 => Rgb { r: 31, g: 15, b: 10 },
        30 => Rgb { r: 41, g: 29, b: 24 },
        _ => Rgb { r: 0, g: 0, b: 0 },
    }
}

} // verus!
