//! Fixed-point lookup tables for the sampled shapes.  Angles are sampled
//! at the steps the shapes use (ten-degree steps for the round shapes,
//! thirty-six-degree steps for the star), and every entry is the sampled
//! value scaled to micro-pixels per pixel of pattern size, rounded to the
//! nearest integer.  Multiplying an entry by a size in whole pixels yields
//! a coordinate in micro-pixels.

use vstd::prelude::*;

verus! {


/// `cos(k * 10 degrees) / 2`, scaled by one million.
pub open spec fn cos_half(k: int) -> int
    recommends
        0 <= k < 36,
{
    if k == 0 {
        500000
    } else if k == 1 {
        492404
    } else if k == 2 {
        469846
    } else if k == 3 {
        433013
    } else if k == 4 {
        383022
    } else if k == 5 {
        321394
    } else if k == 6 {
        250000
    } else if k == 7 {
        171010
    } else if k == 8 {
        86824
    } else if k == 9 {
        0
    } else if k == 10 {
        -86824
    } else if k == 11 {
        -171010
    } else if k == 12 {
        -250000
    } else if k == 13 {
        -321394
    } else if k == 14 {
        -383022
    } else if k == 15 {
        -433013
    } else if k == 16 {
        -469846
    } else if k == 17 {
        -492404
    } else if k == 18 {
        -500000
    } else if k == 19 {
        -492404
    } else if k == 20 {
        -469846
    } else if k == 21 {
        -433013
    } else if k == 22 {
        -383022
    } else if k == 23 {
        -321394
    } else if k == 24 {
        -250000
    } else if k == 25 {
        -171010
    } else if k == 26 {
        -86824
    } else if k == 27 {
        0
    } else if k == 28 {
        86824
    } else if k == 29 {
        171010
    } else if k == 30 {
        250000
    } else if k == 31 {
        321394
    } else if k == 32 {
        383022
    } else if k == 33 {
        433013
    } else if k == 34 {
        469846
    } else {
        492404
    }
}

/// `sin(k * 10 degrees) / 2`, scaled by one million.
pub open spec fn sin_half(k: int) -> int
    recommends
        0 <= k < 36,
{
    if k == 0 {
        0
    } else if k == 1 {
        86824
    } else if k == 2 {
        171010
    } else if k == 3 {
        250000
    } else if k == 4 {
        321394
    } else if k == 5 {
        383022
    } else if k == 6 {
        433013
    } else if k == 7 {
        469846
    } else if k == 8 {
        492404
    } else if k == 9 {
        500000
    } else if k == 10 {
        492404
    } else if k == 11 {
        469846
    } else if k == 12 {
        433013
    } else if k == 13 {
        383022
    } else if k == 14 {
        321394
    } else if k == 15 {
        250000
    } else if k == 16 {
        171010
    } else if k == 17 {
        86824
    } else if k == 18 {
        0
    } else if k == 19 {
        -86824
    } else if k == 20 {
        -171010
    } else if k == 21 {
        -250000
    } else if k == 22 {
        -321394
    } else if k == 23 {
        -383022
    } else if k == 24 {
        -433013
    } else if k == 25 {
        -469846
    } else if k == 26 {
        -492404
    } else if k == 27 {
        -500000
    } else if k == 28 {
        -492404
    } else if k == 29 {
        -469846
    } else if k == 30 {
        -433013
    } else if k == 31 {
        -383022
    } else if k == 32 {
        -321394
    } else if k == 33 {
        -250000
    } else if k == 34 {
        -171010
    } else {
        -86824
    }
}

/// `sin(k * 20 degrees) / 4`, scaled by one million.
pub open spec fn sin_double_quarter(k: int) -> int
    recommends
        0 <= k < 36,
{
    if k == 0 {
        0
    } else if k == 1 {
        85505
    } else if k == 2 {
        160697
    } else if k == 3 {
        216506
    } else if k == 4 {
        246202
    } else if k == 5 {
        246202
    } else if k == 6 {
        216506
    } else if k == 7 {
        160697
    } else if k == 8 {
        85505
    } else if k == 9 {
        0
    } else if k == 10 {
        -85505
    } else if k == 11 {
        -160697
    } else if k == 12 {
        -216506
    } else if k == 13 {
        -246202
    } else if k == 14 {
        -246202
    } else if k == 15 {
        -216506
    } else if k == 16 {
        -160697
    } else if k == 17 {
        -85505
    } else if k == 18 {
        0
    } else if k == 19 {
        85505
    } else if k == 20 {
        160697
    } else if k == 21 {
        216506
    } else if k == 22 {
        246202
    } else if k == 23 {
        246202
    } else if k == 24 {
        216506
    } else if k == 25 {
        160697
    } else if k == 26 {
        85505
    } else if k == 27 {
        0
    } else if k == 28 {
        -85505
    } else if k == 29 {
        -160697
    } else if k == 30 {
        -216506
    } else if k == 31 {
        -246202
    } else if k == 32 {
        -246202
    } else if k == 33 {
        -216506
    } else if k == 34 {
        -160697
    } else {
        -85505
    }
}

/// Horizontal coordinate of star vertex `k`: the vertices sit at
/// thirty-six-degree steps starting straight up, on an outer radius of
/// half the size for even `k` and an inner radius of four tenths of that
/// for odd `k`.  Scaled by one million.
pub open spec fn star_x(k: int) -> int
    recommends
        0 <= k < 10,
{
    if k == 0 {
        0
    } else if k == 1 {
        117557
    } else if k == 2 {
        475528
    } else if k == 3 {
        190211
    } else if k == 4 {
        293893
    } else if k == 5 {
        0
    } else if k == 6 {
        -293893
    } else if k == 7 {
        -190211
    } else if k == 8 {
        -475528
    } else {
        -117557
    }
}

/// Vertical coordinate of star vertex `k`; see `star_x`.
pub open spec fn star_y(k: int) -> int
    recommends
        0 <= k < 10,
{
    if k == 0 {
        -500000
    } else if k == 1 {
        -161803
    } else if k == 2 {
        -154508
    } else if k == 3 {
        61803
    } else if k == 4 {
        404508
    } else if k == 5 {
        200000
    } else if k == 6 {
        404508
    } else if k == 7 {
        61803
    } else if k == 8 {
        -154508
    } else {
        -161803
    }
}

/// Table lookup for `cos_half`.
pub fn cos_half_val(k: usize) -> (r: i64)
    requires
        k < 36,
    ensures
        r as int == cos_half(k as int),
        -500000 <= r <= 500000,
{
    match k {
        0 => 500000,
        1 => 492404,
        2 => 469846,
        3 => 433013,
        4 => 383022,
        5 => 321394,
        6 => 250000,
        7 => 171010,
        8 => 86824,
        9 => 0,
        10 => -86824,
        11 => -171010,
        12 => -250000,
        13 => -321394,
        14 => -383022,
        15 => -433013,
        16 => -469846,
        17 => -492404,
        18 => -500000,
        19 => -492404,
        20 => -469846,
        21 => -433013,
        22 => -383022,
        23 => -321394,
        24 => -250000,
        25 => -171010,
        26 => -86824,
        27 => 0,
        28 => 86824,
        29 => 171010,
        30 => 250000,
        31 => 321394,
        32 => 383022,
        33 => 433013,
        34 => 469846,
        _ => 492404,
    }
}

/// Table lookup for `sin_half`.
pub fn sin_half_val(k: usize) -> (r: i64)
    requires
        k < 36,
    ensures
        r as int == sin_half(k as int),
        -500000 <= r <= 500000,
{
    match k {
        0 => 0,
        1 => 86824,
        2 => 171010,
        3 => 250000,
        4 => 321394,
        5 => 383022,
        6 => 433013,
        7 => 469846,
        8 => 492404,
        9 => 500000,
        10 => 492404,
        11 => 469846,
        12 => 433013,
        13 => 383022,
        14 => 321394,
        15 => 250000,
        16 => 171010,
        17 => 86824,
        18 => 0,
        19 => -86824,
        20 => -171010,
        21 => -250000,
        22 => -321394,
        23 => -383022,
        24 => -433013,
        25 => -469846,
        26 => -492404,
        27 => -500000,
        28 => -492404,
        29 => -469846,
        30 => -433013,
        31 => -383022,
        32 => -321394,
        33 => -250000,
        34 => -171010,
        _ => -86824,
    }
}

/// Table lookup for `sin_double_quarter`.
pub fn sin_double_quarter_val(k: usize) -> (r: i64)
    requires
        k < 36,
    ensures
        r as int == sin_double_quarter(k as int),
        -250000 <= r <= 250000,
{
    match k {
        0 => 0,
        1 => 85505,
        2 => 160697,
        3 => 216506,
        4 => 246202,
        5 => 246202,
        6 => 216506,
        7 => 160697,
        8 => 85505,
        9 => 0,
        10 => -85505,
        11 => -160697,
        12 => -216506,
        13 => -246202,
        14 => -246202,
        15 => -216506,
        16 => -160697,
        17 => -85505,
        18 => 0,
        19 => 85505,
        20 => 160697,
        21 => 216506,
        22 => 246202,
        23 => 246202,
        24 => 216506,
        25 => 160697,
        26 => 85505,
        27 => 0,
        28 => -85505,
        29 => -160697,
        30 => -216506,
        31 => -246202,
        32 => -246202,
        33 => -216506,
        34 => -160697,
        _ => -85505,
    }
}

/// Table lookup for `star_x`.
pub fn star_x_val(k: usize) -> (r: i64)
    requires
        k < 10,
    ensures
        r as int == star_x(k as int),
        -500000 <= r <= 500000,
{
    match k {
        0 => 0,
        1 => 117557,
        2 => 475528,
        3 => 190211,
        4 => 293893,
        5 => 0,
        6 => -293893,
        7 => -190211,
        8 => -475528,
        _ => -117557,
    }
}

/// Table lookup for `star_y`.
pub fn star_y_val(k: usize) -> (r: i64)
    requires
        k < 10,
    ensures
        r as int == star_y(k as int),
        -500000 <= r <= 500000,
{
    match k {
        0 => -500000,
        1 => -161803,
        2 => -154508,
        3 => 61803,
        4 => 404508,
        5 => 200000,
        6 => 404508,
        7 => 61803,
        8 => -154508,
        _ => -161803,
    }
}

} // verus!
