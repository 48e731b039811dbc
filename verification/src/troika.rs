//! The Troika engine: a ternary sponge with a fixed round count.
//!
//! The state is 729 packed trits arranged as 27 slices of 3 rows by 9
//! columns (position `27*slice + 9*row + col`); the rate is the first 243
//! positions. Each permutation call runs 24 rounds; one round is a
//! tryte-wise non-linear substitution, a row rotation, a lane rotation
//! across slices, a column-parity mixing layer, and the addition of a
//! round-indexed ternary constant to the first row of every slice.
//! Absorbing copies each 243-trit chunk over the rate and permutes once
//! per chunk, then leaves the design's padding block (a single one-trit)
//! in the rate; squeezing permutes once before copying the rate out, per
//! chunk. All tables — the S-box, the rotation offsets, and the round
//! constants — are the fixed parameters of the published design.

use vstd::prelude::*;

use crate::codec::{all_utrits, is_utrit};
use crate::{Error, BLOCK_LENGTH};

verus! {

/// The number of trits in the Troika state.
pub const TROIKA_STATE_LENGTH: usize = 729;

/// The number of rounds of one permutation call; fixed by design, not
/// user-configurable.
pub const TROIKA_ROUNDS: usize = 24;

/// The tryte substitution box: a permutation of `0..27`.
pub open spec fn troika_sbox(x: int) -> int {
    if x == 0 {
        6
    } else if x == 1 {
        25
    } else if x == 2 {
        17
    } else if x == 3 {
        5
    } else if x == 4 {
        15
    } else if x == 5 {
        10
    } else if x == 6 {
        4
    } else if x == 7 {
        20
    } else if x == 8 {
        24
    } else if x == 9 {
        0
    } else if x == 10 {
        1
    } else if x == 11 {
        2
    } else if x == 12 {
        9
    } else if x == 13 {
        22
    } else if x == 14 {
        26
    } else if x == 15 {
        18
    } else if x == 16 {
        16
    } else if x == 17 {
        14
    } else if x == 18 {
        3
    } else if x == 19 {
        13
    } else if x == 20 {
        23
    } else if x == 21 {
        7
    } else if x == 22 {
        11
    } else if x == 23 {
        12
    } else if x == 24 {
        8
    } else if x == 25 {
        21
    } else {
        19
    }
}

/// The value of the tryte starting at position `3*k`.
pub open spec fn tryte_at(s: Seq<u8>, k: int) -> int {
    9 * s[3 * k] + 3 * s[3 * k + 1] + s[3 * k + 2]
}

/// The substitution layer: every aligned tryte is replaced by its S-box
/// image, most significant trit first.
pub open spec fn troika_sub(s: Seq<u8>) -> Seq<u8> {
    Seq::new(
        729,
        |i: int|
            {
                let y = troika_sbox(tryte_at(s, i / 3));
                if i % 3 == 0 {
                    (y / 9) as u8
                } else if i % 3 == 1 {
                    ((y / 3) % 3) as u8
                } else {
                    (y % 3) as u8
                }
            },
    )
}

/// How far each row is rotated within its slice.
pub open spec fn row_shift(row: int) -> int {
    if row == 0 {
        0
    } else if row == 1 {
        3
    } else {
        6
    }
}

/// The row rotation: within every slice, row `r` rotates right by
/// `row_shift(r)` columns.
pub open spec fn troika_shift_rows(s: Seq<u8>) -> Seq<u8> {
    Seq::new(
        729,
        |i: int|
            {
                let sl = i / 27;
                let row = (i % 27) / 9;
                let col = i % 9;
                s[27 * sl + 9 * row + (col + 9 - row_shift(row)) % 9]
            },
    )
}

/// How far each of the 27 lanes (one per row and column pair) is rotated
/// along the slice dimension.
pub open spec fn lane_shift(lane: int) -> int {
    if lane == 0 {
        19
    } else if lane == 1 {
        13
    } else if lane == 2 {
        21
    } else if lane == 3 {
        10
    } else if lane == 4 {
        24
    } else if lane == 5 {
        15
    } else if lane == 6 {
        2
    } else if lane == 7 {
        9
    } else if lane == 8 {
        3
    } else if lane == 9 {
        14
    } else if lane == 10 {
        0
    } else if lane == 11 {
        6
    } else if lane == 12 {
        5
    } else if lane == 13 {
        1
    } else if lane == 14 {
        25
    } else if lane == 15 {
        22
    } else if lane == 16 {
        23
    } else if lane == 17 {
        20
    } else if lane == 18 {
        7
    } else if lane == 19 {
        17
    } else if lane == 20 {
        26
    } else if lane == 21 {
        12
    } else if lane == 22 {
        8
    } else if lane == 23 {
        18
    } else if lane == 24 {
        16
    } else if lane == 25 {
        11
    } else {
        4
    }
}

/// The lane rotation: the lane at row `r`, column `c` rotates along the
/// 27 slices by `lane_shift(9*r + c)`.
pub open spec fn troika_shift_lanes(s: Seq<u8>) -> Seq<u8> {
    Seq::new(
        729,
        |i: int|
            {
                let sl = i / 27;
                let row = (i % 27) / 9;
                let col = i % 9;
                let src = (sl + 27 - lane_shift(9 * row + col)) % 27;
                s[27 * src + 9 * row + col]
            },
    )
}

/// The ternary parity of one column of a slice.
pub open spec fn col_parity(s: Seq<u8>, sl: int, col: int) -> int {
    (s[27 * sl + col] + s[27 * sl + 9 + col] + s[27 * sl + 18 + col]) % 3
}

/// The mixing layer: every position receives the parities of the column
/// to its left in the same slice and of the column to its right in the
/// next slice.
pub open spec fn troika_add_parity(s: Seq<u8>) -> Seq<u8> {
    Seq::new(
        729,
        |i: int|
            {
                let sl = i / 27;
                let col = i % 9;
                ((s[i] + col_parity(s, sl, (col + 8) % 9) + col_parity(s, (sl + 1) % 27, (col + 1)
                    % 9)) % 3) as u8
            },
    )
}

/// The round-constant table of the Troika design: for each of the 24
/// rounds, the 243 ternary constants added to the first row of every
/// slice. These are fixed design parameters of the published algorithm.
pub open spec fn round_constants_row(round: int) -> Seq<u8> {
    if round == 0 {
        seq![
            2u8, 2, 2, 2, 1, 2, 0, 1, 0, 1, 1, 0, 2, 0, 1, 0, 1, 1, 0, 0, 1, 2, 1, 1, 1, 0, 0, 2,
            0, 2, 1, 0, 2, 2, 2, 1, 0, 2, 2, 0, 0, 1, 2, 2, 1, 0, 1, 0, 1, 2, 2, 2, 0, 1, 2, 2,
            1, 1, 2, 1, 1, 2, 0, 2, 0, 2, 0, 0, 0, 0, 2, 1, 1, 2, 1, 0, 1, 0, 2, 1, 1, 0, 0, 2,
            2, 2, 2, 0, 1, 1, 2, 1, 2, 2, 0, 1, 2, 2, 2, 0, 1, 0, 2, 2, 0, 2, 1, 1, 2, 1, 2, 1,
            0, 0, 2, 1, 0, 0, 1, 2, 2, 1, 1, 1, 0, 1, 0, 2, 2, 0, 2, 2, 2, 0, 2, 2, 1, 0, 0, 0,
            2, 1, 0, 0, 1, 1, 1, 2, 2, 1, 0, 1, 0, 1, 1, 1, 1, 0, 1, 2, 2, 1, 0, 1, 0, 2, 0, 1,
            2, 0, 1, 2, 2, 2, 2, 1, 0, 0, 0, 0, 2, 1, 0, 2, 1, 1, 2, 0, 2, 1, 0, 0, 0, 1, 0, 2,
            1, 2, 0, 1, 2, 1, 0, 2, 0, 2, 1, 0, 0, 1, 2, 0, 2, 2, 2, 0, 1, 0, 2, 0, 1, 0, 2, 1,
            2, 1, 2, 2, 1, 1, 2, 0, 2, 2, 1, 0, 0, 2, 0, 2, 1, 0, 1
        ]
    } else if round == 1 {
        seq![
            1u8, 1, 1, 0, 2, 2, 0, 2, 0, 1, 0, 2, 1, 1, 0, 0, 1, 1, 1, 2, 0, 1, 1, 2, 0, 1, 1, 1,
            2, 0, 2, 2, 2, 0, 2, 1, 1, 2, 1, 0, 2, 1, 0, 2, 1, 0, 0, 2, 0, 0, 0, 0, 0, 0, 1, 1,
            0, 0, 1, 0, 0, 0, 1, 1, 0, 2, 0, 0, 0, 2, 1, 1, 0, 1, 2, 0, 1, 2, 1, 1, 1, 0, 1, 0,
            0, 0, 1, 0, 2, 2, 0, 2, 0, 2, 1, 0, 2, 1, 0, 0, 1, 2, 2, 0, 0, 0, 0, 1, 0, 2, 2, 2,
            1, 1, 0, 1, 0, 2, 1, 2, 2, 2, 1, 0, 2, 2, 0, 2, 0, 1, 2, 1, 0, 1, 0, 0, 1, 1, 0, 1,
            2, 2, 2, 0, 0, 1, 0, 0, 1, 2, 1, 1, 1, 2, 0, 0, 0, 2, 1, 0, 2, 1, 2, 2, 1, 2, 1, 0,
            0, 0, 2, 0, 0, 0, 2, 2, 1, 2, 2, 0, 0, 1, 2, 2, 1, 0, 0, 2, 1, 2, 2, 2, 0, 1, 1, 1,
            1, 2, 0, 1, 1, 2, 2, 1, 0, 1, 2, 0, 2, 2, 1, 0, 1, 2, 1, 0, 1, 0, 1, 1, 2, 1, 1, 2,
            2, 2, 1, 0, 2, 0, 0, 0, 1, 1, 2, 1, 0, 2, 0, 1, 1, 1, 2
        ]
    } else if round == 2 {
        seq![
            0u8, 2, 0, 2, 1, 2, 1, 1, 2, 1, 1, 2, 2, 2, 2, 0, 0, 0, 0, 0, 1, 1, 0, 1, 1, 1, 0, 0,
            1, 1, 0, 0, 0, 1, 2, 2, 0, 1, 0, 2, 2, 1, 2, 2, 2, 2, 1, 2, 1, 1, 0, 0, 1, 0, 2, 0,
            2, 0, 1, 2, 0, 0, 2, 2, 2, 1, 1, 0, 0, 2, 0, 2, 2, 2, 2, 1, 2, 1, 0, 2, 0, 2, 0, 2,
            0, 2, 2, 0, 2, 2, 1, 2, 1, 2, 0, 0, 0, 0, 1, 0, 2, 1, 1, 2, 1, 0, 1, 0, 2, 0, 1, 0,
            0, 2, 2, 2, 2, 2, 1, 1, 0, 1, 2, 2, 0, 0, 2, 2, 1, 0, 1, 2, 2, 1, 0, 2, 1, 1, 2, 1,
            2, 0, 1, 0, 0, 1, 0, 0, 1, 1, 0, 1, 0, 0, 0, 0, 0, 1, 0, 0, 2, 0, 2, 0, 0, 1, 0, 0,
            1, 0, 2, 1, 0, 2, 0, 0, 0, 0, 2, 0, 0, 0, 2, 0, 1, 0, 2, 0, 0, 1, 2, 0, 1, 1, 2, 2,
            0, 2, 2, 0, 0, 2, 2, 1, 2, 0, 0, 0, 1, 0, 2, 1, 0, 1, 2, 1, 1, 0, 2, 0, 0, 2, 1, 1,
            0, 1, 1, 2, 0, 0, 1, 1, 1, 0, 0, 2, 2, 2, 2, 1, 1, 2, 2
        ]
    } else if round == 3 {
        seq![
            1u8, 2, 2, 0, 2, 2, 0, 1, 0, 0, 0, 2, 0, 0, 0, 2, 1, 0, 2, 2, 0, 0, 1, 2, 1, 0, 0, 1,
            0, 1, 2, 2, 1, 2, 1, 0, 0, 1, 1, 2, 0, 0, 2, 2, 1, 0, 1, 2, 2, 2, 0, 2, 1, 1, 2, 1,
            2, 1, 1, 0, 2, 1, 0, 0, 1, 2, 0, 1, 1, 0, 0, 1, 0, 2, 0, 0, 2, 0, 2, 0, 0, 2, 2, 0,
            0, 0, 2, 1, 0, 0, 2, 0, 1, 1, 2, 1, 0, 1, 1, 0, 1, 2, 2, 0, 2, 2, 0, 0, 0, 1, 2, 2,
            0, 0, 0, 1, 1, 1, 2, 2, 2, 1, 1, 1, 1, 1, 1, 1, 1, 2, 2, 2, 0, 0, 0, 0, 0, 1, 1, 1,
            1, 1, 1, 0, 0, 1, 1, 1, 0, 0, 0, 2, 2, 0, 1, 1, 2, 2, 2, 2, 2, 0, 2, 2, 2, 1, 1, 0,
            0, 1, 0, 0, 2, 2, 2, 1, 2, 0, 0, 0, 1, 2, 2, 2, 0, 1, 2, 1, 1, 2, 2, 1, 1, 2, 0, 1,
            0, 0, 1, 0, 2, 0, 2, 0, 1, 0, 0, 0, 2, 2, 2, 1, 1, 1, 0, 2, 2, 2, 2, 2, 2, 2, 2, 1,
            1, 2, 0, 0, 0, 0, 0, 2, 2, 0, 2, 2, 1, 0, 0, 2, 2, 0, 0
        ]
    } else if round == 4 {
        seq![
            0u8, 1, 1, 1, 1, 2, 0, 1, 1, 1, 1, 1, 0, 1, 2, 0, 2, 1, 0, 0, 2, 0, 1, 0, 1, 2, 0, 1,
            1, 0, 1, 1, 1, 1, 0, 0, 2, 0, 0, 0, 1, 0, 2, 2, 1, 0, 0, 1, 1, 0, 2, 1, 1, 1, 1, 0,
            1, 0, 1, 0, 1, 2, 0, 2, 0, 2, 1, 2, 1, 1, 0, 1, 1, 2, 2, 2, 2, 0, 1, 0, 0, 2, 1, 1,
            0, 1, 2, 1, 0, 1, 1, 1, 1, 0, 1, 1, 2, 2, 0, 1, 0, 2, 0, 0, 2, 1, 2, 2, 1, 2, 2, 0,
            0, 1, 2, 0, 0, 0, 0, 2, 1, 2, 2, 0, 2, 1, 0, 2, 1, 2, 0, 2, 0, 2, 0, 0, 0, 2, 1, 1,
            1, 2, 1, 0, 1, 2, 1, 1, 2, 1, 0, 2, 2, 1, 1, 0, 0, 0, 2, 0, 1, 1, 2, 1, 2, 2, 2, 0,
            1, 2, 2, 0, 1, 0, 1, 1, 2, 0, 2, 2, 2, 1, 1, 0, 2, 2, 1, 0, 2, 2, 2, 1, 1, 1, 1, 1,
            0, 1, 2, 2, 2, 2, 0, 0, 2, 0, 1, 2, 1, 0, 1, 1, 0, 0, 1, 0, 1, 2, 2, 0, 0, 2, 0, 0,
            1, 1, 2, 2, 1, 0, 0, 0, 2, 1, 2, 1, 0, 1, 1, 2, 2, 1, 2
        ]
    } else if round == 5 {
        seq![
            2u8, 2, 2, 0, 2, 1, 0, 0, 0, 1, 0, 1, 0, 2, 0, 1, 2, 1, 0, 1, 2, 2, 2, 1, 0, 1, 2, 2,
            1, 2, 1, 2, 1, 2, 1, 2, 0, 0, 2, 1, 2, 1, 2, 1, 1, 2, 0, 1, 2, 2, 1, 2, 0, 0, 2, 0,
            0, 2, 0, 0, 1, 2, 0, 0, 0, 0, 0, 0, 2, 2, 0, 2, 1, 0, 0, 0, 2, 2, 0, 0, 2, 0, 1, 2,
            2, 2, 0, 1, 0, 0, 1, 0, 2, 1, 1, 2, 1, 0, 0, 0, 2, 0, 1, 0, 0, 2, 1, 2, 2, 0, 1, 1,
            0, 1, 1, 2, 0, 2, 2, 2, 0, 0, 0, 2, 2, 1, 0, 2, 1, 1, 1, 2, 2, 1, 1, 0, 0, 1, 2, 1,
            1, 0, 2, 1, 2, 0, 2, 1, 0, 1, 1, 0, 2, 1, 1, 2, 0, 2, 0, 0, 1, 0, 1, 0, 2, 1, 1, 0,
            2, 0, 1, 2, 2, 0, 1, 1, 1, 2, 1, 0, 2, 2, 2, 2, 1, 1, 0, 2, 0, 1, 2, 0, 2, 2, 1, 1,
            2, 1, 0, 0, 1, 0, 1, 2, 0, 0, 2, 1, 0, 0, 1, 1, 0, 2, 0, 1, 0, 1, 0, 1, 0, 1, 2, 1,
            1, 1, 2, 1, 2, 1, 1, 1, 0, 2, 1, 0, 1, 2, 0, 2, 2, 1, 0
        ]
    } else if round == 6 {
        seq![
            0u8, 2, 1, 0, 1, 0, 1, 1, 1, 1, 1, 0, 2, 2, 1, 0, 1, 0, 0, 2, 1, 1, 1, 1, 2, 2, 0, 1,
            1, 1, 2, 0, 1, 1, 2, 2, 2, 1, 1, 2, 0, 2, 2, 1, 1, 2, 2, 0, 2, 1, 0, 1, 2, 0, 1, 2,
            0, 2, 0, 2, 1, 0, 0, 0, 0, 1, 1, 2, 2, 0, 1, 2, 0, 1, 1, 2, 1, 2, 2, 0, 0, 0, 2, 2,
            0, 1, 0, 2, 1, 1, 2, 2, 0, 2, 1, 2, 0, 1, 0, 1, 2, 0, 2, 2, 1, 0, 1, 1, 1, 0, 1, 0,
            1, 1, 2, 0, 1, 2, 0, 2, 1, 0, 2, 2, 0, 0, 0, 1, 2, 0, 0, 1, 0, 1, 1, 1, 2, 0, 2, 2,
            0, 1, 0, 1, 1, 2, 1, 0, 0, 2, 1, 1, 0, 2, 0, 2, 1, 1, 1, 1, 1, 1, 2, 2, 2, 1, 2, 0,
            0, 0, 1, 1, 1, 2, 0, 1, 2, 1, 1, 1, 1, 1, 2, 0, 0, 1, 0, 2, 0, 0, 1, 2, 2, 2, 0, 2,
            2, 0, 2, 2, 2, 1, 1, 0, 0, 0, 0, 0, 2, 2, 2, 1, 2, 2, 0, 0, 2, 2, 2, 2, 0, 0, 2, 1,
            0, 2, 2, 0, 1, 1, 0, 1, 0, 0, 1, 0, 2, 2, 0, 0, 2, 0, 0
        ]
    } else if round == 7 {
        seq![
            0u8, 2, 1, 0, 1, 0, 0, 0, 1, 2, 1, 0, 2, 2, 0, 2, 1, 2, 1, 2, 0, 1, 0, 0, 2, 2, 2, 1,
            1, 0, 1, 0, 1, 2, 2, 2, 2, 1, 0, 2, 1, 1, 2, 1, 0, 2, 1, 0, 0, 1, 0, 0, 2, 0, 0, 0,
            1, 0, 0, 0, 1, 0, 0, 1, 1, 0, 0, 2, 1, 0, 0, 0, 1, 0, 2, 1, 1, 0, 1, 2, 1, 0, 2, 0,
            1, 1, 0, 1, 1, 2, 0, 2, 1, 2, 0, 0, 0, 2, 2, 1, 2, 2, 1, 2, 1, 2, 2, 1, 0, 0, 0, 0,
            2, 1, 0, 0, 1, 1, 2, 0, 2, 1, 0, 1, 0, 1, 2, 2, 1, 2, 0, 2, 2, 1, 1, 2, 0, 0, 1, 1,
            0, 1, 2, 0, 2, 2, 2, 1, 0, 0, 1, 0, 1, 0, 2, 2, 1, 1, 0, 0, 1, 2, 2, 1, 1, 2, 1, 2,
            0, 2, 2, 0, 2, 0, 0, 1, 1, 1, 0, 0, 0, 1, 0, 2, 1, 1, 2, 2, 2, 1, 0, 2, 0, 1, 0, 1,
            1, 2, 1, 0, 2, 1, 1, 1, 0, 2, 0, 2, 0, 0, 1, 2, 2, 1, 2, 2, 1, 0, 2, 2, 2, 0, 0, 0,
            0, 1, 0, 1, 2, 1, 1, 1, 0, 1, 0, 1, 1, 1, 0, 2, 2, 0, 2
        ]
    } else if round == 8 {
        seq![
            1u8, 0, 1, 2, 1, 1, 0, 0, 2, 0, 2, 1, 1, 0, 1, 2, 1, 0, 2, 2, 1, 1, 0, 1, 1, 2, 0, 1,
            1, 2, 1, 0, 0, 2, 2, 0, 2, 2, 0, 2, 1, 1, 2, 0, 0, 0, 0, 0, 2, 1, 0, 2, 2, 1, 0, 0,
            2, 1, 0, 0, 1, 1, 1, 1, 1, 1, 0, 1, 0, 1, 1, 0, 0, 0, 2, 0, 2, 1, 0, 0, 2, 2, 2, 0,
            2, 2, 0, 1, 1, 2, 2, 1, 0, 0, 0, 2, 2, 2, 1, 0, 1, 1, 2, 2, 2, 2, 2, 1, 2, 0, 2, 1,
            1, 0, 0, 2, 0, 1, 1, 2, 1, 1, 2, 1, 0, 1, 2, 2, 0, 0, 0, 0, 2, 2, 1, 2, 2, 1, 1, 0,
            2, 2, 1, 0, 0, 0, 2, 1, 1, 1, 1, 1, 1, 2, 2, 1, 1, 2, 0, 0, 0, 1, 1, 0, 2, 0, 2, 2,
            1, 1, 1, 0, 1, 2, 2, 0, 1, 2, 2, 2, 0, 1, 2, 2, 2, 0, 2, 1, 1, 2, 0, 2, 1, 1, 0, 2,
            1, 0, 2, 1, 2, 1, 1, 1, 0, 0, 0, 0, 2, 2, 0, 2, 2, 2, 2, 0, 2, 2, 0, 0, 0, 2, 0, 1,
            0, 0, 0, 1, 1, 2, 0, 1, 1, 0, 2, 1, 1, 2, 2, 0, 2, 0, 1
        ]
    } else if round == 9 {
        seq![
            0u8, 1, 0, 1, 2, 0, 1, 1, 1, 1, 2, 1, 1, 0, 0, 2, 1, 0, 1, 0, 0, 1, 2, 1, 1, 0, 2, 2,
            0, 0, 2, 1, 0, 1, 1, 1, 0, 1, 0, 1, 0, 2, 0, 1, 2, 0, 2, 1, 2, 2, 2, 1, 0, 0, 1, 2,
            2, 0, 1, 2, 1, 1, 0, 2, 2, 2, 2, 0, 1, 0, 1, 1, 1, 2, 0, 1, 2, 1, 1, 0, 1, 1, 2, 0,
            0, 1, 0, 1, 0, 0, 2, 2, 2, 2, 0, 1, 2, 0, 1, 2, 2, 0, 1, 2, 0, 0, 0, 0, 2, 2, 2, 0,
            0, 2, 1, 0, 2, 2, 2, 1, 1, 0, 1, 0, 0, 1, 2, 2, 2, 1, 0, 2, 0, 0, 2, 2, 1, 2, 1, 0,
            2, 0, 0, 2, 1, 0, 2, 2, 0, 2, 0, 0, 1, 0, 0, 1, 0, 0, 1, 0, 2, 0, 0, 0, 0, 0, 0, 0,
            2, 2, 0, 1, 0, 0, 0, 0, 2, 2, 0, 2, 1, 0, 2, 0, 2, 2, 0, 0, 2, 0, 0, 2, 2, 0, 0, 1,
            0, 0, 0, 0, 2, 0, 1, 2, 0, 0, 2, 0, 2, 0, 1, 0, 0, 2, 0, 0, 2, 1, 1, 1, 0, 1, 0, 0,
            0, 1, 1, 2, 2, 0, 2, 0, 2, 1, 1, 2, 1, 2, 0, 1, 2, 2, 1
        ]
    } else if round == 10 {
        seq![
            0u8, 0, 1, 1, 0, 0, 2, 0, 1, 1, 0, 1, 0, 2, 1, 0, 1, 2, 0, 0, 2, 2, 0, 0, 2, 1, 0, 2,
            0, 2, 0, 1, 0, 1, 0, 0, 2, 2, 1, 1, 1, 1, 2, 0, 1, 2, 1, 2, 2, 0, 1, 2, 0, 0, 1, 1,
            0, 2, 2, 0, 0, 2, 2, 1, 0, 1, 1, 0, 1, 0, 2, 1, 1, 2, 0, 0, 0, 2, 2, 0, 1, 0, 2, 2,
            1, 2, 2, 0, 2, 1, 2, 1, 1, 0, 0, 2, 0, 2, 2, 2, 0, 1, 2, 1, 0, 2, 0, 2, 1, 2, 0, 1,
            2, 0, 2, 2, 2, 2, 1, 0, 0, 0, 1, 0, 2, 0, 2, 1, 1, 2, 1, 0, 2, 2, 2, 2, 1, 0, 0, 2,
            0, 1, 2, 0, 2, 1, 1, 1, 0, 1, 0, 0, 1, 2, 1, 2, 2, 0, 2, 0, 0, 2, 1, 1, 0, 2, 0, 1,
            0, 0, 1, 1, 1, 1, 2, 1, 1, 0, 0, 1, 1, 0, 1, 0, 0, 1, 2, 0, 1, 0, 0, 2, 0, 0, 2, 0,
            0, 1, 0, 1, 0, 0, 0, 0, 0, 2, 0, 1, 2, 0, 2, 0, 0, 2, 0, 1, 0, 0, 1, 1, 0, 0, 0, 1,
            1, 0, 0, 1, 0, 2, 2, 1, 1, 0, 2, 0, 0, 2, 1, 1, 2, 1, 1
        ]
    } else if round == 11 {
        seq![
            2u8, 0, 0, 1, 1, 0, 0, 0, 0, 2, 2, 2, 1, 0, 2, 2, 0, 2, 2, 2, 2, 1, 0, 1, 0, 0, 0, 2,
            0, 2, 1, 2, 2, 0, 2, 2, 0, 2, 2, 2, 0, 2, 0, 0, 0, 0, 0, 2, 1, 0, 1, 0, 1, 0, 0, 2,
            1, 0, 2, 2, 1, 2, 0, 1, 1, 0, 0, 1, 1, 0, 1, 0, 2, 0, 2, 0, 1, 0, 0, 2, 2, 2, 2, 1,
            1, 1, 0, 1, 2, 2, 0, 2, 2, 2, 2, 0, 1, 2, 2, 0, 0, 2, 0, 1, 2, 0, 2, 2, 1, 0, 0, 1,
            0, 0, 1, 0, 1, 1, 1, 0, 0, 0, 0, 0, 1, 0, 1, 2, 2, 2, 0, 0, 1, 0, 1, 1, 2, 1, 1, 1,
            2, 0, 1, 0, 2, 0, 0, 2, 1, 2, 0, 1, 2, 2, 0, 0, 1, 2, 1, 0, 0, 2, 2, 1, 2, 2, 1, 2,
            1, 1, 2, 1, 0, 0, 0, 0, 2, 0, 0, 0, 2, 1, 2, 0, 2, 0, 0, 1, 2, 1, 2, 1, 1, 1, 0, 2,
            2, 1, 1, 2, 0, 2, 2, 1, 1, 1, 2, 0, 2, 1, 0, 1, 2, 2, 1, 2, 1, 2, 0, 2, 1, 2, 0, 0,
            2, 1, 1, 1, 2, 2, 1, 2, 0, 1, 1, 2, 1, 1, 0, 0, 1, 0, 2
        ]
    } else if round == 12 {
        seq![
            2u8, 0, 0, 1, 2, 0, 0, 2, 1, 0, 1, 2, 2, 0, 2, 0, 1, 0, 2, 1, 2, 2, 0, 1, 1, 1, 2, 0,
            2, 0, 2, 2, 2, 1, 1, 2, 1, 1, 2, 0, 2, 2, 2, 0, 0, 0, 0, 2, 1, 0, 2, 1, 1, 1, 0, 2,
            1, 0, 0, 0, 1, 2, 2, 1, 0, 0, 1, 2, 1, 2, 2, 0, 1, 1, 0, 2, 1, 1, 0, 2, 2, 2, 0, 1,
            0, 1, 1, 1, 1, 2, 1, 2, 1, 1, 0, 1, 0, 1, 0, 1, 2, 0, 1, 0, 2, 1, 2, 1, 1, 0, 0, 1,
            2, 0, 2, 2, 0, 1, 2, 0, 2, 0, 1, 0, 0, 2, 0, 0, 1, 1, 1, 1, 0, 1, 0, 0, 2, 1, 1, 0,
            2, 0, 2, 0, 1, 1, 1, 1, 1, 2, 2, 1, 1, 2, 1, 0, 0, 1, 1, 0, 2, 0, 0, 2, 1, 0, 1, 0,
            1, 2, 0, 0, 1, 0, 2, 2, 1, 1, 0, 2, 2, 0, 2, 1, 1, 2, 1, 1, 1, 0, 0, 2, 1, 0, 0, 0,
            2, 2, 2, 1, 1, 0, 1, 2, 2, 2, 2, 2, 2, 1, 0, 1, 2, 1, 0, 0, 0, 2, 1, 2, 1, 1, 2, 1,
            2, 2, 1, 2, 2, 0, 0, 0, 1, 0, 0, 0, 0, 2, 1, 1, 1, 0, 0
        ]
    } else if round == 13 {
        seq![
            2u8, 0, 2, 1, 1, 2, 2, 2, 1, 0, 2, 2, 1, 0, 1, 1, 2, 1, 0, 1, 1, 1, 2, 0, 2, 0, 2, 2,
            0, 1, 1, 2, 1, 1, 2, 0, 0, 2, 2, 2, 0, 0, 0, 2, 2, 0, 2, 2, 1, 1, 1, 2, 2, 0, 0, 0,
            1, 2, 2, 1, 1, 2, 1, 1, 1, 2, 2, 0, 2, 0, 0, 0, 2, 1, 1, 2, 0, 1, 0, 1, 2, 1, 1, 0,
            2, 0, 1, 1, 1, 1, 0, 1, 1, 2, 1, 2, 1, 0, 2, 0, 0, 2, 0, 1, 2, 2, 0, 2, 0, 0, 0, 1,
            0, 2, 2, 0, 1, 0, 1, 1, 0, 2, 1, 0, 2, 1, 1, 0, 0, 1, 0, 0, 0, 0, 1, 1, 2, 0, 0, 0,
            2, 0, 1, 1, 2, 2, 2, 1, 2, 0, 1, 2, 2, 1, 1, 2, 0, 1, 0, 0, 2, 0, 2, 0, 2, 0, 1, 0,
            1, 0, 2, 1, 2, 1, 1, 1, 1, 2, 2, 0, 2, 2, 0, 2, 0, 1, 1, 2, 0, 0, 0, 0, 1, 1, 2, 2,
            2, 2, 1, 0, 1, 1, 2, 1, 1, 0, 2, 1, 2, 0, 2, 0, 0, 1, 1, 0, 2, 1, 1, 1, 0, 2, 1, 0,
            1, 0, 1, 2, 2, 1, 0, 0, 2, 2, 1, 1, 2, 0, 1, 1, 1, 2, 1
        ]
    } else if round == 14 {
        seq![
            2u8, 0, 2, 0, 2, 1, 1, 0, 1, 1, 1, 1, 2, 2, 1, 1, 0, 0, 1, 0, 1, 1, 0, 2, 1, 2, 0, 0,
            1, 0, 0, 1, 0, 2, 1, 2, 2, 0, 0, 0, 0, 2, 0, 2, 0, 2, 1, 1, 0, 2, 0, 2, 1, 2, 2, 1,
            1, 1, 2, 2, 2, 2, 0, 0, 2, 2, 1, 1, 1, 0, 1, 1, 0, 2, 1, 2, 2, 2, 0, 0, 0, 1, 0, 2,
            0, 1, 1, 1, 1, 1, 0, 2, 2, 1, 2, 1, 0, 0, 2, 1, 1, 1, 0, 2, 2, 1, 1, 1, 1, 2, 2, 1,
            1, 1, 2, 2, 0, 1, 1, 0, 2, 2, 1, 1, 2, 2, 2, 0, 1, 1, 1, 2, 0, 1, 1, 1, 2, 2, 1, 1,
            2, 0, 2, 1, 1, 1, 0, 2, 0, 2, 1, 2, 1, 2, 2, 1, 2, 2, 2, 2, 2, 1, 0, 0, 0, 0, 1, 0,
            0, 2, 1, 1, 2, 0, 1, 0, 0, 1, 1, 1, 0, 2, 0, 1, 0, 0, 1, 1, 2, 1, 2, 1, 1, 0, 0, 1,
            2, 0, 1, 2, 0, 1, 2, 0, 2, 0, 0, 0, 0, 0, 0, 0, 1, 1, 0, 1, 0, 0, 0, 0, 1, 1, 0, 0,
            2, 0, 2, 0, 1, 1, 0, 2, 1, 0, 2, 1, 1, 2, 0, 1, 0, 0, 0
        ]
    } else if round == 15 {
        seq![
            0u8, 1, 0, 2, 0, 1, 0, 2, 0, 1, 0, 2, 2, 1, 1, 2, 2, 1, 1, 2, 1, 1, 2, 0, 1, 0, 2, 0,
            0, 0, 0, 2, 0, 1, 2, 2, 0, 1, 0, 2, 0, 1, 0, 2, 2, 2, 1, 2, 2, 1, 1, 2, 1, 2, 2, 0,
            0, 0, 2, 0, 0, 1, 0, 2, 1, 1, 2, 0, 0, 2, 0, 2, 0, 1, 0, 2, 2, 0, 0, 2, 1, 1, 1, 2,
            1, 0, 1, 0, 1, 1, 2, 1, 0, 2, 2, 2, 1, 0, 2, 0, 2, 0, 1, 2, 2, 1, 0, 2, 2, 1, 1, 0,
            2, 0, 1, 0, 1, 1, 2, 1, 1, 2, 1, 1, 1, 0, 2, 0, 0, 0, 0, 0, 2, 2, 1, 2, 0, 1, 0, 0,
            2, 2, 1, 0, 1, 0, 1, 0, 1, 2, 1, 1, 2, 2, 1, 2, 1, 1, 1, 0, 0, 1, 0, 0, 2, 0, 2, 2,
            2, 0, 0, 0, 1, 0, 2, 0, 2, 1, 1, 1, 1, 0, 2, 2, 2, 2, 1, 2, 0, 2, 1, 1, 2, 0, 2, 0,
            1, 1, 2, 1, 0, 2, 1, 1, 1, 2, 2, 0, 2, 0, 0, 1, 2, 1, 1, 2, 0, 1, 0, 2, 2, 1, 0, 0,
            2, 0, 1, 2, 1, 1, 1, 1, 1, 0, 1, 0, 1, 0, 2, 0, 0, 2, 0
        ]
    } else if round == 16 {
        seq![
            2u8, 1, 2, 2, 2, 0, 0, 0, 2, 2, 2, 0, 1, 1, 1, 1, 2, 2, 2, 1, 2, 2, 1, 0, 1, 1, 1, 2,
            0, 0, 0, 1, 2, 0, 1, 1, 2, 2, 1, 1, 2, 0, 0, 2, 2, 1, 0, 2, 0, 2, 2, 0, 2, 1, 1, 0,
            2, 2, 0, 0, 0, 2, 1, 1, 1, 1, 0, 1, 1, 2, 1, 1, 2, 0, 2, 0, 0, 2, 0, 0, 0, 2, 1, 1,
            0, 0, 0, 0, 1, 2, 1, 1, 1, 2, 2, 0, 1, 2, 1, 0, 2, 1, 1, 2, 2, 0, 1, 2, 0, 0, 1, 0,
            1, 2, 2, 0, 0, 2, 2, 0, 1, 1, 2, 2, 1, 0, 2, 0, 2, 2, 2, 1, 0, 1, 0, 2, 2, 0, 2, 2,
            1, 2, 2, 2, 1, 0, 0, 0, 1, 0, 0, 1, 2, 1, 1, 2, 1, 0, 0, 0, 2, 1, 0, 0, 0, 2, 1, 2,
            2, 1, 0, 1, 2, 2, 1, 2, 0, 0, 1, 2, 1, 2, 0, 0, 1, 2, 2, 2, 1, 1, 1, 2, 2, 2, 2, 1,
            2, 2, 2, 1, 1, 1, 0, 2, 0, 0, 1, 2, 2, 2, 2, 1, 2, 0, 2, 2, 2, 1, 0, 2, 0, 1, 1, 0,
            2, 2, 1, 0, 2, 1, 2, 0, 1, 1, 1, 1, 0, 0, 2, 1, 0, 2, 1
        ]
    } else if round == 17 {
        seq![
            0u8, 2, 2, 1, 1, 0, 0, 0, 0, 0, 1, 1, 2, 1, 2, 2, 0, 0, 1, 1, 2, 0, 1, 0, 2, 1, 2, 1,
            2, 2, 0, 1, 2, 0, 2, 2, 1, 0, 2, 2, 0, 0, 1, 0, 1, 1, 0, 1, 0, 1, 2, 0, 1, 0, 0, 0,
            2, 1, 1, 0, 0, 1, 0, 2, 2, 1, 1, 1, 2, 0, 0, 2, 1, 1, 2, 2, 1, 2, 2, 0, 1, 1, 0, 1,
            0, 0, 0, 2, 2, 2, 0, 0, 2, 0, 2, 2, 2, 2, 1, 1, 0, 0, 2, 0, 2, 0, 2, 2, 1, 2, 1, 0,
            2, 1, 2, 0, 1, 0, 2, 2, 0, 0, 2, 1, 0, 1, 2, 1, 0, 1, 0, 1, 0, 2, 1, 1, 2, 2, 2, 1,
            2, 2, 0, 1, 0, 1, 1, 2, 0, 0, 2, 2, 1, 1, 0, 2, 2, 2, 0, 2, 1, 2, 1, 1, 1, 2, 1, 0,
            2, 2, 2, 0, 2, 1, 0, 2, 0, 1, 2, 1, 0, 2, 0, 0, 2, 1, 0, 1, 2, 0, 2, 0, 0, 1, 0, 2,
            1, 0, 1, 1, 0, 2, 0, 2, 0, 0, 2, 0, 0, 1, 2, 2, 1, 0, 0, 0, 0, 2, 2, 2, 0, 1, 1, 2,
            0, 2, 2, 2, 1, 2, 2, 2, 2, 1, 0, 2, 2, 0, 0, 1, 0, 2, 1
        ]
    } else if round == 18 {
        seq![
            0u8, 1, 0, 1, 2, 0, 2, 0, 0, 2, 2, 1, 1, 0, 1, 1, 0, 0, 2, 1, 2, 1, 0, 0, 0, 2, 1, 1,
            2, 2, 2, 1, 2, 2, 1, 1, 0, 1, 1, 2, 0, 0, 0, 2, 1, 0, 0, 2, 2, 2, 1, 2, 1, 0, 1, 1,
            2, 2, 2, 0, 2, 2, 2, 0, 2, 1, 1, 1, 0, 0, 2, 1, 0, 2, 1, 2, 2, 2, 1, 1, 0, 0, 0, 2,
            0, 1, 2, 2, 1, 2, 2, 2, 0, 1, 0, 2, 0, 0, 0, 1, 1, 2, 1, 2, 2, 0, 1, 1, 1, 2, 0, 1,
            0, 2, 2, 2, 1, 1, 2, 0, 1, 2, 1, 2, 2, 2, 0, 2, 0, 0, 1, 1, 0, 1, 1, 0, 1, 0, 2, 1,
            0, 0, 0, 0, 0, 2, 2, 0, 0, 1, 2, 0, 0, 2, 2, 0, 1, 2, 2, 0, 2, 0, 2, 0, 2, 0, 2, 2,
            0, 1, 2, 1, 2, 1, 2, 0, 0, 2, 0, 1, 1, 2, 1, 1, 2, 0, 0, 1, 2, 2, 0, 0, 0, 2, 2, 2,
            2, 2, 2, 1, 1, 2, 2, 2, 0, 0, 0, 2, 2, 0, 1, 1, 1, 1, 1, 2, 2, 0, 2, 2, 1, 0, 0, 1,
            1, 2, 0, 0, 1, 1, 1, 0, 1, 2, 2, 2, 2, 1, 1, 2, 0, 1, 2
        ]
    } else if round == 19 {
        seq![
            1u8, 0, 2, 2, 0, 2, 0, 0, 1, 2, 0, 1, 0, 0, 1, 0, 2, 2, 0, 0, 1, 0, 0, 0, 2, 1, 0, 1,
            2, 0, 0, 2, 2, 1, 0, 2, 1, 0, 2, 0, 2, 1, 1, 0, 0, 0, 0, 2, 2, 2, 1, 1, 2, 2, 0, 2,
            2, 2, 2, 2, 0, 1, 2, 0, 0, 2, 0, 0, 1, 2, 0, 0, 2, 0, 0, 0, 2, 2, 0, 2, 0, 0, 0, 1,
            2, 2, 0, 0, 1, 0, 1, 1, 2, 2, 2, 1, 2, 0, 1, 0, 2, 1, 1, 2, 0, 1, 0, 1, 2, 0, 1, 0,
            2, 0, 1, 1, 1, 0, 0, 1, 2, 2, 1, 2, 1, 2, 2, 0, 2, 2, 0, 0, 2, 1, 0, 2, 0, 0, 0, 1,
            0, 1, 0, 0, 2, 0, 1, 1, 0, 1, 2, 0, 1, 0, 1, 2, 0, 0, 1, 0, 0, 1, 1, 1, 0, 2, 2, 0,
            0, 0, 1, 1, 2, 1, 1, 0, 1, 1, 1, 1, 2, 0, 0, 1, 0, 0, 1, 0, 1, 2, 2, 2, 0, 0, 0, 0,
            1, 1, 2, 1, 1, 1, 1, 0, 1, 1, 2, 0, 0, 2, 0, 2, 0, 0, 2, 2, 2, 0, 0, 2, 1, 0, 0, 2,
            2, 1, 1, 0, 1, 0, 1, 1, 2, 1, 2, 1, 0, 2, 1, 0, 2, 0, 1
        ]
    } else if round == 20 {
        seq![
            2u8, 2, 0, 0, 0, 0, 2, 1, 0, 2, 2, 1, 1, 0, 2, 1, 0, 0, 1, 1, 2, 1, 1, 0, 0, 1, 0, 1,
            2, 0, 0, 1, 2, 0, 0, 1, 1, 0, 2, 2, 2, 0, 2, 2, 1, 0, 1, 1, 2, 1, 0, 0, 1, 1, 2, 0,
            2, 0, 2, 1, 0, 1, 2, 2, 1, 1, 2, 2, 0, 2, 1, 2, 0, 2, 0, 1, 2, 0, 2, 2, 1, 1, 1, 1,
            0, 0, 1, 0, 1, 2, 2, 0, 2, 2, 0, 0, 1, 1, 2, 2, 0, 0, 0, 1, 2, 1, 2, 1, 2, 1, 1, 1,
            2, 1, 1, 2, 1, 2, 0, 2, 1, 0, 0, 0, 0, 1, 1, 1, 2, 0, 1, 2, 0, 1, 1, 1, 1, 2, 0, 0,
            0, 0, 2, 1, 0, 1, 2, 2, 1, 0, 2, 1, 0, 2, 1, 2, 0, 1, 0, 0, 0, 0, 0, 2, 1, 0, 1, 0,
            2, 0, 0, 2, 1, 0, 2, 2, 2, 2, 0, 0, 1, 0, 0, 1, 2, 0, 1, 1, 2, 0, 0, 0, 2, 0, 0, 2,
            2, 2, 2, 1, 2, 0, 0, 0, 2, 2, 0, 2, 0, 1, 2, 1, 2, 2, 0, 0, 1, 1, 0, 1, 1, 0, 2, 1,
            2, 1, 0, 0, 0, 0, 1, 0, 2, 2, 2, 1, 2, 0, 1, 0, 2, 1, 2
        ]
    } else if round == 21 {
        seq![
            2u8, 0, 1, 0, 1, 2, 0, 2, 0, 2, 2, 1, 1, 1, 0, 1, 1, 2, 0, 1, 2, 2, 2, 0, 0, 2, 2, 0,
            0, 2, 1, 1, 1, 0, 2, 0, 1, 0, 1, 1, 2, 2, 1, 2, 1, 1, 1, 0, 2, 1, 0, 0, 2, 0, 2, 2,
            1, 0, 0, 1, 1, 0, 2, 0, 1, 1, 1, 0, 1, 0, 1, 2, 1, 2, 1, 2, 0, 2, 1, 1, 1, 1, 2, 1,
            1, 1, 2, 1, 2, 0, 1, 0, 0, 2, 1, 0, 1, 1, 0, 1, 0, 1, 1, 0, 2, 0, 0, 0, 2, 1, 0, 0,
            1, 2, 0, 1, 2, 1, 0, 1, 0, 2, 0, 0, 0, 1, 2, 2, 2, 2, 2, 0, 1, 1, 2, 2, 1, 0, 0, 1,
            2, 2, 2, 1, 0, 1, 1, 0, 2, 2, 1, 2, 1, 2, 0, 0, 1, 1, 1, 0, 2, 1, 1, 2, 2, 1, 1, 2,
            1, 0, 1, 0, 1, 0, 2, 0, 0, 2, 2, 2, 1, 2, 2, 2, 0, 0, 2, 2, 2, 0, 0, 1, 1, 1, 0, 2,
            2, 1, 1, 2, 1, 1, 2, 1, 1, 1, 2, 0, 0, 0, 0, 0, 0, 2, 1, 2, 2, 1, 0, 0, 0, 2, 1, 2,
            0, 0, 1, 1, 2, 2, 1, 2, 1, 2, 2, 1, 2, 1, 0, 0, 2, 1, 0
        ]
    } else if round == 22 {
        seq![
            0u8, 0, 2, 2, 1, 1, 1, 0, 1, 2, 2, 2, 1, 2, 2, 2, 0, 1, 2, 1, 2, 0, 0, 1, 1, 2, 0, 1,
            1, 1, 2, 2, 1, 2, 2, 0, 2, 1, 1, 1, 0, 0, 0, 2, 0, 2, 1, 2, 2, 2, 2, 2, 0, 2, 2, 2,
            0, 1, 0, 0, 1, 0, 0, 2, 1, 2, 1, 0, 0, 0, 0, 1, 1, 2, 2, 2, 1, 2, 0, 1, 1, 2, 1, 1,
            2, 0, 1, 0, 2, 2, 0, 0, 0, 2, 0, 1, 2, 1, 0, 1, 1, 2, 0, 1, 0, 1, 2, 2, 0, 2, 2, 0,
            1, 1, 1, 2, 2, 0, 0, 0, 2, 2, 1, 1, 1, 2, 1, 1, 2, 2, 1, 2, 2, 1, 0, 0, 0, 1, 0, 0,
            0, 0, 1, 1, 2, 1, 0, 0, 2, 0, 1, 1, 2, 0, 2, 1, 1, 0, 1, 2, 2, 2, 1, 2, 1, 1, 0, 1,
            2, 1, 2, 0, 2, 0, 1, 0, 1, 1, 1, 1, 1, 1, 1, 1, 1, 0, 1, 0, 0, 0, 0, 0, 0, 2, 0, 2,
            0, 2, 0, 0, 0, 2, 0, 2, 1, 2, 1, 0, 1, 2, 0, 2, 2, 2, 2, 2, 2, 1, 0, 1, 0, 2, 0, 0,
            0, 2, 1, 2, 2, 2, 2, 0, 1, 2, 1, 2, 0, 1, 0, 1, 2, 0, 1
        ]
    } else {
        seq![
            1u8, 1, 0, 1, 1, 1, 0, 0, 2, 1, 2, 0, 0, 1, 2, 2, 1, 1, 2, 1, 2, 2, 2, 2, 0, 2, 0, 0,
            1, 0, 1, 0, 1, 0, 1, 0, 2, 0, 1, 2, 1, 2, 1, 2, 2, 2, 1, 0, 1, 1, 2, 1, 0, 1, 2, 1,
            2, 0, 2, 0, 2, 2, 1, 1, 1, 1, 1, 1, 2, 0, 1, 2, 2, 0, 0, 0, 1, 2, 0, 0, 2, 2, 1, 1,
            1, 2, 0, 2, 0, 2, 1, 2, 2, 1, 2, 1, 1, 2, 2, 2, 0, 0, 0, 2, 0, 0, 1, 1, 1, 1, 1, 2,
            0, 0, 2, 1, 1, 0, 0, 1, 2, 2, 0, 1, 1, 1, 2, 0, 2, 2, 2, 2, 2, 1, 1, 2, 1, 0, 2, 0,
            0, 2, 2, 0, 0, 2, 0, 2, 0, 0, 2, 0, 1, 0, 0, 2, 1, 0, 0, 0, 1, 1, 0, 1, 1, 0, 1, 2,
            1, 1, 0, 0, 0, 0, 0, 1, 1, 0, 1, 2, 2, 0, 0, 1, 1, 0, 0, 1, 2, 2, 1, 2, 1, 0, 2, 0,
            2, 2, 0, 0, 2, 2, 0, 2, 2, 0, 0, 1, 0, 2, 0, 0, 0, 0, 1, 2, 0, 2, 2, 0, 1, 0, 1, 2,
            0, 1, 0, 0, 2, 1, 1, 1, 0, 0, 1, 0, 1, 1, 1, 2, 2, 2, 0
        ]
    }
}

/// The constant added at round `round` to rate position `j`.
pub open spec fn round_constant(round: int, j: int) -> int {
    round_constants_row(round)[j] as int
}

/// The constant-addition layer: the first row of every slice receives the
/// round's constants; the other rows pass through unchanged.
pub open spec fn troika_add_constants(s: Seq<u8>, round: int) -> Seq<u8> {
    Seq::new(
        729,
        |i: int|
            {
                let sl = i / 27;
                let rowcol = i % 27;
                if rowcol < 9 {
                    ((s[i] + round_constant(round, 9 * sl + rowcol)) % 3) as u8
                } else {
                    s[i]
                }
            },
    )
}

/// One Troika round.
pub open spec fn troika_round(s: Seq<u8>, round: int) -> Seq<u8> {
    troika_add_constants(
        troika_add_parity(troika_shift_lanes(troika_shift_rows(troika_sub(s)))),
        round,
    )
}

/// The first `r` rounds of the permutation, applied in order.
pub open spec fn troika_permute_upto(s: Seq<u8>, r: nat) -> Seq<u8>
    decreases r,
{
    if r == 0 {
        s
    } else {
        troika_round(troika_permute_upto(s, (r - 1) as nat), r - 1)
    }
}

/// The full Troika permutation: 24 rounds.
pub open spec fn troika_permute(s: Seq<u8>) -> Seq<u8> {
    troika_permute_upto(s, 24)
}

/// A 243-trit chunk written over the rate.
pub open spec fn troika_with_rate(s: Seq<u8>, chunk: Seq<u8>) -> Seq<u8> {
    chunk + s.skip(243)
}

/// The state after the chunks of `input` alone: each 243-trit chunk is
/// copied over the rate and followed by one permutation.
pub open spec fn troika_chunks_absorbed(s: Seq<u8>, input: Seq<u8>) -> Seq<u8>
    decreases input.len(),
{
    if input.len() < 243 {
        s
    } else {
        troika_chunks_absorbed(
            troika_permute(troika_with_rate(s, input.take(243))),
            input.skip(243),
        )
    }
}

/// The padding block of the design: a single one-trit at the first rate
/// position, zeros elsewhere.
pub open spec fn troika_pad_block() -> Seq<u8> {
    Seq::new(243, |i: int| if i == 0 { 1u8 } else { 0u8 })
}

/// The state after absorbing `input`: the chunks are mixed in one by one,
/// then the padding block is written over the rate, to be flushed by the
/// permutation that precedes the first squeezed chunk. Absorbing an empty
/// buffer does nothing.
pub open spec fn troika_absorbed(s: Seq<u8>, input: Seq<u8>) -> Seq<u8> {
    if input.len() == 0 {
        s
    } else {
        troika_with_rate(troika_chunks_absorbed(s, input), troika_pad_block())
    }
}

/// The output of squeezing `n` chunks: the permutation runs once before
/// every chunk is copied out of the rate.
pub open spec fn troika_squeezed(s: Seq<u8>, n: nat) -> Seq<u8>
    decreases n,
{
    if n == 0 {
        Seq::empty()
    } else {
        troika_permute(s).take(243) + troika_squeezed(troika_permute(s), (n - 1) as nat)
    }
}

/// The state after squeezing `n` chunks.
pub open spec fn troika_squeezed_state(s: Seq<u8>, n: nat) -> Seq<u8>
    decreases n,
{
    if n == 0 {
        s
    } else {
        troika_squeezed_state(troika_permute(s), (n - 1) as nat)
    }
}

/// The all-zero initial state.
pub open spec fn troika_initial() -> Seq<u8> {
    Seq::new(729, |i: int| 0u8)
}

/// One round keeps the state 729 packed trits long and in the packed
/// domain.
pub proof fn lemma_troika_round_wf(s: Seq<u8>, round: int)
    requires
        s.len() == 729,
        all_utrits(s),
    ensures
        troika_round(s, round).len() == 729,
        all_utrits(troika_round(s, round)),
{
    assert(all_utrits(troika_sub(s)));
    assert(all_utrits(troika_shift_rows(troika_sub(s))));
    assert(all_utrits(troika_shift_lanes(troika_shift_rows(troika_sub(s)))));
    assert(all_utrits(troika_add_parity(troika_shift_lanes(troika_shift_rows(troika_sub(s))))));
    assert(all_utrits(troika_round(s, round)));
}

/// So does the whole permutation.
pub proof fn lemma_troika_permute_upto_wf(s: Seq<u8>, r: nat)
    requires
        s.len() == 729,
        all_utrits(s),
    ensures
        troika_permute_upto(s, r).len() == 729,
        all_utrits(troika_permute_upto(s, r)),
    decreases r,
{
    if r > 0 {
        lemma_troika_permute_upto_wf(s, (r - 1) as nat);
        lemma_troika_round_wf(troika_permute_upto(s, (r - 1) as nat), r - 1);
    }
}

/// The executable S-box lookup.
fn sbox_lookup(x: u8) -> (r: u8)
    requires
        x < 27,
    ensures
        r as int == troika_sbox(x as int),
        r < 27,
{
    match x {
        0 => 6,
        1 => 25,
        2 => 17,
        3 => 5,
        4 => 15,
        5 => 10,
        6 => 4,
        7 => 20,
        8 => 24,
        9 => 0,
        10 => 1,
        11 => 2,
        12 => 9,
        13 => 22,
        14 => 26,
        15 => 18,
        16 => 16,
        17 => 14,
        18 => 3,
        19 => 13,
        20 => 23,
        21 => 7,
        22 => 11,
        23 => 12,
        24 => 8,
        25 => 21,
        _ => 19,
    }
}

/// The executable lane-shift lookup.
fn lane_shift_lookup(lane: usize) -> (r: usize)
    requires
        lane < 27,
    ensures
        r as int == lane_shift(lane as int),
        r < 27,
{
    match lane {
        0 => 19,
        1 => 13,
        2 => 21,
        3 => 10,
        4 => 24,
        5 => 15,
        6 => 2,
        7 => 9,
        8 => 3,
        9 => 14,
        10 => 0,
        11 => 6,
        12 => 5,
        13 => 1,
        14 => 25,
        15 => 22,
        16 => 23,
        17 => 20,
        18 => 7,
        19 => 17,
        20 => 26,
        21 => 12,
        22 => 8,
        23 => 18,
        24 => 16,
        25 => 11,
        _ => 4,
    }
}

/// The executable substitution layer.
fn sub_exec(s: &Vec<u8>) -> (r: Vec<u8>)
    requires
        s@.len() == 729,
        all_utrits(s@),
    ensures
        r@ == troika_sub(s@),
{
    let mut next: Vec<u8> = Vec::new();
    let mut i: usize = 0;
    while i < TROIKA_STATE_LENGTH
        invariant
            s@.len() == 729,
            all_utrits(s@),
            i <= 729,
            next@.len() == i,
            forall|j: int| 0 <= j < i ==> next@[j] == troika_sub(s@)[j],
        decreases 729 - i,
    {
        let k = i / 3;
        let a = s[3 * k];
        let b = s[3 * k + 1];
        let c = s[3 * k + 2];
        let x = 9 * a + 3 * b + c;
        let y = sbox_lookup(x);
        let digit = if i % 3 == 0 {
            y / 9
        } else if i % 3 == 1 {
            (y / 3) % 3
        } else {
            y % 3
        };
        next.push(digit);
        i = i + 1;
    }
    proof {
        assert(next@ =~= troika_sub(s@));
    }
    next
}

/// The executable row rotation.
fn shift_rows_exec(s: &Vec<u8>) -> (r: Vec<u8>)
    requires
        s@.len() == 729,
    ensures
        r@ == troika_shift_rows(s@),
{
    let mut next: Vec<u8> = Vec::new();
    let mut i: usize = 0;
    while i < TROIKA_STATE_LENGTH
        invariant
            s@.len() == 729,
            i <= 729,
            next@.len() == i,
            forall|j: int| 0 <= j < i ==> next@[j] == troika_shift_rows(s@)[j],
        decreases 729 - i,
    {
        let sl = i / 27;
        let row = (i % 27) / 9;
        let col = i % 9;
        let shift = if row == 0 {
            0
        } else if row == 1 {
            3
        } else {
            6
        };
        let v = s[27 * sl + 9 * row + (col + 9 - shift) % 9];
        next.push(v);
        i = i + 1;
    }
    proof {
        assert(next@ =~= troika_shift_rows(s@));
    }
    next
}

/// The executable lane rotation.
fn shift_lanes_exec(s: &Vec<u8>) -> (r: Vec<u8>)
    requires
        s@.len() == 729,
    ensures
        r@ == troika_shift_lanes(s@),
{
    let mut next: Vec<u8> = Vec::new();
    let mut i: usize = 0;
    while i < TROIKA_STATE_LENGTH
        invariant
            s@.len() == 729,
            i <= 729,
            next@.len() == i,
            forall|j: int| 0 <= j < i ==> next@[j] == troika_shift_lanes(s@)[j],
        decreases 729 - i,
    {
        let sl = i / 27;
        let row = (i % 27) / 9;
        let col = i % 9;
        let shift = lane_shift_lookup(9 * row + col);
        let src = (sl + 27 - shift) % 27;
        let v = s[27 * src + 9 * row + col];
        next.push(v);
        i = i + 1;
    }
    proof {
        assert(next@ =~= troika_shift_lanes(s@));
    }
    next
}

/// The executable parity of one column of a slice.
fn col_parity_exec(s: &Vec<u8>, sl: usize, col: usize) -> (r: u8)
    requires
        s@.len() == 729,
        all_utrits(s@),
        sl < 27,
        col < 9,
    ensures
        r as int == col_parity(s@, sl as int, col as int),
        r < 3,
{
    (s[27 * sl + col] + s[27 * sl + 9 + col] + s[27 * sl + 18 + col]) % 3
}

/// The executable mixing layer.
fn add_parity_exec(s: &Vec<u8>) -> (r: Vec<u8>)
    requires
        s@.len() == 729,
        all_utrits(s@),
    ensures
        r@ == troika_add_parity(s@),
{
    let mut next: Vec<u8> = Vec::new();
    let mut i: usize = 0;
    while i < TROIKA_STATE_LENGTH
        invariant
            s@.len() == 729,
            all_utrits(s@),
            i <= 729,
            next@.len() == i,
            forall|j: int| 0 <= j < i ==> next@[j] == troika_add_parity(s@)[j],
        decreases 729 - i,
    {
        let sl = i / 27;
        let col = i % 9;
        let p1 = col_parity_exec(s, sl, (col + 8) % 9);
        let p2 = col_parity_exec(s, (sl + 1) % 27, (col + 1) % 9);
        let v = (s[i] + p1 + p2) % 3;
        next.push(v);
        i = i + 1;
    }
    proof {
        assert(next@ =~= troika_add_parity(s@));
    }
    next
}

/// The executable round-constant table, one row per round.
#[verifier::rlimit(50)]
fn round_constants_vec(round: usize) -> (r: Vec<u8>)
    requires
        round < 24,
    ensures
        r@ == round_constants_row(round as int),
        r@.len() == 243,
{
    match round {
        0 => {
            let v: Vec<u8> = vec![
                2u8, 2, 2, 2, 1, 2, 0, 1, 0, 1, 1, 0, 2, 0, 1, 0, 1, 1, 0, 0, 1, 2, 1, 1, 1, 0,
                0, 2, 0, 2, 1, 0, 2, 2, 2, 1, 0, 2, 2, 0, 0, 1, 2, 2, 1, 0, 1, 0, 1, 2, 2, 2, 0,
                1, 2, 2, 1, 1, 2, 1, 1, 2, 0, 2, 0, 2, 0, 0, 0, 0, 2, 1, 1, 2, 1, 0, 1, 0, 2, 1,
                1, 0, 0, 2, 2, 2, 2, 0, 1, 1, 2, 1, 2, 2, 0, 1, 2, 2, 2, 0, 1, 0, 2, 2, 0, 2, 1,
                1, 2, 1, 2, 1, 0, 0, 2, 1, 0, 0, 1, 2, 2, 1, 1, 1, 0, 1, 0, 2, 2, 0, 2, 2, 2, 0,
                2, 2, 1, 0, 0, 0, 2, 1, 0, 0, 1, 1, 1, 2, 2, 1, 0, 1, 0, 1, 1, 1, 1, 0, 1, 2, 2,
                1, 0, 1, 0, 2, 0, 1, 2, 0, 1, 2, 2, 2, 2, 1, 0, 0, 0, 0, 2, 1, 0, 2, 1, 1, 2, 0,
                2, 1, 0, 0, 0, 1, 0, 2, 1, 2, 0, 1, 2, 1, 0, 2, 0, 2, 1, 0, 0, 1, 2, 0, 2, 2, 2,
                0, 1, 0, 2, 0, 1, 0, 2, 1, 2, 1, 2, 2, 1, 1, 2, 0, 2, 2, 1, 0, 0, 2, 0, 2, 1, 0,
                1
            ];
            proof {
                assert(v@ =~= round_constants_row(0));
            }
            v
        },
        1 => {
            let v: Vec<u8> = vec![
                1u8, 1, 1, 0, 2, 2, 0, 2, 0, 1, 0, 2, 1, 1, 0, 0, 1, 1, 1, 2, 0, 1, 1, 2, 0, 1,
                1, 1, 2, 0, 2, 2, 2, 0, 2, 1, 1, 2, 1, 0, 2, 1, 0, 2, 1, 0, 0, 2, 0, 0, 0, 0, 0,
                0, 1, 1, 0, 0, 1, 0, 0, 0, 1, 1, 0, 2, 0, 0, 0, 2, 1, 1, 0, 1, 2, 0, 1, 2, 1, 1,
                1, 0, 1, 0, 0, 0, 1, 0, 2, 2, 0, 2, 0, 2, 1, 0, 2, 1, 0, 0, 1, 2, 2, 0, 0, 0, 0,
                1, 0, 2, 2, 2, 1, 1, 0, 1, 0, 2, 1, 2, 2, 2, 1, 0, 2, 2, 0, 2, 0, 1, 2, 1, 0, 1,
                0, 0, 1, 1, 0, 1, 2, 2, 2, 0, 0, 1, 0, 0, 1, 2, 1, 1, 1, 2, 0, 0, 0, 2, 1, 0, 2,
                1, 2, 2, 1, 2, 1, 0, 0, 0, 2, 0, 0, 0, 2, 2, 1, 2, 2, 0, 0, 1, 2, 2, 1, 0, 0, 2,
                1, 2, 2, 2, 0, 1, 1, 1, 1, 2, 0, 1, 1, 2, 2, 1, 0, 1, 2, 0, 2, 2, 1, 0, 1, 2, 1,
                0, 1, 0, 1, 1, 2, 1, 1, 2, 2, 2, 1, 0, 2, 0, 0, 0, 1, 1, 2, 1, 0, 2, 0, 1, 1, 1,
                2
            ];
            proof {
                assert(v@ =~= round_constants_row(1));
            }
            v
        },
        2 => {
            let v: Vec<u8> = vec![
                0u8, 2, 0, 2, 1, 2, 1, 1, 2, 1, 1, 2, 2, 2, 2, 0, 0, 0, 0, 0, 1, 1, 0, 1, 1, 1,
                0, 0, 1, 1, 0, 0, 0, 1, 2, 2, 0, 1, 0, 2, 2, 1, 2, 2, 2, 2, 1, 2, 1, 1, 0, 0, 1,
                0, 2, 0, 2, 0, 1, 2, 0, 0, 2, 2, 2, 1, 1, 0, 0, 2, 0, 2, 2, 2, 2, 1, 2, 1, 0, 2,
                0, 2, 0, 2, 0, 2, 2, 0, 2, 2, 1, 2, 1, 2, 0, 0, 0, 0, 1, 0, 2, 1, 1, 2, 1, 0, 1,
                0, 2, 0, 1, 0, 0, 2, 2, 2, 2, 2, 1, 1, 0, 1, 2, 2, 0, 0, 2, 2, 1, 0, 1, 2, 2, 1,
                0, 2, 1, 1, 2, 1, 2, 0, 1, 0, 0, 1, 0, 0, 1, 1, 0, 1, 0, 0, 0, 0, 0, 1, 0, 0, 2,
                0, 2, 0, 0, 1, 0, 0, 1, 0, 2, 1, 0, 2, 0, 0, 0, 0, 2, 0, 0, 0, 2, 0, 1, 0, 2, 0,
                0, 1, 2, 0, 1, 1, 2, 2, 0, 2, 2, 0, 0, 2, 2, 1, 2, 0, 0, 0, 1, 0, 2, 1, 0, 1, 2,
                1, 1, 0, 2, 0, 0, 2, 1, 1, 0, 1, 1, 2, 0, 0, 1, 1, 1, 0, 0, 2, 2, 2, 2, 1, 1, 2,
                2
            ];
            proof {
                assert(v@ =~= round_constants_row(2));
            }
            v
        },
        3 => {
            let v: Vec<u8> = vec![
                1u8, 2, 2, 0, 2, 2, 0, 1, 0, 0, 0, 2, 0, 0, 0, 2, 1, 0, 2, 2, 0, 0, 1, 2, 1, 0,
                0, 1, 0, 1, 2, 2, 1, 2, 1, 0, 0, 1, 1, 2, 0, 0, 2, 2, 1, 0, 1, 2, 2, 2, 0, 2, 1,
                1, 2, 1, 2, 1, 1, 0, 2, 1, 0, 0, 1, 2, 0, 1, 1, 0, 0, 1, 0, 2, 0, 0, 2, 0, 2, 0,
                0, 2, 2, 0, 0, 0, 2, 1, 0, 0, 2, 0, 1, 1, 2, 1, 0, 1, 1, 0, 1, 2, 2, 0, 2, 2, 0,
                0, 0, 1, 2, 2, 0, 0, 0, 1, 1, 1, 2, 2, 2, 1, 1, 1, 1, 1, 1, 1, 1, 2, 2, 2, 0, 0,
                0, 0, 0, 1, 1, 1, 1, 1, 1, 0, 0, 1, 1, 1, 0, 0, 0, 2, 2, 0, 1, 1, 2, 2, 2, 2, 2,
                0, 2, 2, 2, 1, 1, 0, 0, 1, 0, 0, 2, 2, 2, 1, 2, 0, 0, 0, 1, 2, 2, 2, 0, 1, 2, 1,
                1, 2, 2, 1, 1, 2, 0, 1, 0, 0, 1, 0, 2, 0, 2, 0, 1, 0, 0, 0, 2, 2, 2, 1, 1, 1, 0,
                2, 2, 2, 2, 2, 2, 2, 2, 1, 1, 2, 0, 0, 0, 0, 0, 2, 2, 0, 2, 2, 1, 0, 0, 2, 2, 0,
                0
            ];
            proof {
                assert(v@ =~= round_constants_row(3));
            }
            v
        },
        4 => {
            let v: Vec<u8> = vec![
                0u8, 1, 1, 1, 1, 2, 0, 1, 1, 1, 1, 1, 0, 1, 2, 0, 2, 1, 0, 0, 2, 0, 1, 0, 1, 2,
                0, 1, 1, 0, 1, 1, 1, 1, 0, 0, 2, 0, 0, 0, 1, 0, 2, 2, 1, 0, 0, 1, 1, 0, 2, 1, 1,
                1, 1, 0, 1, 0, 1, 0, 1, 2, 0, 2, 0, 2, 1, 2, 1, 1, 0, 1, 1, 2, 2, 2, 2, 0, 1, 0,
                0, 2, 1, 1, 0, 1, 2, 1, 0, 1, 1, 1, 1, 0, 1, 1, 2, 2, 0, 1, 0, 2, 0, 0, 2, 1, 2,
                2, 1, 2, 2, 0, 0, 1, 2, 0, 0, 0, 0, 2, 1, 2, 2, 0, 2, 1, 0, 2, 1, 2, 0, 2, 0, 2,
                0, 0, 0, 2, 1, 1, 1, 2, 1, 0, 1, 2, 1, 1, 2, 1, 0, 2, 2, 1, 1, 0, 0, 0, 2, 0, 1,
                1, 2, 1, 2, 2, 2, 0, 1, 2, 2, 0, 1, 0, 1, 1, 2, 0, 2, 2, 2, 1, 1, 0, 2, 2, 1, 0,
                2, 2, 2, 1, 1, 1, 1, 1, 0, 1, 2, 2, 2, 2, 0, 0, 2, 0, 1, 2, 1, 0, 1, 1, 0, 0, 1,
                0, 1, 2, 2, 0, 0, 2, 0, 0, 1, 1, 2, 2, 1, 0, 0, 0, 2, 1, 2, 1, 0, 1, 1, 2, 2, 1,
                2
            ];
            proof {
                assert(v@ =~= round_constants_row(4));
            }
            v
        },
        5 => {
            let v: Vec<u8> = vec![
                2u8, 2, 2, 0, 2, 1, 0, 0, 0, 1, 0, 1, 0, 2, 0, 1, 2, 1, 0, 1, 2, 2, 2, 1, 0, 1,
                2, 2, 1, 2, 1, 2, 1, 2, 1, 2, 0, 0, 2, 1, 2, 1, 2, 1, 1, 2, 0, 1, 2, 2, 1, 2, 0,
                0, 2, 0, 0, 2, 0, 0, 1, 2, 0, 0, 0, 0, 0, 0, 2, 2, 0, 2, 1, 0, 0, 0, 2, 2, 0, 0,
                2, 0, 1, 2, 2, 2, 0, 1, 0, 0, 1, 0, 2, 1, 1, 2, 1, 0, 0, 0, 2, 0, 1, 0, 0, 2, 1,
                2, 2, 0, 1, 1, 0, 1, 1, 2, 0, 2, 2, 2, 0, 0, 0, 2, 2, 1, 0, 2, 1, 1, 1, 2, 2, 1,
                1, 0, 0, 1, 2, 1, 1, 0, 2, 1, 2, 0, 2, 1, 0, 1, 1, 0, 2, 1, 1, 2, 0, 2, 0, 0, 1,
                0, 1, 0, 2, 1, 1, 0, 2, 0, 1, 2, 2, 0, 1, 1, 1, 2, 1, 0, 2, 2, 2, 2, 1, 1, 0, 2,
                0, 1, 2, 0, 2, 2, 1, 1, 2, 1, 0, 0, 1, 0, 1, 2, 0, 0, 2, 1, 0, 0, 1, 1, 0, 2, 0,
                1, 0, 1, 0, 1, 0, 1, 2, 1, 1, 1, 2, 1, 2, 1, 1, 1, 0, 2, 1, 0, 1, 2, 0, 2, 2, 1,
                0
            ];
            proof {
                assert(v@ =~= round_constants_row(5));
            }
            v
        },
        6 => {
            let v: Vec<u8> = vec![
                0u8, 2, 1, 0, 1, 0, 1, 1, 1, 1, 1, 0, 2, 2, 1, 0, 1, 0, 0, 2, 1, 1, 1, 1, 2, 2,
                0, 1, 1, 1, 2, 0, 1, 1, 2, 2, 2, 1, 1, 2, 0, 2, 2, 1, 1, 2, 2, 0, 2, 1, 0, 1, 2,
                0, 1, 2, 0, 2, 0, 2, 1, 0, 0, 0, 0, 1, 1, 2, 2, 0, 1, 2, 0, 1, 1, 2, 1, 2, 2, 0,
                0, 0, 2, 2, 0, 1, 0, 2, 1, 1, 2, 2, 0, 2, 1, 2, 0, 1, 0, 1, 2, 0, 2, 2, 1, 0, 1,
                1, 1, 0, 1, 0, 1, 1, 2, 0, 1, 2, 0, 2, 1, 0, 2, 2, 0, 0, 0, 1, 2, 0, 0, 1, 0, 1,
                1, 1, 2, 0, 2, 2, 0, 1, 0, 1, 1, 2, 1, 0, 0, 2, 1, 1, 0, 2, 0, 2, 1, 1, 1, 1, 1,
                1, 2, 2, 2, 1, 2, 0, 0, 0, 1, 1, 1, 2, 0, 1, 2, 1, 1, 1, 1, 1, 2, 0, 0, 1, 0, 2,
                0, 0, 1, 2, 2, 2, 0, 2, 2, 0, 2, 2, 2, 1, 1, 0, 0, 0, 0, 0, 2, 2, 2, 1, 2, 2, 0,
                0, 2, 2, 2, 2, 0, 0, 2, 1, 0, 2, 2, 0, 1, 1, 0, 1, 0, 0, 1, 0, 2, 2, 0, 0, 2, 0,
                0
            ];
            proof {
                assert(v@ =~= round_constants_row(6));
            }
            v
        },
        7 => {
            let v: Vec<u8> = vec![
                0u8, 2, 1, 0, 1, 0, 0, 0, 1, 2, 1, 0, 2, 2, 0, 2, 1, 2, 1, 2, 0, 1, 0, 0, 2, 2,
                2, 1, 1, 0, 1, 0, 1, 2, 2, 2, 2, 1, 0, 2, 1, 1, 2, 1, 0, 2, 1, 0, 0, 1, 0, 0, 2,
                0, 0, 0, 1, 0, 0, 0, 1, 0, 0, 1, 1, 0, 0, 2, 1, 0, 0, 0, 1, 0, 2, 1, 1, 0, 1, 2,
                1, 0, 2, 0, 1, 1, 0, 1, 1, 2, 0, 2, 1, 2, 0, 0, 0, 2, 2, 1, 2, 2, 1, 2, 1, 2, 2,
                1, 0, 0, 0, 0, 2, 1, 0, 0, 1, 1, 2, 0, 2, 1, 0, 1, 0, 1, 2, 2, 1, 2, 0, 2, 2, 1,
                1, 2, 0, 0, 1, 1, 0, 1, 2, 0, 2, 2, 2, 1, 0, 0, 1, 0, 1, 0, 2, 2, 1, 1, 0, 0, 1,
                2, 2, 1, 1, 2, 1, 2, 0, 2, 2, 0, 2, 0, 0, 1, 1, 1, 0, 0, 0, 1, 0, 2, 1, 1, 2, 2,
                2, 1, 0, 2, 0, 1, 0, 1, 1, 2, 1, 0, 2, 1, 1, 1, 0, 2, 0, 2, 0, 0, 1, 2, 2, 1, 2,
                2, 1, 0, 2, 2, 2, 0, 0, 0, 0, 1, 0, 1, 2, 1, 1, 1, 0, 1, 0, 1, 1, 1, 0, 2, 2, 0,
                2
            ];
            proof {
                assert(v@ =~= round_constants_row(7));
            }
            v
        },
        8 => {
            let v: Vec<u8> = vec![
                1u8, 0, 1, 2, 1, 1, 0, 0, 2, 0, 2, 1, 1, 0, 1, 2, 1, 0, 2, 2, 1, 1, 0, 1, 1, 2,
                0, 1, 1, 2, 1, 0, 0, 2, 2, 0, 2, 2, 0, 2, 1, 1, 2, 0, 0, 0, 0, 0, 2, 1, 0, 2, 2,
                1, 0, 0, 2, 1, 0, 0, 1, 1, 1, 1, 1, 1, 0, 1, 0, 1, 1, 0, 0, 0, 2, 0, 2, 1, 0, 0,
                2, 2, 2, 0, 2, 2, 0, 1, 1, 2, 2, 1, 0, 0, 0, 2, 2, 2, 1, 0, 1, 1, 2, 2, 2, 2, 2,
                1, 2, 0, 2, 1, 1, 0, 0, 2, 0, 1, 1, 2, 1, 1, 2, 1, 0, 1, 2, 2, 0, 0, 0, 0, 2, 2,
                1, 2, 2, 1, 1, 0, 2, 2, 1, 0, 0, 0, 2, 1, 1, 1, 1, 1, 1, 2, 2, 1, 1, 2, 0, 0, 0,
                1, 1, 0, 2, 0, 2, 2, 1, 1, 1, 0, 1, 2, 2, 0, 1, 2, 2, 2, 0, 1, 2, 2, 2, 0, 2, 1,
                1, 2, 0, 2, 1, 1, 0, 2, 1, 0, 2, 1, 2, 1, 1, 1, 0, 0, 0, 0, 2, 2, 0, 2, 2, 2, 2,
                0, 2, 2, 0, 0, 0, 2, 0, 1, 0, 0, 0, 1, 1, 2, 0, 1, 1, 0, 2, 1, 1, 2, 2, 0, 2, 0,
                1
            ];
            proof {
                assert(v@ =~= round_constants_row(8));
            }
            v
        },
        9 => {
            let v: Vec<u8> = vec![
                0u8, 1, 0, 1, 2, 0, 1, 1, 1, 1, 2, 1, 1, 0, 0, 2, 1, 0, 1, 0, 0, 1, 2, 1, 1, 0,
                2, 2, 0, 0, 2, 1, 0, 1, 1, 1, 0, 1, 0, 1, 0, 2, 0, 1, 2, 0, 2, 1, 2, 2, 2, 1, 0,
                0, 1, 2, 2, 0, 1, 2, 1, 1, 0, 2, 2, 2, 2, 0, 1, 0, 1, 1, 1, 2, 0, 1, 2, 1, 1, 0,
                1, 1, 2, 0, 0, 1, 0, 1, 0, 0, 2, 2, 2, 2, 0, 1, 2, 0, 1, 2, 2, 0, 1, 2, 0, 0, 0,
                0, 2, 2, 2, 0, 0, 2, 1, 0, 2, 2, 2, 1, 1, 0, 1, 0, 0, 1, 2, 2, 2, 1, 0, 2, 0, 0,
                2, 2, 1, 2, 1, 0, 2, 0, 0, 2, 1, 0, 2, 2, 0, 2, 0, 0, 1, 0, 0, 1, 0, 0, 1, 0, 2,
                0, 0, 0, 0, 0, 0, 0, 2, 2, 0, 1, 0, 0, 0, 0, 2, 2, 0, 2, 1, 0, 2, 0, 2, 2, 0, 0,
                2, 0, 0, 2, 2, 0, 0, 1, 0, 0, 0, 0, 2, 0, 1, 2, 0, 0, 2, 0, 2, 0, 1, 0, 0, 2, 0,
                0, 2, 1, 1, 1, 0, 1, 0, 0, 0, 1, 1, 2, 2, 0, 2, 0, 2, 1, 1, 2, 1, 2, 0, 1, 2, 2,
                1
            ];
            proof {
                assert(v@ =~= round_constants_row(9));
            }
            v
        },
        10 => {
            let v: Vec<u8> = vec![
                0u8, 0, 1, 1, 0, 0, 2, 0, 1, 1, 0, 1, 0, 2, 1, 0, 1, 2, 0, 0, 2, 2, 0, 0, 2, 1,
                0, 2, 0, 2, 0, 1, 0, 1, 0, 0, 2, 2, 1, 1, 1, 1, 2, 0, 1, 2, 1, 2, 2, 0, 1, 2, 0,
                0, 1, 1, 0, 2, 2, 0, 0, 2, 2, 1, 0, 1, 1, 0, 1, 0, 2, 1, 1, 2, 0, 0, 0, 2, 2, 0,
                1, 0, 2, 2, 1, 2, 2, 0, 2, 1, 2, 1, 1, 0, 0, 2, 0, 2, 2, 2, 0, 1, 2, 1, 0, 2, 0,
                2, 1, 2, 0, 1, 2, 0, 2, 2, 2, 2, 1, 0, 0, 0, 1, 0, 2, 0, 2, 1, 1, 2, 1, 0, 2, 2,
                2, 2, 1, 0, 0, 2, 0, 1, 2, 0, 2, 1, 1, 1, 0, 1, 0, 0, 1, 2, 1, 2, 2, 0, 2, 0, 0,
                2, 1, 1, 0, 2, 0, 1, 0, 0, 1, 1, 1, 1, 2, 1, 1, 0, 0, 1, 1, 0, 1, 0, 0, 1, 2, 0,
                1, 0, 0, 2, 0, 0, 2, 0, 0, 1, 0, 1, 0, 0, 0, 0, 0, 2, 0, 1, 2, 0, 2, 0, 0, 2, 0,
                1, 0, 0, 1, 1, 0, 0, 0, 1, 1, 0, 0, 1, 0, 2, 2, 1, 1, 0, 2, 0, 0, 2, 1, 1, 2, 1,
                1
            ];
            proof {
                assert(v@ =~= round_constants_row(10));
            }
            v
        },
        11 => {
            let v: Vec<u8> = vec![
                2u8, 0, 0, 1, 1, 0, 0, 0, 0, 2, 2, 2, 1, 0, 2, 2, 0, 2, 2, 2, 2, 1, 0, 1, 0, 0,
                0, 2, 0, 2, 1, 2, 2, 0, 2, 2, 0, 2, 2, 2, 0, 2, 0, 0, 0, 0, 0, 2, 1, 0, 1, 0, 1,
                0, 0, 2, 1, 0, 2, 2, 1, 2, 0, 1, 1, 0, 0, 1, 1, 0, 1, 0, 2, 0, 2, 0, 1, 0, 0, 2,
                2, 2, 2, 1, 1, 1, 0, 1, 2, 2, 0, 2, 2, 2, 2, 0, 1, 2, 2, 0, 0, 2, 0, 1, 2, 0, 2,
                2, 1, 0, 0, 1, 0, 0, 1, 0, 1, 1, 1, 0, 0, 0, 0, 0, 1, 0, 1, 2, 2, 2, 0, 0, 1, 0,
                1, 1, 2, 1, 1, 1, 2, 0, 1, 0, 2, 0, 0, 2, 1, 2, 0, 1, 2, 2, 0, 0, 1, 2, 1, 0, 0,
                2, 2, 1, 2, 2, 1, 2, 1, 1, 2, 1, 0, 0, 0, 0, 2, 0, 0, 0, 2, 1, 2, 0, 2, 0, 0, 1,
                2, 1, 2, 1, 1, 1, 0, 2, 2, 1, 1, 2, 0, 2, 2, 1, 1, 1, 2, 0, 2, 1, 0, 1, 2, 2, 1,
                2, 1, 2, 0, 2, 1, 2, 0, 0, 2, 1, 1, 1, 2, 2, 1, 2, 0, 1, 1, 2, 1, 1, 0, 0, 1, 0,
                2
            ];
            proof {
                assert(v@ =~= round_constants_row(11));
            }
            v
        },
        12 => {
            let v: Vec<u8> = vec![
                2u8, 0, 0, 1, 2, 0, 0, 2, 1, 0, 1, 2, 2, 0, 2, 0, 1, 0, 2, 1, 2, 2, 0, 1, 1, 1,
                2, 0, 2, 0, 2, 2, 2, 1, 1, 2, 1, 1, 2, 0, 2, 2, 2, 0, 0, 0, 0, 2, 1, 0, 2, 1, 1,
                1, 0, 2, 1, 0, 0, 0, 1, 2, 2, 1, 0, 0, 1, 2, 1, 2, 2, 0, 1, 1, 0, 2, 1, 1, 0, 2,
                2, 2, 0, 1, 0, 1, 1, 1, 1, 2, 1, 2, 1, 1, 0, 1, 0, 1, 0, 1, 2, 0, 1, 0, 2, 1, 2,
                1, 1, 0, 0, 1, 2, 0, 2, 2, 0, 1, 2, 0, 2, 0, 1, 0, 0, 2, 0, 0, 1, 1, 1, 1, 0, 1,
                0, 0, 2, 1, 1, 0, 2, 0, 2, 0, 1, 1, 1, 1, 1, 2, 2, 1, 1, 2, 1, 0, 0, 1, 1, 0, 2,
                0, 0, 2, 1, 0, 1, 0, 1, 2, 0, 0, 1, 0, 2, 2, 1, 1, 0, 2, 2, 0, 2, 1, 1, 2, 1, 1,
                1, 0, 0, 2, 1, 0, 0, 0, 2, 2, 2, 1, 1, 0, 1, 2, 2, 2, 2, 2, 2, 1, 0, 1, 2, 1, 0,
                0, 0, 2, 1, 2, 1, 1, 2, 1, 2, 2, 1, 2, 2, 0, 0, 0, 1, 0, 0, 0, 0, 2, 1, 1, 1, 0,
                0
            ];
            proof {
                assert(v@ =~= round_constants_row(12));
            }
            v
        },
        13 => {
            let v: Vec<u8> = vec![
                2u8, 0, 2, 1, 1, 2, 2, 2, 1, 0, 2, 2, 1, 0, 1, 1, 2, 1, 0, 1, 1, 1, 2, 0, 2, 0,
                2, 2, 0, 1, 1, 2, 1, 1, 2, 0, 0, 2, 2, 2, 0, 0, 0, 2, 2, 0, 2, 2, 1, 1, 1, 2, 2,
                0, 0, 0, 1, 2, 2, 1, 1, 2, 1, 1, 1, 2, 2, 0, 2, 0, 0, 0, 2, 1, 1, 2, 0, 1, 0, 1,
                2, 1, 1, 0, 2, 0, 1, 1, 1, 1, 0, 1, 1, 2, 1, 2, 1, 0, 2, 0, 0, 2, 0, 1, 2, 2, 0,
                2, 0, 0, 0, 1, 0, 2, 2, 0, 1, 0, 1, 1, 0, 2, 1, 0, 2, 1, 1, 0, 0, 1, 0, 0, 0, 0,
                1, 1, 2, 0, 0, 0, 2, 0, 1, 1, 2, 2, 2, 1, 2, 0, 1, 2, 2, 1, 1, 2, 0, 1, 0, 0, 2,
                0, 2, 0, 2, 0, 1, 0, 1, 0, 2, 1, 2, 1, 1, 1, 1, 2, 2, 0, 2, 2, 0, 2, 0, 1, 1, 2,
                0, 0, 0, 0, 1, 1, 2, 2, 2, 2, 1, 0, 1, 1, 2, 1, 1, 0, 2, 1, 2, 0, 2, 0, 0, 1, 1,
                0, 2, 1, 1, 1, 0, 2, 1, 0, 1, 0, 1, 2, 2, 1, 0, 0, 2, 2, 1, 1, 2, 0, 1, 1, 1, 2,
                1
            ];
            proof {
                assert(v@ =~= round_constants_row(13));
            }
            v
        },
        14 => {
            let v: Vec<u8> = vec![
                2u8, 0, 2, 0, 2, 1, 1, 0, 1, 1, 1, 1, 2, 2, 1, 1, 0, 0, 1, 0, 1, 1, 0, 2, 1, 2,
                0, 0, 1, 0, 0, 1, 0, 2, 1, 2, 2, 0, 0, 0, 0, 2, 0, 2, 0, 2, 1, 1, 0, 2, 0, 2, 1,
                2, 2, 1, 1, 1, 2, 2, 2, 2, 0, 0, 2, 2, 1, 1, 1, 0, 1, 1, 0, 2, 1, 2, 2, 2, 0, 0,
                0, 1, 0, 2, 0, 1, 1, 1, 1, 1, 0, 2, 2, 1, 2, 1, 0, 0, 2, 1, 1, 1, 0, 2, 2, 1, 1,
                1, 1, 2, 2, 1, 1, 1, 2, 2, 0, 1, 1, 0, 2, 2, 1, 1, 2, 2, 2, 0, 1, 1, 1, 2, 0, 1,
                1, 1, 2, 2, 1, 1, 2, 0, 2, 1, 1, 1, 0, 2, 0, 2, 1, 2, 1, 2, 2, 1, 2, 2, 2, 2, 2,
                1, 0, 0, 0, 0, 1, 0, 0, 2, 1, 1, 2, 0, 1, 0, 0, 1, 1, 1, 0, 2, 0, 1, 0, 0, 1, 1,
                2, 1, 2, 1, 1, 0, 0, 1, 2, 0, 1, 2, 0, 1, 2, 0, 2, 0, 0, 0, 0, 0, 0, 0, 1, 1, 0,
                1, 0, 0, 0, 0, 1, 1, 0, 0, 2, 0, 2, 0, 1, 1, 0, 2, 1, 0, 2, 1, 1, 2, 0, 1, 0, 0,
                0
            ];
            proof {
                assert(v@ =~= round_constants_row(14));
            }
            v
        },
        15 => {
            let v: Vec<u8> = vec![
                0u8, 1, 0, 2, 0, 1, 0, 2, 0, 1, 0, 2, 2, 1, 1, 2, 2, 1, 1, 2, 1, 1, 2, 0, 1, 0,
                2, 0, 0, 0, 0, 2, 0, 1, 2, 2, 0, 1, 0, 2, 0, 1, 0, 2, 2, 2, 1, 2, 2, 1, 1, 2, 1,
                2, 2, 0, 0, 0, 2, 0, 0, 1, 0, 2, 1, 1, 2, 0, 0, 2, 0, 2, 0, 1, 0, 2, 2, 0, 0, 2,
                1, 1, 1, 2, 1, 0, 1, 0, 1, 1, 2, 1, 0, 2, 2, 2, 1, 0, 2, 0, 2, 0, 1, 2, 2, 1, 0,
                2, 2, 1, 1, 0, 2, 0, 1, 0, 1, 1, 2, 1, 1, 2, 1, 1, 1, 0, 2, 0, 0, 0, 0, 0, 2, 2,
                1, 2, 0, 1, 0, 0, 2, 2, 1, 0, 1, 0, 1, 0, 1, 2, 1, 1, 2, 2, 1, 2, 1, 1, 1, 0, 0,
                1, 0, 0, 2, 0, 2, 2, 2, 0, 0, 0, 1, 0, 2, 0, 2, 1, 1, 1, 1, 0, 2, 2, 2, 2, 1, 2,
                0, 2, 1, 1, 2, 0, 2, 0, 1, 1, 2, 1, 0, 2, 1, 1, 1, 2, 2, 0, 2, 0, 0, 1, 2, 1, 1,
                2, 0, 1, 0, 2, 2, 1, 0, 0, 2, 0, 1, 2, 1, 1, 1, 1, 1, 0, 1, 0, 1, 0, 2, 0, 0, 2,
                0
            ];
            proof {
                assert(v@ =~= round_constants_row(15));
            }
            v
        },
        16 => {
            let v: Vec<u8> = vec![
                2u8, 1, 2, 2, 2, 0, 0, 0, 2, 2, 2, 0, 1, 1, 1, 1, 2, 2, 2, 1, 2, 2, 1, 0, 1, 1,
                1, 2, 0, 0, 0, 1, 2, 0, 1, 1, 2, 2, 1, 1, 2, 0, 0, 2, 2, 1, 0, 2, 0, 2, 2, 0, 2,
                1, 1, 0, 2, 2, 0, 0, 0, 2, 1, 1, 1, 1, 0, 1, 1, 2, 1, 1, 2, 0, 2, 0, 0, 2, 0, 0,
                0, 2, 1, 1, 0, 0, 0, 0, 1, 2, 1, 1, 1, 2, 2, 0, 1, 2, 1, 0, 2, 1, 1, 2, 2, 0, 1,
                2, 0, 0, 1, 0, 1, 2, 2, 0, 0, 2, 2, 0, 1, 1, 2, 2, 1, 0, 2, 0, 2, 2, 2, 1, 0, 1,
                0, 2, 2, 0, 2, 2, 1, 2, 2, 2, 1, 0, 0, 0, 1, 0, 0, 1, 2, 1, 1, 2, 1, 0, 0, 0, 2,
                1, 0, 0, 0, 2, 1, 2, 2, 1, 0, 1, 2, 2, 1, 2, 0, 0, 1, 2, 1, 2, 0, 0, 1, 2, 2, 2,
                1, 1, 1, 2, 2, 2, 2, 1, 2, 2, 2, 1, 1, 1, 0, 2, 0, 0, 1, 2, 2, 2, 2, 1, 2, 0, 2,
                2, 2, 1, 0, 2, 0, 1, 1, 0, 2, 2, 1, 0, 2, 1, 2, 0, 1, 1, 1, 1, 0, 0, 2, 1, 0, 2,
                1
            ];
            proof {
                assert(v@ =~= round_constants_row(16));
            }
            v
        },
        17 => {
            let v: Vec<u8> = vec![
                0u8, 2, 2, 1, 1, 0, 0, 0, 0, 0, 1, 1, 2, 1, 2, 2, 0, 0, 1, 1, 2, 0, 1, 0, 2, 1,
                2, 1, 2, 2, 0, 1, 2, 0, 2, 2, 1, 0, 2, 2, 0, 0, 1, 0, 1, 1, 0, 1, 0, 1, 2, 0, 1,
                0, 0, 0, 2, 1, 1, 0, 0, 1, 0, 2, 2, 1, 1, 1, 2, 0, 0, 2, 1, 1, 2, 2, 1, 2, 2, 0,
                1, 1, 0, 1, 0, 0, 0, 2, 2, 2, 0, 0, 2, 0, 2, 2, 2, 2, 1, 1, 0, 0, 2, 0, 2, 0, 2,
                2, 1, 2, 1, 0, 2, 1, 2, 0, 1, 0, 2, 2, 0, 0, 2, 1, 0, 1, 2, 1, 0, 1, 0, 1, 0, 2,
                1, 1, 2, 2, 2, 1, 2, 2, 0, 1, 0, 1, 1, 2, 0, 0, 2, 2, 1, 1, 0, 2, 2, 2, 0, 2, 1,
                2, 1, 1, 1, 2, 1, 0, 2, 2, 2, 0, 2, 1, 0, 2, 0, 1, 2, 1, 0, 2, 0, 0, 2, 1, 0, 1,
                2, 0, 2, 0, 0, 1, 0, 2, 1, 0, 1, 1, 0, 2, 0, 2, 0, 0, 2, 0, 0, 1, 2, 2, 1, 0, 0,
                0, 0, 2, 2, 2, 0, 1, 1, 2, 0, 2, 2, 2, 1, 2, 2, 2, 2, 1, 0, 2, 2, 0, 0, 1, 0, 2,
                1
            ];
            proof {
                assert(v@ =~= round_constants_row(17));
            }
            v
        },
        18 => {
            let v: Vec<u8> = vec![
                0u8, 1, 0, 1, 2, 0, 2, 0, 0, 2, 2, 1, 1, 0, 1, 1, 0, 0, 2, 1, 2, 1, 0, 0, 0, 2,
                1, 1, 2, 2, 2, 1, 2, 2, 1, 1, 0, 1, 1, 2, 0, 0, 0, 2, 1, 0, 0, 2, 2, 2, 1, 2, 1,
                0, 1, 1, 2, 2, 2, 0, 2, 2, 2, 0, 2, 1, 1, 1, 0, 0, 2, 1, 0, 2, 1, 2, 2, 2, 1, 1,
                0, 0, 0, 2, 0, 1, 2, 2, 1, 2, 2, 2, 0, 1, 0, 2, 0, 0, 0, 1, 1, 2, 1, 2, 2, 0, 1,
                1, 1, 2, 0, 1, 0, 2, 2, 2, 1, 1, 2, 0, 1, 2, 1, 2, 2, 2, 0, 2, 0, 0, 1, 1, 0, 1,
                1, 0, 1, 0, 2, 1, 0, 0, 0, 0, 0, 2, 2, 0, 0, 1, 2, 0, 0, 2, 2, 0, 1, 2, 2, 0, 2,
                0, 2, 0, 2, 0, 2, 2, 0, 1, 2, 1, 2, 1, 2, 0, 0, 2, 0, 1, 1, 2, 1, 1, 2, 0, 0, 1,
                2, 2, 0, 0, 0, 2, 2, 2, 2, 2, 2, 1, 1, 2, 2, 2, 0, 0, 0, 2, 2, 0, 1, 1, 1, 1, 1,
                2, 2, 0, 2, 2, 1, 0, 0, 1, 1, 2, 0, 0, 1, 1, 1, 0, 1, 2, 2, 2, 2, 1, 1, 2, 0, 1,
                2
            ];
            proof {
                assert(v@ =~= round_constants_row(18));
            }
            v
        },
        19 => {
            let v: Vec<u8> = vec![
                1u8, 0, 2, 2, 0, 2, 0, 0, 1, 2, 0, 1, 0, 0, 1, 0, 2, 2, 0, 0, 1, 0, 0, 0, 2, 1,
                0, 1, 2, 0, 0, 2, 2, 1, 0, 2, 1, 0, 2, 0, 2, 1, 1, 0, 0, 0, 0, 2, 2, 2, 1, 1, 2,
                2, 0, 2, 2, 2, 2, 2, 0, 1, 2, 0, 0, 2, 0, 0, 1, 2, 0, 0, 2, 0, 0, 0, 2, 2, 0, 2,
                0, 0, 0, 1, 2, 2, 0, 0, 1, 0, 1, 1, 2, 2, 2, 1, 2, 0, 1, 0, 2, 1, 1, 2, 0, 1, 0,
                1, 2, 0, 1, 0, 2, 0, 1, 1, 1, 0, 0, 1, 2, 2, 1, 2, 1, 2, 2, 0, 2, 2, 0, 0, 2, 1,
                0, 2, 0, 0, 0, 1, 0, 1, 0, 0, 2, 0, 1, 1, 0, 1, 2, 0, 1, 0, 1, 2, 0, 0, 1, 0, 0,
                1, 1, 1, 0, 2, 2, 0, 0, 0, 1, 1, 2, 1, 1, 0, 1, 1, 1, 1, 2, 0, 0, 1, 0, 0, 1, 0,
                1, 2, 2, 2, 0, 0, 0, 0, 1, 1, 2, 1, 1, 1, 1, 0, 1, 1, 2, 0, 0, 2, 0, 2, 0, 0, 2,
                2, 2, 0, 0, 2, 1, 0, 0, 2, 2, 1, 1, 0, 1, 0, 1, 1, 2, 1, 2, 1, 0, 2, 1, 0, 2, 0,
                1
            ];
            proof {
                assert(v@ =~= round_constants_row(19));
            }
            v
        },
        20 => {
            let v: Vec<u8> = vec![
                2u8, 2, 0, 0, 0, 0, 2, 1, 0, 2, 2, 1, 1, 0, 2, 1, 0, 0, 1, 1, 2, 1, 1, 0, 0, 1,
                0, 1, 2, 0, 0, 1, 2, 0, 0, 1, 1, 0, 2, 2, 2, 0, 2, 2, 1, 0, 1, 1, 2, 1, 0, 0, 1,
                1, 2, 0, 2, 0, 2, 1, 0, 1, 2, 2, 1, 1, 2, 2, 0, 2, 1, 2, 0, 2, 0, 1, 2, 0, 2, 2,
                1, 1, 1, 1, 0, 0, 1, 0, 1, 2, 2, 0, 2, 2, 0, 0, 1, 1, 2, 2, 0, 0, 0, 1, 2, 1, 2,
                1, 2, 1, 1, 1, 2, 1, 1, 2, 1, 2, 0, 2, 1, 0, 0, 0, 0, 1, 1, 1, 2, 0, 1, 2, 0, 1,
                1, 1, 1, 2, 0, 0, 0, 0, 2, 1, 0, 1, 2, 2, 1, 0, 2, 1, 0, 2, 1, 2, 0, 1, 0, 0, 0,
                0, 0, 2, 1, 0, 1, 0, 2, 0, 0, 2, 1, 0, 2, 2, 2, 2, 0, 0, 1, 0, 0, 1, 2, 0, 1, 1,
                2, 0, 0, 0, 2, 0, 0, 2, 2, 2, 2, 1, 2, 0, 0, 0, 2, 2, 0, 2, 0, 1, 2, 1, 2, 2, 0,
                0, 1, 1, 0, 1, 1, 0, 2, 1, 2, 1, 0, 0, 0, 0, 1, 0, 2, 2, 2, 1, 2, 0, 1, 0, 2, 1,
                2
            ];
            proof {
                assert(v@ =~= round_constants_row(20));
            }
            v
        },
        21 => {
            let v: Vec<u8> = vec![
                2u8, 0, 1, 0, 1, 2, 0, 2, 0, 2, 2, 1, 1, 1, 0, 1, 1, 2, 0, 1, 2, 2, 2, 0, 0, 2,
                2, 0, 0, 2, 1, 1, 1, 0, 2, 0, 1, 0, 1, 1, 2, 2, 1, 2, 1, 1, 1, 0, 2, 1, 0, 0, 2,
                0, 2, 2, 1, 0, 0, 1, 1, 0, 2, 0, 1, 1, 1, 0, 1, 0, 1, 2, 1, 2, 1, 2, 0, 2, 1, 1,
                1, 1, 2, 1, 1, 1, 2, 1, 2, 0, 1, 0, 0, 2, 1, 0, 1, 1, 0, 1, 0, 1, 1, 0, 2, 0, 0,
                0, 2, 1, 0, 0, 1, 2, 0, 1, 2, 1, 0, 1, 0, 2, 0, 0, 0, 1, 2, 2, 2, 2, 2, 0, 1, 1,
                2, 2, 1, 0, 0, 1, 2, 2, 2, 1, 0, 1, 1, 0, 2, 2, 1, 2, 1, 2, 0, 0, 1, 1, 1, 0, 2,
                1, 1, 2, 2, 1, 1, 2, 1, 0, 1, 0, 1, 0, 2, 0, 0, 2, 2, 2, 1, 2, 2, 2, 0, 0, 2, 2,
                2, 0, 0, 1, 1, 1, 0, 2, 2, 1, 1, 2, 1, 1, 2, 1, 1, 1, 2, 0, 0, 0, 0, 0, 0, 2, 1,
                2, 2, 1, 0, 0, 0, 2, 1, 2, 0, 0, 1, 1, 2, 2, 1, 2, 1, 2, 2, 1, 2, 1, 0, 0, 2, 1,
                0
            ];
            proof {
                assert(v@ =~= round_constants_row(21));
            }
            v
        },
        22 => {
            let v: Vec<u8> = vec![
                0u8, 0, 2, 2, 1, 1, 1, 0, 1, 2, 2, 2, 1, 2, 2, 2, 0, 1, 2, 1, 2, 0, 0, 1, 1, 2,
                0, 1, 1, 1, 2, 2, 1, 2, 2, 0, 2, 1, 1, 1, 0, 0, 0, 2, 0, 2, 1, 2, 2, 2, 2, 2, 0,
                2, 2, 2, 0, 1, 0, 0, 1, 0, 0, 2, 1, 2, 1, 0, 0, 0, 0, 1, 1, 2, 2, 2, 1, 2, 0, 1,
                1, 2, 1, 1, 2, 0, 1, 0, 2, 2, 0, 0, 0, 2, 0, 1, 2, 1, 0, 1, 1, 2, 0, 1, 0, 1, 2,
                2, 0, 2, 2, 0, 1, 1, 1, 2, 2, 0, 0, 0, 2, 2, 1, 1, 1, 2, 1, 1, 2, 2, 1, 2, 2, 1,
                0, 0, 0, 1, 0, 0, 0, 0, 1, 1, 2, 1, 0, 0, 2, 0, 1, 1, 2, 0, 2, 1, 1, 0, 1, 2, 2,
                2, 1, 2, 1, 1, 0, 1, 2, 1, 2, 0, 2, 0, 1, 0, 1, 1, 1, 1, 1, 1, 1, 1, 1, 0, 1, 0,
                0, 0, 0, 0, 0, 2, 0, 2, 0, 2, 0, 0, 0, 2, 0, 2, 1, 2, 1, 0, 1, 2, 0, 2, 2, 2, 2,
                2, 2, 1, 0, 1, 0, 2, 0, 0, 0, 2, 1, 2, 2, 2, 2, 0, 1, 2, 1, 2, 0, 1, 0, 1, 2, 0,
                1
            ];
            proof {
                assert(v@ =~= round_constants_row(22));
            }
            v
        },
        _ => {
            let v: Vec<u8> = vec![
                1u8, 1, 0, 1, 1, 1, 0, 0, 2, 1, 2, 0, 0, 1, 2, 2, 1, 1, 2, 1, 2, 2, 2, 2, 0, 2,
                0, 0, 1, 0, 1, 0, 1, 0, 1, 0, 2, 0, 1, 2, 1, 2, 1, 2, 2, 2, 1, 0, 1, 1, 2, 1, 0,
                1, 2, 1, 2, 0, 2, 0, 2, 2, 1, 1, 1, 1, 1, 1, 2, 0, 1, 2, 2, 0, 0, 0, 1, 2, 0, 0,
                2, 2, 1, 1, 1, 2, 0, 2, 0, 2, 1, 2, 2, 1, 2, 1, 1, 2, 2, 2, 0, 0, 0, 2, 0, 0, 1,
                1, 1, 1, 1, 2, 0, 0, 2, 1, 1, 0, 0, 1, 2, 2, 0, 1, 1, 1, 2, 0, 2, 2, 2, 2, 2, 1,
                1, 2, 1, 0, 2, 0, 0, 2, 2, 0, 0, 2, 0, 2, 0, 0, 2, 0, 1, 0, 0, 2, 1, 0, 0, 0, 1,
                1, 0, 1, 1, 0, 1, 2, 1, 1, 0, 0, 0, 0, 0, 1, 1, 0, 1, 2, 2, 0, 0, 1, 1, 0, 0, 1,
                2, 2, 1, 2, 1, 0, 2, 0, 2, 2, 0, 0, 2, 2, 0, 2, 2, 0, 0, 1, 0, 2, 0, 0, 0, 0, 1,
                2, 0, 2, 2, 0, 1, 0, 1, 2, 0, 1, 0, 0, 2, 1, 1, 1, 0, 0, 1, 0, 1, 1, 1, 2, 2, 2,
                0
            ];
            proof {
                assert(v@ =~= round_constants_row(23));
            }
            v
        },
    }
}

/// The executable constant-addition layer.
fn add_constants_exec(s: &Vec<u8>, round: usize) -> (r: Vec<u8>)
    requires
        s@.len() == 729,
        all_utrits(s@),
        round < 24,
    ensures
        r@ == troika_add_constants(s@, round as int),
{
    let rcrow = round_constants_vec(round);
    let mut next: Vec<u8> = Vec::new();
    let mut i: usize = 0;
    while i < TROIKA_STATE_LENGTH
        invariant
            s@.len() == 729,
            all_utrits(s@),
            round < 24,
            rcrow@ == round_constants_row(round as int),
            rcrow@.len() == 243,
            i <= 729,
            next@.len() == i,
            forall|j: int| 0 <= j < i ==> next@[j] == troika_add_constants(s@, round as int)[j],
        decreases 729 - i,
    {
        let sl = i / 27;
        let rowcol = i % 27;
        let v = if rowcol < 9 {
            ((s[i] as u16 + rcrow[9 * sl + rowcol] as u16) % 3) as u8
        } else {
            s[i]
        };
        next.push(v);
        i = i + 1;
    }
    proof {
        assert(next@ =~= troika_add_constants(s@, round as int));
    }
    next
}

/// The chunks of two chunk-aligned buffers absorbed in turn equal the
/// chunks of their concatenation.
pub proof fn lemma_troika_chunks_append(s: Seq<u8>, a: Seq<u8>, b: Seq<u8>)
    requires
        a.len() % 243 == 0,
        b.len() % 243 == 0,
    ensures
        troika_chunks_absorbed(troika_chunks_absorbed(s, a), b) == troika_chunks_absorbed(
            s,
            a + b,
        ),
    decreases a.len(),
{
    if a.len() == 0 {
        assert(a + b =~= b);
    } else {
        if a.len() < 243 {
            vstd::arithmetic::div_mod::lemma_small_mod(a.len(), 243);
        }
        assert(a.len() >= 243);
        assert((a + b).take(243) =~= a.take(243));
        assert((a + b).skip(243) =~= a.skip(243) + b);
        vstd::arithmetic::div_mod::lemma_mod_sub_multiples_vanish(a.len() as int, 243);
        assert(a.skip(243).len() % 243 == 0);
        lemma_troika_chunks_append(
            troika_permute(troika_with_rate(s, a.take(243))),
            a.skip(243),
            b,
        );
    }
}

/// Writing the rate (as the padding block does) has no effect on a
/// subsequent non-empty chunk absorption: its first chunk overwrites the
/// rate before anything is mixed.
pub proof fn lemma_troika_chunks_ignore_rate(x: Seq<u8>, chunk: Seq<u8>, b: Seq<u8>)
    requires
        chunk.len() == 243,
        b.len() % 243 == 0,
        b.len() > 0,
    ensures
        troika_chunks_absorbed(troika_with_rate(x, chunk), b) == troika_chunks_absorbed(x, b),
{
    if b.len() < 243 {
        vstd::arithmetic::div_mod::lemma_small_mod(b.len(), 243);
    }
    assert(b.len() >= 243);
    assert(troika_with_rate(troika_with_rate(x, chunk), b.take(243)) =~= troika_with_rate(
        x,
        b.take(243),
    ));
}

/// Chunk-alignment associativity: absorbing two chunk-aligned buffers in
/// turn leaves the same state as absorbing their concatenation, because
/// each 243-trit chunk triggers exactly one permutation either way (the
/// padding block left by the first call is overwritten unused by the
/// second call's first chunk).
pub proof fn lemma_troika_absorb_append(s: Seq<u8>, a: Seq<u8>, b: Seq<u8>)
    requires
        a.len() % 243 == 0,
        b.len() % 243 == 0,
    ensures
        troika_absorbed(troika_absorbed(s, a), b) == troika_absorbed(s, a + b),
{
    if a.len() == 0 {
        assert(a + b =~= b);
    } else if b.len() == 0 {
        assert(a + b =~= a);
    } else {
        let x = troika_chunks_absorbed(s, a);
        lemma_troika_chunks_ignore_rate(x, troika_pad_block(), b);
        lemma_troika_chunks_append(s, a, b);
    }
}

/// Determinism: absorbing the same input into equal states and squeezing
/// the same number of chunks yields the same output and final state.
pub proof fn lemma_troika_deterministic(s1: Seq<u8>, s2: Seq<u8>, input: Seq<u8>, n: nat)
    requires
        s1 == s2,
    ensures
        troika_squeezed(troika_absorbed(s1, input), n) == troika_squeezed(
            troika_absorbed(s2, input),
            n,
        ),
        troika_squeezed_state(troika_absorbed(s1, input), n) == troika_squeezed_state(
            troika_absorbed(s2, input),
            n,
        ),
{
}

/// Reset erases history: a reset leaves the all-zero state whatever the
/// engine did before, so the digest computed after a reset depends on the
/// freshly absorbed input alone.
pub proof fn lemma_troika_reset_erases_history(s1: Seq<u8>, s2: Seq<u8>, x: Seq<u8>, n: nat)
    requires
        s1 == troika_initial(),
        s2 == troika_initial(),
    ensures
        troika_squeezed(troika_absorbed(s1, x), n) == troika_squeezed(troika_absorbed(s2, x), n),
{
}

/// Squeezed output consists of packed trits whenever the state does.
pub proof fn lemma_troika_squeezed_trits(s: Seq<u8>, n: nat)
    requires
        s.len() == 729,
        all_utrits(s),
    ensures
        troika_squeezed(s, n).len() == 243 * n,
        all_utrits(troika_squeezed(s, n)),
    decreases n,
{
    if n > 0 {
        lemma_troika_permute_upto_wf(s, 24);
        lemma_troika_squeezed_trits(troika_permute(s), (n - 1) as nat);
    }
}

/// The fixed-round ternary sponge. Unlike Curl it takes no construction
/// parameter: there is exactly one round count and one state shape, so
/// construction cannot fail.
#[derive(Clone, Debug)]
pub struct Troika {
    state: Vec<u8>,
}

impl Troika {
    /// Well-formedness: 729 state trits in the packed domain.
    pub closed spec fn wf(&self) -> bool {
        &&& self.state@.len() == 729
        &&& all_utrits(self.state@)
    }

    /// The logical state.
    pub closed spec fn state_view(&self) -> Seq<u8> {
        self.state@
    }

    /// Constructs the engine, zero-initialized.
    pub fn new() -> (t: Troika)
        ensures
            t.wf(),
            t.state_view() == troika_initial(),
    {
        let mut state: Vec<u8> = Vec::new();
        let mut i: usize = 0;
        while i < TROIKA_STATE_LENGTH
            invariant
                i <= 729,
                state@.len() == i,
                forall|j: int| 0 <= j < i ==> state@[j] == 0u8,
            decreases 729 - i,
        {
            state.push(0);
            i = i + 1;
        }
        proof {
            assert(state@ =~= troika_initial());
        }
        Troika { state }
    }

    /// Runs the 24-round permutation on the state.
    fn permute(&mut self)
        requires
            old(self).wf(),
        ensures
            final(self).wf(),
            final(self).state@ == troika_permute(old(self).state@),
    {
        let ghost orig = self.state@;
        let mut r: usize = 0;
        while r < TROIKA_ROUNDS
            invariant
                self.wf(),
                r <= 24,
                self.state@ == troika_permute_upto(orig, r as nat),
            decreases 24 - r,
        {
            let next = {
                let a = sub_exec(&self.state);
                let b = shift_rows_exec(&a);
                let c = shift_lanes_exec(&b);
                proof {
                    assert(all_utrits(a@));
                    assert(all_utrits(c@));
                }
                let d = add_parity_exec(&c);
                add_constants_exec(&d, r)
            };
            self.state = next;
            r = r + 1;
        }
    }

    /// Absorb packed trits into the sponge, 243-trit chunk by chunk, and
    /// leave the design's padding block in the rate, ready to be flushed
    /// by the first squeeze. Absorbing an empty buffer is a no-op.
    ///
    /// * `trits` - A slice of packed trits whose length is a multiple of
    ///   243
    pub fn absorb(&mut self, trits: &[u8]) -> (r: Result<(), Error>)
        requires
            old(self).wf(),
            all_utrits(trits@),
        ensures
            final(self).wf(),
            r is Ok <==> trits@.len() % 243 == 0,
            trits@.len() % 243 == 0 ==> final(self).state_view() == troika_absorbed(
                old(self).state_view(),
                trits@,
            ),
            trits@.len() % 243 != 0 ==> final(self).state_view() == old(self).state_view() && r
                == Err::<(), Error>(Error::InvalidInputLength(trits@.len() as usize)),
    {
        if trits.len() % BLOCK_LENGTH != 0 {
            return Err(Error::InvalidInputLength(trits.len()));
        }
        if trits.len() == 0 {
            return Ok(());
        }
        let ghost orig = self.state@;
        let ghost input = trits@;
        let chunks = trits.len() / BLOCK_LENGTH;
        let total = trits.len();
        proof {
            vstd::arithmetic::div_mod::lemma_fundamental_div_mod(input.len() as int, 243);
            assert(input.skip(0) =~= input);
        }
        let mut c: usize = 0;
        let mut offset: usize = 0;
        while c < chunks
            invariant
                self.wf(),
                all_utrits(input),
                trits@ == input,
                total == input.len(),
                input.len() == 243 * chunks,
                c <= chunks,
                offset == 243 * c,
                troika_chunks_absorbed(self.state@, input.skip(offset as int))
                    == troika_chunks_absorbed(orig, input),
            decreases chunks - c,
        {
            let ghost pre = self.state@;
            let mut j: usize = 0;
            while j < BLOCK_LENGTH
                invariant
                    all_utrits(input),
                    trits@ == input,
                    total == input.len(),
                    input.len() == 243 * chunks,
                    c < chunks,
                    offset == 243 * c,
                    j <= 243,
                    self.wf(),
                    forall|k: int| 0 <= k < j ==> self.state@[k] == input[offset + k],
                    forall|k: int| j <= k < 729 ==> self.state@[k] == pre[k],
                decreases 243 - j,
            {
                self.state.set(j, trits[offset + j]);
                j = j + 1;
            }
            proof {
                assert(self.state@ =~= troika_with_rate(
                    pre,
                    input.subrange(offset as int, offset + 243),
                ));
                assert(input.skip(offset as int).take(243) =~= input.subrange(
                    offset as int,
                    offset + 243,
                ));
                assert(input.skip(offset as int).skip(243) =~= input.skip(offset + 243));
                assert(input.skip(offset as int).len() >= 243);
                assert(offset + 243 <= total);
            }
            self.permute();
            c = c + 1;
            offset = offset + 243;
        }
        proof {
            assert(input.skip(input.len() as int) =~= Seq::<u8>::empty());
        }
        let ghost mixed = self.state@;
        let mut j: usize = 0;
        while j < BLOCK_LENGTH
            invariant
                self.state@.len() == 729,
                all_utrits(self.state@),
                j <= 243,
                forall|k: int| 0 <= k < j ==> self.state@[k] == troika_pad_block()[k],
                forall|k: int| j <= k < 729 ==> self.state@[k] == mixed[k],
            decreases 243 - j,
        {
            if j == 0 {
                self.state.set(j, 1);
            } else {
                self.state.set(j, 0);
            }
            j = j + 1;
        }
        proof {
            assert(self.state@ =~= troika_with_rate(mixed, troika_pad_block()));
        }
        Ok(())
    }

    /// Squeeze packed trits out of the sponge and copy them into `out`,
    /// 243-trit chunk by chunk; the permutation runs once before every
    /// chunk is copied out of the rate, as the design fixes.
    ///
    /// * `out` - A slice whose length is a multiple of 243
    pub fn squeeze(&mut self, out: &mut [u8]) -> (r: Result<(), Error>)
        requires
            old(self).wf(),
        ensures
            final(self).wf(),
            final(out)@.len() == old(out)@.len(),
            r is Ok <==> old(out)@.len() % 243 == 0,
            old(out)@.len() % 243 == 0 ==> final(out)@ == troika_squeezed(
                old(self).state_view(),
                old(out)@.len() / 243,
            ) && final(self).state_view() == troika_squeezed_state(
                old(self).state_view(),
                old(out)@.len() / 243,
            ) && all_utrits(final(out)@),
            old(out)@.len() % 243 != 0 ==> final(self).state_view() == old(self).state_view()
                && final(out)@ == old(out)@ && r == Err::<(), Error>(
                Error::InvalidOutputLength(old(out)@.len() as usize),
            ),
    {
        let n = out.len();
        if n % BLOCK_LENGTH != 0 {
            return Err(Error::InvalidOutputLength(n));
        }
        let ghost orig = self.state@;
        let chunks = n / BLOCK_LENGTH;
        proof {
            vstd::arithmetic::div_mod::lemma_fundamental_div_mod(n as int, 243);
        }
        let mut c: usize = 0;
        let mut offset: usize = 0;
        while c < chunks
            invariant
                self.wf(),
                out@.len() == n,
                n == 243 * chunks,
                c <= chunks,
                offset == 243 * c,
                forall|k: int| 0 <= k < offset ==> is_utrit(#[trigger] out@[k]),
                troika_squeezed(orig, chunks as nat) == out@.take(offset as int) + troika_squeezed(
                    self.state@,
                    (chunks - c) as nat,
                ),
                troika_squeezed_state(orig, chunks as nat) == troika_squeezed_state(
                    self.state@,
                    (chunks - c) as nat,
                ),
            decreases chunks - c,
        {
            self.permute();
            let ghost out_pre = out@;
            let ghost pre = self.state@;
            let mut j: usize = 0;
            while j < BLOCK_LENGTH
                invariant
                    self.wf(),
                    self.state@ == pre,
                    out@.len() == n,
                    n == 243 * chunks,
                    c < chunks,
                    offset == 243 * c,
                    j <= 243,
                    forall|k: int| 0 <= k < offset ==> out@[k] == out_pre[k],
                    forall|k: int| offset <= k < offset + j ==> out@[k] == pre[k - offset],
                    forall|k: int| offset + j <= k < n ==> out@[k] == out_pre[k],
                decreases 243 - j,
            {
                out[offset + j] = self.state[j];
                j = j + 1;
            }
            proof {
                assert(out@.take(offset + 243) =~= out_pre.take(offset as int) + pre.take(243));
                assert(out@.take(offset as int) =~= out_pre.take(offset as int));
            }
            proof {
                assert forall|k: int| 0 <= k < offset + 243 implies is_utrit(
                    #[trigger] out@[k],
                ) by {
                    if k < offset {
                        assert(out@[k] == out_pre[k]);
                        assert(is_utrit(out_pre[k]));
                    } else {
                        assert(out@[k] == pre[k - offset]);
                        assert(is_utrit(pre[k - offset]));
                    }
                }
            }
            c = c + 1;
            offset = offset + 243;
        }
        proof {
            assert(out@.take(offset as int) =~= out@);
            assert(out@ + troika_squeezed(self.state@, 0) =~= out@);
        }
        Ok(())
    }

    /// Reset the sponge to its all-zero initial state.
    pub fn reset(&mut self)
        requires
            old(self).wf(),
        ensures
            final(self).wf(),
            final(self).state_view() == troika_initial(),
    {
        let mut i: usize = 0;
        while i < TROIKA_STATE_LENGTH
            invariant
                self.state@.len() == 729,
                all_utrits(self.state@),
                i <= 729,
                forall|j: int| 0 <= j < i ==> self.state@[j] == 0u8,
            decreases 729 - i,
        {
            self.state.set(i, 0);
            i = i + 1;
        }
        proof {
            assert(self.state@ =~= troika_initial());
        }
    }
}

impl Default for Troika {
    /// A fresh engine with an all-zero state.
    fn default() -> (t: Troika)
        ensures
            t.wf(),
            t.state_view() == troika_initial(),
    {
        Troika::new()
    }
}

} // verus!
