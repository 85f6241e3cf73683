//! The fixed substitution matrix.
//!
//! A BLOSUM62 table over the 26 letters and the stop symbol `*`, giving a
//! similarity score for every ordered pair of residue symbols.  Symbols
//! outside that alphabet are treated as the unknown residue `X`, so the
//! lookup is total.  The table is symmetric and its entries lie between
//! -4 and 11; both facts are proved below.

use vstd::prelude::*;

verus! {

/// Table index of a residue symbol: `A` through `W` in alphabetical order,
/// then `Y`, `Z`, `X`, `*`; anything else is read as the unknown residue `X`.
pub open spec fn aa_index_spec(a: u8) -> int {
    if a == 89 { 23 }
    else if a == 90 { 24 }
    else if a == 88 { 25 }
    else if a == 42 { 26 }
    else if 65 <= a && a <= 87 { a - 65 }
    else { 25 }
}

/// Table index of a residue symbol, as executable code.
pub fn aa_index(a: u8) -> (i: usize)
    ensures
        i == aa_index_spec(a),
        i < 27,
{
    if a == 89 { 23 }
    else if a == 90 { 24 }
    else if a == 88 { 25 }
    else if a == 42 { 26 }
    else if 65 <= a && a <= 87 { (a - 65) as usize }
    else { 25 }
}

pub open spec fn b62_row0(j: int) -> int {
    if j == 0 { 4 }
    else if j == 1 { -2 }
    else if j == 2 { 0 }
    else if j == 3 { -2 }
    else if j == 4 { -1 }
    else if j == 5 { -2 }
    else if j == 6 { 0 }
    else if j == 7 { -2 }
    else if j == 8 { -1 }
    else if j == 9 { -1 }
    else if j == 10 { -1 }
    else if j == 11 { -1 }
    else if j == 12 { -1 }
    else if j == 13 { -2 }
    else if j == 14 { 0 }
    else if j == 15 { -1 }
    else if j == 16 { -1 }
    else if j == 17 { -1 }
    else if j == 18 { 1 }
    else if j == 19 { 0 }
    else if j == 20 { 0 }
    else if j == 21 { 0 }
    else if j == 22 { -3 }
    else if j == 23 { -2 }
    else if j == 24 { -1 }
    else if j == 25 { 0 }
    else { -4 }
}

pub open spec fn b62_row1(j: int) -> int {
    if j == 0 { -2 }
    else if j == 1 { 4 }
    else if j == 2 { -3 }
    else if j == 3 { 4 }
    else if j == 4 { 1 }
    else if j == 5 { -3 }
    else if j == 6 { -1 }
    else if j == 7 { 0 }
    else if j == 8 { -3 }
    else if j == 9 { -4 }
    else if j == 10 { 0 }
    else if j == 11 { -4 }
    else if j == 12 { -3 }
    else if j == 13 { 3 }
    else if j == 14 { -1 }
    else if j == 15 { -2 }
    else if j == 16 { 0 }
    else if j == 17 { -1 }
    else if j == 18 { 0 }
    else if j == 19 { -1 }
    else if j == 20 { -1 }
    else if j == 21 { -3 }
    else if j == 22 { -4 }
    else if j == 23 { -3 }
    else if j == 24 { 1 }
    else if j == 25 { -1 }
    else { -4 }
}

pub open spec fn b62_row2(j: int) -> int {
    if j == 0 { 0 }
    else if j == 1 { -3 }
    else if j == 2 { 9 }
    else if j == 3 { -3 }
    else if j == 4 { -4 }
    else if j == 5 { -2 }
    else if j == 6 { -3 }
    else if j == 7 { -3 }
    else if j == 8 { -1 }
    else if j == 9 { -1 }
    else if j == 10 { -3 }
    else if j == 11 { -1 }
    else if j == 12 { -1 }
    else if j == 13 { -3 }
    else if j == 14 { -2 }
    else if j == 15 { -3 }
    else if j == 16 { -3 }
    else if j == 17 { -3 }
    else if j == 18 { -1 }
    else if j == 19 { -1 }
    else if j == 20 { -2 }
    else if j == 21 { -1 }
    else if j == 22 { -2 }
    else if j == 23 { -2 }
    else if j == 24 { -3 }
    else if j == 25 { -2 }
    else { -4 }
}

pub open spec fn b62_row3(j: int) -> int {
    if j == 0 { -2 }
    else if j == 1 { 4 }
    else if j == 2 { -3 }
    else if j == 3 { 6 }
    else if j == 4 { 2 }
    else if j == 5 { -3 }
    else if j == 6 { -1 }
    else if j == 7 { -1 }
    else if j == 8 { -3 }
    else if j == 9 { -4 }
    else if j == 10 { -1 }
    else if j == 11 { -4 }
    else if j == 12 { -3 }
    else if j == 13 { 1 }
    else if j == 14 { -1 }
    else if j == 15 { -1 }
    else if j == 16 { 0 }
    else if j == 17 { -2 }
    else if j == 18 { 0 }
    else if j == 19 { -1 }
    else if j == 20 { -1 }
    else if j == 21 { -3 }
    else if j == 22 { -4 }
    else if j == 23 { -3 }
    else if j == 24 { 1 }
    else if j == 25 { -1 }
    else { -4 }
}

pub open spec fn b62_row4(j: int) -> int {
    if j == 0 { -1 }
    else if j == 1 { 1 }
    else if j == 2 { -4 }
    else if j == 3 { 2 }
    else if j == 4 { 5 }
    else if j == 5 { -3 }
    else if j == 6 { -2 }
    else if j == 7 { 0 }
    else if j == 8 { -3 }
    else if j == 9 { -3 }
    else if j == 10 { 1 }
    else if j == 11 { -3 }
    else if j == 12 { -2 }
    else if j == 13 { 0 }
    else if j == 14 { -1 }
    else if j == 15 { -1 }
    else if j == 16 { 2 }
    else if j == 17 { 0 }
    else if j == 18 { 0 }
    else if j == 19 { -1 }
    else if j == 20 { -1 }
    else if j == 21 { -2 }
    else if j == 22 { -3 }
    else if j == 23 { -2 }
    else if j == 24 { 4 }
    else if j == 25 { -1 }
    else { -4 }
}

pub open spec fn b62_row5(j: int) -> int {
    if j == 0 { -2 }
    else if j == 1 { -3 }
    else if j == 2 { -2 }
    else if j == 3 { -3 }
    else if j == 4 { -3 }
    else if j == 5 { 6 }
    else if j == 6 { -3 }
    else if j == 7 { -1 }
    else if j == 8 { 0 }
    else if j == 9 { 0 }
    else if j == 10 { -3 }
    else if j == 11 { 0 }
    else if j == 12 { 0 }
    else if j == 13 { -3 }
    else if j == 14 { -1 }
    else if j == 15 { -4 }
    else if j == 16 { -3 }
    else if j == 17 { -3 }
    else if j == 18 { -2 }
    else if j == 19 { -2 }
    else if j == 20 { -1 }
    else if j == 21 { -1 }
    else if j == 22 { 1 }
    else if j == 23 { 3 }
    else if j == 24 { -3 }
    else if j == 25 { -1 }
    else { -4 }
}

pub open spec fn b62_row6(j: int) -> int {
    if j == 0 { 0 }
    else if j == 1 { -1 }
    else if j == 2 { -3 }
    else if j == 3 { -1 }
    else if j == 4 { -2 }
    else if j == 5 { -3 }
    else if j == 6 { 6 }
    else if j == 7 { -2 }
    else if j == 8 { -4 }
    else if j == 9 { -4 }
    else if j == 10 { -2 }
    else if j == 11 { -4 }
    else if j == 12 { -3 }
    else if j == 13 { 0 }
    else if j == 14 { -1 }
    else if j == 15 { -2 }
    else if j == 16 { -2 }
    else if j == 17 { -2 }
    else if j == 18 { 0 }
    else if j == 19 { -2 }
    else if j == 20 { -1 }
    else if j == 21 { -3 }
    else if j == 22 { -2 }
    else if j == 23 { -3 }
    else if j == 24 { -2 }
    else if j == 25 { -1 }
    else { -4 }
}

pub open spec fn b62_row7(j: int) -> int {
    if j == 0 { -2 }
    else if j == 1 { 0 }
    else if j == 2 { -3 }
    else if j == 3 { -1 }
    else if j == 4 { 0 }
    else if j == 5 { -1 }
    else if j == 6 { -2 }
    else if j == 7 { 8 }
    else if j == 8 { -3 }
    else if j == 9 { -3 }
    else if j == 10 { -1 }
    else if j == 11 { -3 }
    else if j == 12 { -2 }
    else if j == 13 { 1 }
    else if j == 14 { -1 }
    else if j == 15 { -2 }
    else if j == 16 { 0 }
    else if j == 17 { 0 }
    else if j == 18 { -1 }
    else if j == 19 { -2 }
    else if j == 20 { -1 }
    else if j == 21 { -3 }
    else if j == 22 { -2 }
    else if j == 23 { 2 }
    else if j == 24 { 0 }
    else if j == 25 { -1 }
    else { -4 }
}

pub open spec fn b62_row8(j: int) -> int {
    if j == 0 { -1 }
    else if j == 1 { -3 }
    else if j == 2 { -1 }
    else if j == 3 { -3 }
    else if j == 4 { -3 }
    else if j == 5 { 0 }
    else if j == 6 { -4 }
    else if j == 7 { -3 }
    else if j == 8 { 4 }
    else if j == 9 { 3 }
    else if j == 10 { -3 }
    else if j == 11 { 2 }
    else if j == 12 { 1 }
    else if j == 13 { -3 }
    else if j == 14 { -1 }
    else if j == 15 { -3 }
    else if j == 16 { -3 }
    else if j == 17 { -3 }
    else if j == 18 { -2 }
    else if j == 19 { -1 }
    else if j == 20 { -1 }
    else if j == 21 { 3 }
    else if j == 22 { -3 }
    else if j == 23 { -1 }
    else if j == 24 { -3 }
    else if j == 25 { -1 }
    else { -4 }
}

pub open spec fn b62_row9(j: int) -> int {
    if j == 0 { -1 }
    else if j == 1 { -4 }
    else if j == 2 { -1 }
    else if j == 3 { -4 }
    else if j == 4 { -3 }
    else if j == 5 { 0 }
    else if j == 6 { -4 }
    else if j == 7 { -3 }
    else if j == 8 { 3 }
    else if j == 9 { 3 }
    else if j == 10 { -3 }
    else if j == 11 { 3 }
    else if j == 12 { 2 }
    else if j == 13 { -3 }
    else if j == 14 { -1 }
    else if j == 15 { -3 }
    else if j == 16 { -3 }
    else if j == 17 { -3 }
    else if j == 18 { -2 }
    else if j == 19 { -1 }
    else if j == 20 { -1 }
    else if j == 21 { 2 }
    else if j == 22 { -3 }
    else if j == 23 { -1 }
    else if j == 24 { -3 }
    else if j == 25 { -1 }
    else { -4 }
}

pub open spec fn b62_row10(j: int) -> int {
    if j == 0 { -1 }
    else if j == 1 { 0 }
    else if j == 2 { -3 }
    else if j == 3 { -1 }
    else if j == 4 { 1 }
    else if j == 5 { -3 }
    else if j == 6 { -2 }
    else if j == 7 { -1 }
    else if j == 8 { -3 }
    else if j == 9 { -3 }
    else if j == 10 { 5 }
    else if j == 11 { -2 }
    else if j == 12 { -1 }
    else if j == 13 { 0 }
    else if j == 14 { -1 }
    else if j == 15 { -1 }
    else if j == 16 { 1 }
    else if j == 17 { 2 }
    else if j == 18 { 0 }
    else if j == 19 { -1 }
    else if j == 20 { -1 }
    else if j == 21 { -2 }
    else if j == 22 { -3 }
    else if j == 23 { -2 }
    else if j == 24 { 1 }
    else if j == 25 { -1 }
    else { -4 }
}

pub open spec fn b62_row11(j: int) -> int {
    if j == 0 { -1 }
    else if j == 1 { -4 }
    else if j == 2 { -1 }
    else if j == 3 { -4 }
    else if j == 4 { -3 }
    else if j == 5 { 0 }
    else if j == 6 { -4 }
    else if j == 7 { -3 }
    else if j == 8 { 2 }
    else if j == 9 { 3 }
    else if j == 10 { -2 }
    else if j == 11 { 4 }
    else if j == 12 { 2 }
    else if j == 13 { -3 }
    else if j == 14 { -1 }
    else if j == 15 { -3 }
    else if j == 16 { -2 }
    else if j == 17 { -2 }
    else if j == 18 { -2 }
    else if j == 19 { -1 }
    else if j == 20 { -1 }
    else if j == 21 { 1 }
    else if j == 22 { -2 }
    else if j == 23 { -1 }
    else if j == 24 { -3 }
    else if j == 25 { -1 }
    else { -4 }
}

pub open spec fn b62_row12(j: int) -> int {
    if j == 0 { -1 }
    else if j == 1 { -3 }
    else if j == 2 { -1 }
    else if j == 3 { -3 }
    else if j == 4 { -2 }
    else if j == 5 { 0 }
    else if j == 6 { -3 }
    else if j == 7 { -2 }
    else if j == 8 { 1 }
    else if j == 9 { 2 }
    else if j == 10 { -1 }
    else if j == 11 { 2 }
    else if j == 12 { 5 }
    else if j == 13 { -2 }
    else if j == 14 { -1 }
    else if j == 15 { -2 }
    else if j == 16 { 0 }
    else if j == 17 { -1 }
    else if j == 18 { -1 }
    else if j == 19 { -1 }
    else if j == 20 { -1 }
    else if j == 21 { 1 }
    else if j == 22 { -1 }
    else if j == 23 { -1 }
    else if j == 24 { -1 }
    else if j == 25 { -1 }
    else { -4 }
}

pub open spec fn b62_row13(j: int) -> int {
    if j == 0 { -2 }
    else if j == 1 { 3 }
    else if j == 2 { -3 }
    else if j == 3 { 1 }
    else if j == 4 { 0 }
    else if j == 5 { -3 }
    else if j == 6 { 0 }
    else if j == 7 { 1 }
    else if j == 8 { -3 }
    else if j == 9 { -3 }
    else if j == 10 { 0 }
    else if j == 11 { -3 }
    else if j == 12 { -2 }
    else if j == 13 { 6 }
    else if j == 14 { -1 }
    else if j == 15 { -2 }
    else if j == 16 { 0 }
    else if j == 17 { 0 }
    else if j == 18 { 1 }
    else if j == 19 { 0 }
    else if j == 20 { -1 }
    else if j == 21 { -3 }
    else if j == 22 { -4 }
    else if j == 23 { -2 }
    else if j == 24 { 0 }
    else if j == 25 { -1 }
    else { -4 }
}

pub open spec fn b62_row14(j: int) -> int {
    if j == 0 { 0 }
    else if j == 1 { -1 }
    else if j == 2 { -2 }
    else if j == 3 { -1 }
    else if j == 4 { -1 }
    else if j == 5 { -1 }
    else if j == 6 { -1 }
    else if j == 7 { -1 }
    else if j == 8 { -1 }
    else if j == 9 { -1 }
    else if j == 10 { -1 }
    else if j == 11 { -1 }
    else if j == 12 { -1 }
    else if j == 13 { -1 }
    else if j == 14 { -1 }
    else if j == 15 { -2 }
    else if j == 16 { -1 }
    else if j == 17 { -1 }
    else if j == 18 { 0 }
    else if j == 19 { 0 }
    else if j == 20 { -1 }
    else if j == 21 { -1 }
    else if j == 22 { -2 }
    else if j == 23 { -1 }
    else if j == 24 { -1 }
    else if j == 25 { -1 }
    else { -4 }
}

pub open spec fn b62_row15(j: int) -> int {
    if j == 0 { -1 }
    else if j == 1 { -2 }
    else if j == 2 { -3 }
    else if j == 3 { -1 }
    else if j == 4 { -1 }
    else if j == 5 { -4 }
    else if j == 6 { -2 }
    else if j == 7 { -2 }
    else if j == 8 { -3 }
    else if j == 9 { -3 }
    else if j == 10 { -1 }
    else if j == 11 { -3 }
    else if j == 12 { -2 }
    else if j == 13 { -2 }
    else if j == 14 { -2 }
    else if j == 15 { 7 }
    else if j == 16 { -1 }
    else if j == 17 { -2 }
    else if j == 18 { -1 }
    else if j == 19 { -1 }
    else if j == 20 { -2 }
    else if j == 21 { -2 }
    else if j == 22 { -4 }
    else if j == 23 { -3 }
    else if j == 24 { -1 }
    else if j == 25 { -2 }
    else { -4 }
}

pub open spec fn b62_row16(j: int) -> int {
    if j == 0 { -1 }
    else if j == 1 { 0 }
    else if j == 2 { -3 }
    else if j == 3 { 0 }
    else if j == 4 { 2 }
    else if j == 5 { -3 }
    else if j == 6 { -2 }
    else if j == 7 { 0 }
    else if j == 8 { -3 }
    else if j == 9 { -3 }
    else if j == 10 { 1 }
    else if j == 11 { -2 }
    else if j == 12 { 0 }
    else if j == 13 { 0 }
    else if j == 14 { -1 }
    else if j == 15 { -1 }
    else if j == 16 { 5 }
    else if j == 17 { 1 }
    else if j == 18 { 0 }
    else if j == 19 { -1 }
    else if j == 20 { -1 }
    else if j == 21 { -2 }
    else if j == 22 { -2 }
    else if j == 23 { -1 }
    else if j == 24 { 3 }
    else if j == 25 { -1 }
    else { -4 }
}

pub open spec fn b62_row17(j: int) -> int {
    if j == 0 { -1 }
    else if j == 1 { -1 }
    else if j == 2 { -3 }
    else if j == 3 { -2 }
    else if j == 4 { 0 }
    else if j == 5 { -3 }
    else if j == 6 { -2 }
    else if j == 7 { 0 }
    else if j == 8 { -3 }
    else if j == 9 { -3 }
    else if j == 10 { 2 }
    else if j == 11 { -2 }
    else if j == 12 { -1 }
    else if j == 13 { 0 }
    else if j == 14 { -1 }
    else if j == 15 { -2 }
    else if j == 16 { 1 }
    else if j == 17 { 5 }
    else if j == 18 { -1 }
    else if j == 19 { -1 }
    else if j == 20 { -1 }
    else if j == 21 { -3 }
    else if j == 22 { -3 }
    else if j == 23 { -2 }
    else if j == 24 { 0 }
    else if j == 25 { -1 }
    else { -4 }
}

pub open spec fn b62_row18(j: int) -> int {
    if j == 0 { 1 }
    else if j == 1 { 0 }
    else if j == 2 { -1 }
    else if j == 3 { 0 }
    else if j == 4 { 0 }
    else if j == 5 { -2 }
    else if j == 6 { 0 }
    else if j == 7 { -1 }
    else if j == 8 { -2 }
    else if j == 9 { -2 }
    else if j == 10 { 0 }
    else if j == 11 { -2 }
    else if j == 12 { -1 }
    else if j == 13 { 1 }
    else if j == 14 { 0 }
    else if j == 15 { -1 }
    else if j == 16 { 0 }
    else if j == 17 { -1 }
    else if j == 18 { 4 }
    else if j == 19 { 1 }
    else if j == 20 { 0 }
    else if j == 21 { -2 }
    else if j == 22 { -3 }
    else if j == 23 { -2 }
    else if j == 24 { 0 }
    else if j == 25 { 0 }
    else { -4 }
}

pub open spec fn b62_row19(j: int) -> int {
    if j == 0 { 0 }
    else if j == 1 { -1 }
    else if j == 2 { -1 }
    else if j == 3 { -1 }
    else if j == 4 { -1 }
    else if j == 5 { -2 }
    else if j == 6 { -2 }
    else if j == 7 { -2 }
    else if j == 8 { -1 }
    else if j == 9 { -1 }
    else if j == 10 { -1 }
    else if j == 11 { -1 }
    else if j == 12 { -1 }
    else if j == 13 { 0 }
    else if j == 14 { 0 }
    else if j == 15 { -1 }
    else if j == 16 { -1 }
    else if j == 17 { -1 }
    else if j == 18 { 1 }
    else if j == 19 { 5 }
    else if j == 20 { 0 }
    else if j == 21 { 0 }
    else if j == 22 { -2 }
    else if j == 23 { -2 }
    else if j == 24 { -1 }
    else if j == 25 { 0 }
    else { -4 }
}

pub open spec fn b62_row20(j: int) -> int {
    if j == 0 { 0 }
    else if j == 1 { -1 }
    else if j == 2 { -2 }
    else if j == 3 { -1 }
    else if j == 4 { -1 }
    else if j == 5 { -1 }
    else if j == 6 { -1 }
    else if j == 7 { -1 }
    else if j == 8 { -1 }
    else if j == 9 { -1 }
    else if j == 10 { -1 }
    else if j == 11 { -1 }
    else if j == 12 { -1 }
    else if j == 13 { -1 }
    else if j == 14 { -1 }
    else if j == 15 { -2 }
    else if j == 16 { -1 }
    else if j == 17 { -1 }
    else if j == 18 { 0 }
    else if j == 19 { 0 }
    else if j == 20 { -1 }
    else if j == 21 { -1 }
    else if j == 22 { -2 }
    else if j == 23 { -1 }
    else if j == 24 { -1 }
    else if j == 25 { -1 }
    else { -4 }
}

pub open spec fn b62_row21(j: int) -> int {
    if j == 0 { 0 }
    else if j == 1 { -3 }
    else if j == 2 { -1 }
    else if j == 3 { -3 }
    else if j == 4 { -2 }
    else if j == 5 { -1 }
    else if j == 6 { -3 }
    else if j == 7 { -3 }
    else if j == 8 { 3 }
    else if j == 9 { 2 }
    else if j == 10 { -2 }
    else if j == 11 { 1 }
    else if j == 12 { 1 }
    else if j == 13 { -3 }
    else if j == 14 { -1 }
    else if j == 15 { -2 }
    else if j == 16 { -2 }
    else if j == 17 { -3 }
    else if j == 18 { -2 }
    else if j == 19 { 0 }
    else if j == 20 { -1 }
    else if j == 21 { 4 }
    else if j == 22 { -3 }
    else if j == 23 { -1 }
    else if j == 24 { -2 }
    else if j == 25 { -1 }
    else { -4 }
}

pub open spec fn b62_row22(j: int) -> int {
    if j == 0 { -3 }
    else if j == 1 { -4 }
    else if j == 2 { -2 }
    else if j == 3 { -4 }
    else if j == 4 { -3 }
    else if j == 5 { 1 }
    else if j == 6 { -2 }
    else if j == 7 { -2 }
    else if j == 8 { -3 }
    else if j == 9 { -3 }
    else if j == 10 { -3 }
    else if j == 11 { -2 }
    else if j == 12 { -1 }
    else if j == 13 { -4 }
    else if j == 14 { -2 }
    else if j == 15 { -4 }
    else if j == 16 { -2 }
    else if j == 17 { -3 }
    else if j == 18 { -3 }
    else if j == 19 { -2 }
    else if j == 20 { -2 }
    else if j == 21 { -3 }
    else if j == 22 { 11 }
    else if j == 23 { 2 }
    else if j == 24 { -3 }
    else if j == 25 { -2 }
    else { -4 }
}

pub open spec fn b62_row23(j: int) -> int {
    if j == 0 { -2 }
    else if j == 1 { -3 }
    else if j == 2 { -2 }
    else if j == 3 { -3 }
    else if j == 4 { -2 }
    else if j == 5 { 3 }
    else if j == 6 { -3 }
    else if j == 7 { 2 }
    else if j == 8 { -1 }
    else if j == 9 { -1 }
    else if j == 10 { -2 }
    else if j == 11 { -1 }
    else if j == 12 { -1 }
    else if j == 13 { -2 }
    else if j == 14 { -1 }
    else if j == 15 { -3 }
    else if j == 16 { -1 }
    else if j == 17 { -2 }
    else if j == 18 { -2 }
    else if j == 19 { -2 }
    else if j == 20 { -1 }
    else if j == 21 { -1 }
    else if j == 22 { 2 }
    else if j == 23 { 7 }
    else if j == 24 { -2 }
    else if j == 25 { -1 }
    else { -4 }
}

pub open spec fn b62_row24(j: int) -> int {
    if j == 0 { -1 }
    else if j == 1 { 1 }
    else if j == 2 { -3 }
    else if j == 3 { 1 }
    else if j == 4 { 4 }
    else if j == 5 { -3 }
    else if j == 6 { -2 }
    else if j == 7 { 0 }
    else if j == 8 { -3 }
    else if j == 9 { -3 }
    else if j == 10 { 1 }
    else if j == 11 { -3 }
    else if j == 12 { -1 }
    else if j == 13 { 0 }
    else if j == 14 { -1 }
    else if j == 15 { -1 }
    else if j == 16 { 3 }
    else if j == 17 { 0 }
    else if j == 18 { 0 }
    else if j == 19 { -1 }
    else if j == 20 { -1 }
    else if j == 21 { -2 }
    else if j == 22 { -3 }
    else if j == 23 { -2 }
    else if j == 24 { 4 }
    else if j == 25 { -1 }
    else { -4 }
}

pub open spec fn b62_row25(j: int) -> int {
    if j == 0 { 0 }
    else if j == 1 { -1 }
    else if j == 2 { -2 }
    else if j == 3 { -1 }
    else if j == 4 { -1 }
    else if j == 5 { -1 }
    else if j == 6 { -1 }
    else if j == 7 { -1 }
    else if j == 8 { -1 }
    else if j == 9 { -1 }
    else if j == 10 { -1 }
    else if j == 11 { -1 }
    else if j == 12 { -1 }
    else if j == 13 { -1 }
    else if j == 14 { -1 }
    else if j == 15 { -2 }
    else if j == 16 { -1 }
    else if j == 17 { -1 }
    else if j == 18 { 0 }
    else if j == 19 { 0 }
    else if j == 20 { -1 }
    else if j == 21 { -1 }
    else if j == 22 { -2 }
    else if j == 23 { -1 }
    else if j == 24 { -1 }
    else if j == 25 { -1 }
    else { -4 }
}

pub open spec fn b62_row26(j: int) -> int {
    if j == 0 { -4 }
    else if j == 1 { -4 }
    else if j == 2 { -4 }
    else if j == 3 { -4 }
    else if j == 4 { -4 }
    else if j == 5 { -4 }
    else if j == 6 { -4 }
    else if j == 7 { -4 }
    else if j == 8 { -4 }
    else if j == 9 { -4 }
    else if j == 10 { -4 }
    else if j == 11 { -4 }
    else if j == 12 { -4 }
    else if j == 13 { -4 }
    else if j == 14 { -4 }
    else if j == 15 { -4 }
    else if j == 16 { -4 }
    else if j == 17 { -4 }
    else if j == 18 { -4 }
    else if j == 19 { -4 }
    else if j == 20 { -4 }
    else if j == 21 { -4 }
    else if j == 22 { -4 }
    else if j == 23 { -4 }
    else if j == 24 { -4 }
    else if j == 25 { -4 }
    else { 1 }
}

/// Score of the table entry at row `i`, column `j`.
pub open spec fn b62_entry(i: int, j: int) -> int {
    if i == 0 { b62_row0(j) }
    else if i == 1 { b62_row1(j) }
    else if i == 2 { b62_row2(j) }
    else if i == 3 { b62_row3(j) }
    else if i == 4 { b62_row4(j) }
    else if i == 5 { b62_row5(j) }
    else if i == 6 { b62_row6(j) }
    else if i == 7 { b62_row7(j) }
    else if i == 8 { b62_row8(j) }
    else if i == 9 { b62_row9(j) }
    else if i == 10 { b62_row10(j) }
    else if i == 11 { b62_row11(j) }
    else if i == 12 { b62_row12(j) }
    else if i == 13 { b62_row13(j) }
    else if i == 14 { b62_row14(j) }
    else if i == 15 { b62_row15(j) }
    else if i == 16 { b62_row16(j) }
    else if i == 17 { b62_row17(j) }
    else if i == 18 { b62_row18(j) }
    else if i == 19 { b62_row19(j) }
    else if i == 20 { b62_row20(j) }
    else if i == 21 { b62_row21(j) }
    else if i == 22 { b62_row22(j) }
    else if i == 23 { b62_row23(j) }
    else if i == 24 { b62_row24(j) }
    else if i == 25 { b62_row25(j) }
    else { b62_row26(j) }
}

/// Similarity score of two residue symbols under the fixed matrix.
pub open spec fn sub_score_spec(a: u8, b: u8) -> int {
    b62_entry(aa_index_spec(a), aa_index_spec(b))
}

fn b62_row0_x(j: usize) -> (s: i32)
    ensures
        s as int == b62_row0(j as int),
{
    if j == 0 { 4 }
    else if j == 1 { -2 }
    else if j == 2 { 0 }
    else if j == 3 { -2 }
    else if j == 4 { -1 }
    else if j == 5 { -2 }
    else if j == 6 { 0 }
    else if j == 7 { -2 }
    else if j == 8 { -1 }
    else if j == 9 { -1 }
    else if j == 10 { -1 }
    else if j == 11 { -1 }
    else if j == 12 { -1 }
    else if j == 13 { -2 }
    else if j == 14 { 0 }
    else if j == 15 { -1 }
    else if j == 16 { -1 }
    else if j == 17 { -1 }
    else if j == 18 { 1 }
    else if j == 19 { 0 }
    else if j == 20 { 0 }
    else if j == 21 { 0 }
    else if j == 22 { -3 }
    else if j == 23 { -2 }
    else if j == 24 { -1 }
    else if j == 25 { 0 }
    else { -4 }
}

fn b62_row1_x(j: usize) -> (s: i32)
    ensures
        s as int == b62_row1(j as int),
{
    if j == 0 { -2 }
    else if j == 1 { 4 }
    else if j == 2 { -3 }
    else if j == 3 { 4 }
    else if j == 4 { 1 }
    else if j == 5 { -3 }
    else if j == 6 { -1 }
    else if j == 7 { 0 }
    else if j == 8 { -3 }
    else if j == 9 { -4 }
    else if j == 10 { 0 }
    else if j == 11 { -4 }
    else if j == 12 { -3 }
    else if j == 13 { 3 }
    else if j == 14 { -1 }
    else if j == 15 { -2 }
    else if j == 16 { 0 }
    else if j == 17 { -1 }
    else if j == 18 { 0 }
    else if j == 19 { -1 }
    else if j == 20 { -1 }
    else if j == 21 { -3 }
    else if j == 22 { -4 }
    else if j == 23 { -3 }
    else if j == 24 { 1 }
    else if j == 25 { -1 }
    else { -4 }
}

fn b62_row2_x(j: usize) -> (s: i32)
    ensures
        s as int == b62_row2(j as int),
{
    if j == 0 { 0 }
    else if j == 1 { -3 }
    else if j == 2 { 9 }
    else if j == 3 { -3 }
    else if j == 4 { -4 }
    else if j == 5 { -2 }
    else if j == 6 { -3 }
    else if j == 7 { -3 }
    else if j == 8 { -1 }
    else if j == 9 { -1 }
    else if j == 10 { -3 }
    else if j == 11 { -1 }
    else if j == 12 { -1 }
    else if j == 13 { -3 }
    else if j == 14 { -2 }
    else if j == 15 { -3 }
    else if j == 16 { -3 }
    else if j == 17 { -3 }
    else if j == 18 { -1 }
    else if j == 19 { -1 }
    else if j == 20 { -2 }
    else if j == 21 { -1 }
    else if j == 22 { -2 }
    else if j == 23 { -2 }
    else if j == 24 { -3 }
    else if j == 25 { -2 }
    else { -4 }
}

fn b62_row3_x(j: usize) -> (s: i32)
    ensures
        s as int == b62_row3(j as int),
{
    if j == 0 { -2 }
    else if j == 1 { 4 }
    else if j == 2 { -3 }
    else if j == 3 { 6 }
    else if j == 4 { 2 }
    else if j == 5 { -3 }
    else if j == 6 { -1 }
    else if j == 7 { -1 }
    else if j == 8 { -3 }
    else if j == 9 { -4 }
    else if j == 10 { -1 }
    else if j == 11 { -4 }
    else if j == 12 { -3 }
    else if j == 13 { 1 }
    else if j == 14 { -1 }
    else if j == 15 { -1 }
    else if j == 16 { 0 }
    else if j == 17 { -2 }
    else if j == 18 { 0 }
    else if j == 19 { -1 }
    else if j == 20 { -1 }
    else if j == 21 { -3 }
    else if j == 22 { -4 }
    else if j == 23 { -3 }
    else if j == 24 { 1 }
    else if j == 25 { -1 }
    else { -4 }
}

fn b62_row4_x(j: usize) -> (s: i32)
    ensures
        s as int == b62_row4(j as int),
{
    if j == 0 { -1 }
    else if j == 1 { 1 }
    else if j == 2 { -4 }
    else if j == 3 { 2 }
    else if j == 4 { 5 }
    else if j == 5 { -3 }
    else if j == 6 { -2 }
    else if j == 7 { 0 }
    else if j == 8 { -3 }
    else if j == 9 { -3 }
    else if j == 10 { 1 }
    else if j == 11 { -3 }
    else if j == 12 { -2 }
    else if j == 13 { 0 }
    else if j == 14 { -1 }
    else if j == 15 { -1 }
    else if j == 16 { 2 }
    else if j == 17 { 0 }
    else if j == 18 { 0 }
    else if j == 19 { -1 }
    else if j == 20 { -1 }
    else if j == 21 { -2 }
    else if j == 22 { -3 }
    else if j == 23 { -2 }
    else if j == 24 { 4 }
    else if j == 25 { -1 }
    else { -4 }
}

fn b62_row5_x(j: usize) -> (s: i32)
    ensures
        s as int == b62_row5(j as int),
{
    if j == 0 { -2 }
    else if j == 1 { -3 }
    else if j == 2 { -2 }
    else if j == 3 { -3 }
    else if j == 4 { -3 }
    else if j == 5 { 6 }
    else if j == 6 { -3 }
    else if j == 7 { -1 }
    else if j == 8 { 0 }
    else if j == 9 { 0 }
    else if j == 10 { -3 }
    else if j == 11 { 0 }
    else if j == 12 { 0 }
    else if j == 13 { -3 }
    else if j == 14 { -1 }
    else if j == 15 { -4 }
    else if j == 16 { -3 }
    else if j == 17 { -3 }
    else if j == 18 { -2 }
    else if j == 19 { -2 }
    else if j == 20 { -1 }
    else if j == 21 { -1 }
    else if j == 22 { 1 }
    else if j == 23 { 3 }
    else if j == 24 { -3 }
    else if j == 25 { -1 }
    else { -4 }
}

fn b62_row6_x(j: usize) -> (s: i32)
    ensures
        s as int == b62_row6(j as int),
{
    if j == 0 { 0 }
    else if j == 1 { -1 }
    else if j == 2 { -3 }
    else if j == 3 { -1 }
    else if j == 4 { -2 }
    else if j == 5 { -3 }
    else if j == 6 { 6 }
    else if j == 7 { -2 }
    else if j == 8 { -4 }
    else if j == 9 { -4 }
    else if j == 10 { -2 }
    else if j == 11 { -4 }
    else if j == 12 { -3 }
    else if j == 13 { 0 }
    else if j == 14 { -1 }
    else if j == 15 { -2 }
    else if j == 16 { -2 }
    else if j == 17 { -2 }
    else if j == 18 { 0 }
    else if j == 19 { -2 }
    else if j == 20 { -1 }
    else if j == 21 { -3 }
    else if j == 22 { -2 }
    else if j == 23 { -3 }
    else if j == 24 { -2 }
    else if j == 25 { -1 }
    else { -4 }
}

fn b62_row7_x(j: usize) -> (s: i32)
    ensures
        s as int == b62_row7(j as int),
{
    if j == 0 { -2 }
    else if j == 1 { 0 }
    else if j == 2 { -3 }
    else if j == 3 { -1 }
    else if j == 4 { 0 }
    else if j == 5 { -1 }
    else if j == 6 { -2 }
    else if j == 7 { 8 }
    else if j == 8 { -3 }
    else if j == 9 { -3 }
    else if j == 10 { -1 }
    else if j == 11 { -3 }
    else if j == 12 { -2 }
    else if j == 13 { 1 }
    else if j == 14 { -1 }
    else if j == 15 { -2 }
    else if j == 16 { 0 }
    else if j == 17 { 0 }
    else if j == 18 { -1 }
    else if j == 19 { -2 }
    else if j == 20 { -1 }
    else if j == 21 { -3 }
    else if j == 22 { -2 }
    else if j == 23 { 2 }
    else if j == 24 { 0 }
    else if j == 25 { -1 }
    else { -4 }
}

fn b62_row8_x(j: usize) -> (s: i32)
    ensures
        s as int == b62_row8(j as int),
{
    if j == 0 { -1 }
    else if j == 1 { -3 }
    else if j == 2 { -1 }
    else if j == 3 { -3 }
    else if j == 4 { -3 }
    else if j == 5 { 0 }
    else if j == 6 { -4 }
    else if j == 7 { -3 }
    else if j == 8 { 4 }
    else if j == 9 { 3 }
    else if j == 10 { -3 }
    else if j == 11 { 2 }
    else if j == 12 { 1 }
    else if j == 13 { -3 }
    else if j == 14 { -1 }
    else if j == 15 { -3 }
    else if j == 16 { -3 }
    else if j == 17 { -3 }
    else if j == 18 { -2 }
    else if j == 19 { -1 }
    else if j == 20 { -1 }
    else if j == 21 { 3 }
    else if j == 22 { -3 }
    else if j == 23 { -1 }
    else if j == 24 { -3 }
    else if j == 25 { -1 }
    else { -4 }
}

fn b62_row9_x(j: usize) -> (s: i32)
    ensures
        s as int == b62_row9(j as int),
{
    if j == 0 { -1 }
    else if j == 1 { -4 }
    else if j == 2 { -1 }
    else if j == 3 { -4 }
    else if j == 4 { -3 }
    else if j == 5 { 0 }
    else if j == 6 { -4 }
    else if j == 7 { -3 }
    else if j == 8 { 3 }
    else if j == 9 { 3 }
    else if j == 10 { -3 }
    else if j == 11 { 3 }
    else if j == 12 { 2 }
    else if j == 13 { -3 }
    else if j == 14 { -1 }
    else if j == 15 { -3 }
    else if j == 16 { -3 }
    else if j == 17 { -3 }
    else if j == 18 { -2 }
    else if j == 19 { -1 }
    else if j == 20 { -1 }
    else if j == 21 { 2 }
    else if j == 22 { -3 }
    else if j == 23 { -1 }
    else if j == 24 { -3 }
    else if j == 25 { -1 }
    else { -4 }
}

fn b62_row10_x(j: usize) -> (s: i32)
    ensures
        s as int == b62_row10(j as int),
{
    if j == 0 { -1 }
    else if j == 1 { 0 }
    else if j == 2 { -3 }
    else if j == 3 { -1 }
    else if j == 4 { 1 }
    else if j == 5 { -3 }
    else if j == 6 { -2 }
    else if j == 7 { -1 }
    else if j == 8 { -3 }
    else if j == 9 { -3 }
    else if j == 10 { 5 }
    else if j == 11 { -2 }
    else if j == 12 { -1 }
    else if j == 13 { 0 }
    else if j == 14 { -1 }
    else if j == 15 { -1 }
    else if j == 16 { 1 }
    else if j == 17 { 2 }
    else if j == 18 { 0 }
    else if j == 19 { -1 }
    else if j == 20 { -1 }
    else if j == 21 { -2 }
    else if j == 22 { -3 }
    else if j == 23 { -2 }
    else if j == 24 { 1 }
    else if j == 25 { -1 }
    else { -4 }
}

fn b62_row11_x(j: usize) -> (s: i32)
    ensures
        s as int == b62_row11(j as int),
{
    if j == 0 { -1 }
    else if j == 1 { -4 }
    else if j == 2 { -1 }
    else if j == 3 { -4 }
    else if j == 4 { -3 }
    else if j == 5 { 0 }
    else if j == 6 { -4 }
    else if j == 7 { -3 }
    else if j == 8 { 2 }
    else if j == 9 { 3 }
    else if j == 10 { -2 }
    else if j == 11 { 4 }
    else if j == 12 { 2 }
    else if j == 13 { -3 }
    else if j == 14 { -1 }
    else if j == 15 { -3 }
    else if j == 16 { -2 }
    else if j == 17 { -2 }
    else if j == 18 { -2 }
    else if j == 19 { -1 }
    else if j == 20 { -1 }
    else if j == 21 { 1 }
    else if j == 22 { -2 }
    else if j == 23 { -1 }
    else if j == 24 { -3 }
    else if j == 25 { -1 }
    else { -4 }
}

fn b62_row12_x(j: usize) -> (s: i32)
    ensures
        s as int == b62_row12(j as int),
{
    if j == 0 { -1 }
    else if j == 1 { -3 }
    else if j == 2 { -1 }
    else if j == 3 { -3 }
    else if j == 4 { -2 }
    else if j == 5 { 0 }
    else if j == 6 { -3 }
    else if j == 7 { -2 }
    else if j == 8 { 1 }
    else if j == 9 { 2 }
    else if j == 10 { -1 }
    else if j == 11 { 2 }
    else if j == 12 { 5 }
    else if j == 13 { -2 }
    else if j == 14 { -1 }
    else if j == 15 { -2 }
    else if j == 16 { 0 }
    else if j == 17 { -1 }
    else if j == 18 { -1 }
    else if j == 19 { -1 }
    else if j == 20 { -1 }
    else if j == 21 { 1 }
    else if j == 22 { -1 }
    else if j == 23 { -1 }
    else if j == 24 { -1 }
    else if j == 25 { -1 }
    else { -4 }
}

fn b62_row13_x(j: usize) -> (s: i32)
    ensures
        s as int == b62_row13(j as int),
{
    if j == 0 { -2 }
    else if j == 1 { 3 }
    else if j == 2 { -3 }
    else if j == 3 { 1 }
    else if j == 4 { 0 }
    else if j == 5 { -3 }
    else if j == 6 { 0 }
    else if j == 7 { 1 }
    else if j == 8 { -3 }
    else if j == 9 { -3 }
    else if j == 10 { 0 }
    else if j == 11 { -3 }
    else if j == 12 { -2 }
    else if j == 13 { 6 }
    else if j == 14 { -1 }
    else if j == 15 { -2 }
    else if j == 16 { 0 }
    else if j == 17 { 0 }
    else if j == 18 { 1 }
    else if j == 19 { 0 }
    else if j == 20 { -1 }
    else if j == 21 { -3 }
    else if j == 22 { -4 }
    else if j == 23 { -2 }
    else if j == 24 { 0 }
    else if j == 25 { -1 }
    else { -4 }
}

fn b62_row14_x(j: usize) -> (s: i32)
    ensures
        s as int == b62_row14(j as int),
{
    if j == 0 { 0 }
    else if j == 1 { -1 }
    else if j == 2 { -2 }
    else if j == 3 { -1 }
    else if j == 4 { -1 }
    else if j == 5 { -1 }
    else if j == 6 { -1 }
    else if j == 7 { -1 }
    else if j == 8 { -1 }
    else if j == 9 { -1 }
    else if j == 10 { -1 }
    else if j == 11 { -1 }
    else if j == 12 { -1 }
    else if j == 13 { -1 }
    else if j == 14 { -1 }
    else if j == 15 { -2 }
    else if j == 16 { -1 }
    else if j == 17 { -1 }
    else if j == 18 { 0 }
    else if j == 19 { 0 }
    else if j == 20 { -1 }
    else if j == 21 { -1 }
    else if j == 22 { -2 }
    else if j == 23 { -1 }
    else if j == 24 { -1 }
    else if j == 25 { -1 }
    else { -4 }
}

fn b62_row15_x(j: usize) -> (s: i32)
    ensures
        s as int == b62_row15(j as int),
{
    if j == 0 { -1 }
    else if j == 1 { -2 }
    else if j == 2 { -3 }
    else if j == 3 { -1 }
    else if j == 4 { -1 }
    else if j == 5 { -4 }
    else if j == 6 { -2 }
    else if j == 7 { -2 }
    else if j == 8 { -3 }
    else if j == 9 { -3 }
    else if j == 10 { -1 }
    else if j == 11 { -3 }
    else if j == 12 { -2 }
    else if j == 13 { -2 }
    else if j == 14 { -2 }
    else if j == 15 { 7 }
    else if j == 16 { -1 }
    else if j == 17 { -2 }
    else if j == 18 { -1 }
    else if j == 19 { -1 }
    else if j == 20 { -2 }
    else if j == 21 { -2 }
    else if j == 22 { -4 }
    else if j == 23 { -3 }
    else if j == 24 { -1 }
    else if j == 25 { -2 }
    else { -4 }
}

fn b62_row16_x(j: usize) -> (s: i32)
    ensures
        s as int == b62_row16(j as int),
{
    if j == 0 { -1 }
    else if j == 1 { 0 }
    else if j == 2 { -3 }
    else if j == 3 { 0 }
    else if j == 4 { 2 }
    else if j == 5 { -3 }
    else if j == 6 { -2 }
    else if j == 7 { 0 }
    else if j == 8 { -3 }
    else if j == 9 { -3 }
    else if j == 10 { 1 }
    else if j == 11 { -2 }
    else if j == 12 { 0 }
    else if j == 13 { 0 }
    else if j == 14 { -1 }
    else if j == 15 { -1 }
    else if j == 16 { 5 }
    else if j == 17 { 1 }
    else if j == 18 { 0 }
    else if j == 19 { -1 }
    else if j == 20 { -1 }
    else if j == 21 { -2 }
    else if j == 22 { -2 }
    else if j == 23 { -1 }
    else if j == 24 { 3 }
    else if j == 25 { -1 }
    else { -4 }
}

fn b62_row17_x(j: usize) -> (s: i32)
    ensures
        s as int == b62_row17(j as int),
{
    if j == 0 { -1 }
    else if j == 1 { -1 }
    else if j == 2 { -3 }
    else if j == 3 { -2 }
    else if j == 4 { 0 }
    else if j == 5 { -3 }
    else if j == 6 { -2 }
    else if j == 7 { 0 }
    else if j == 8 { -3 }
    else if j == 9 { -3 }
    else if j == 10 { 2 }
    else if j == 11 { -2 }
    else if j == 12 { -1 }
    else if j == 13 { 0 }
    else if j == 14 { -1 }
    else if j == 15 { -2 }
    else if j == 16 { 1 }
    else if j == 17 { 5 }
    else if j == 18 { -1 }
    else if j == 19 { -1 }
    else if j == 20 { -1 }
    else if j == 21 { -3 }
    else if j == 22 { -3 }
    else if j == 23 { -2 }
    else if j == 24 { 0 }
    else if j == 25 { -1 }
    else { -4 }
}

fn b62_row18_x(j: usize) -> (s: i32)
    ensures
        s as int == b62_row18(j as int),
{
    if j == 0 { 1 }
    else if j == 1 { 0 }
    else if j == 2 { -1 }
    else if j == 3 { 0 }
    else if j == 4 { 0 }
    else if j == 5 { -2 }
    else if j == 6 { 0 }
    else if j == 7 { -1 }
    else if j == 8 { -2 }
    else if j == 9 { -2 }
    else if j == 10 { 0 }
    else if j == 11 { -2 }
    else if j == 12 { -1 }
    else if j == 13 { 1 }
    else if j == 14 { 0 }
    else if j == 15 { -1 }
    else if j == 16 { 0 }
    else if j == 17 { -1 }
    else if j == 18 { 4 }
    else if j == 19 { 1 }
    else if j == 20 { 0 }
    else if j == 21 { -2 }
    else if j == 22 { -3 }
    else if j == 23 { -2 }
    else if j == 24 { 0 }
    else if j == 25 { 0 }
    else { -4 }
}

fn b62_row19_x(j: usize) -> (s: i32)
    ensures
        s as int == b62_row19(j as int),
{
    if j == 0 { 0 }
    else if j == 1 { -1 }
    else if j == 2 { -1 }
    else if j == 3 { -1 }
    else if j == 4 { -1 }
    else if j == 5 { -2 }
    else if j == 6 { -2 }
    else if j == 7 { -2 }
    else if j == 8 { -1 }
    else if j == 9 { -1 }
    else if j == 10 { -1 }
    else if j == 11 { -1 }
    else if j == 12 { -1 }
    else if j == 13 { 0 }
    else if j == 14 { 0 }
    else if j == 15 { -1 }
    else if j == 16 { -1 }
    else if j == 17 { -1 }
    else if j == 18 { 1 }
    else if j == 19 { 5 }
    else if j == 20 { 0 }
    else if j == 21 { 0 }
    else if j == 22 { -2 }
    else if j == 23 { -2 }
    else if j == 24 { -1 }
    else if j == 25 { 0 }
    else { -4 }
}

fn b62_row20_x(j: usize) -> (s: i32)
    ensures
        s as int == b62_row20(j as int),
{
    if j == 0 { 0 }
    else if j == 1 { -1 }
    else if j == 2 { -2 }
    else if j == 3 { -1 }
    else if j == 4 { -1 }
    else if j == 5 { -1 }
    else if j == 6 { -1 }
    else if j == 7 { -1 }
    else if j == 8 { -1 }
    else if j == 9 { -1 }
    else if j == 10 { -1 }
    else if j == 11 { -1 }
    else if j == 12 { -1 }
    else if j == 13 { -1 }
    else if j == 14 { -1 }
    else if j == 15 { -2 }
    else if j == 16 { -1 }
    else if j == 17 { -1 }
    else if j == 18 { 0 }
    else if j == 19 { 0 }
    else if j == 20 { -1 }
    else if j == 21 { -1 }
    else if j == 22 { -2 }
    else if j == 23 { -1 }
    else if j == 24 { -1 }
    else if j == 25 { -1 }
    else { -4 }
}

fn b62_row21_x(j: usize) -> (s: i32)
    ensures
        s as int == b62_row21(j as int),
{
    if j == 0 { 0 }
    else if j == 1 { -3 }
    else if j == 2 { -1 }
    else if j == 3 { -3 }
    else if j == 4 { -2 }
    else if j == 5 { -1 }
    else if j == 6 { -3 }
    else if j == 7 { -3 }
    else if j == 8 { 3 }
    else if j == 9 { 2 }
    else if j == 10 { -2 }
    else if j == 11 { 1 }
    else if j == 12 { 1 }
    else if j == 13 { -3 }
    else if j == 14 { -1 }
    else if j == 15 { -2 }
    else if j == 16 { -2 }
    else if j == 17 { -3 }
    else if j == 18 { -2 }
    else if j == 19 { 0 }
    else if j == 20 { -1 }
    else if j == 21 { 4 }
    else if j == 22 { -3 }
    else if j == 23 { -1 }
    else if j == 24 { -2 }
    else if j == 25 { -1 }
    else { -4 }
}

fn b62_row22_x(j: usize) -> (s: i32)
    ensures
        s as int == b62_row22(j as int),
{
    if j == 0 { -3 }
    else if j == 1 { -4 }
    else if j == 2 { -2 }
    else if j == 3 { -4 }
    else if j == 4 { -3 }
    else if j == 5 { 1 }
    else if j == 6 { -2 }
    else if j == 7 { -2 }
    else if j == 8 { -3 }
    else if j == 9 { -3 }
    else if j == 10 { -3 }
    else if j == 11 { -2 }
    else if j == 12 { -1 }
    else if j == 13 { -4 }
    else if j == 14 { -2 }
    else if j == 15 { -4 }
    else if j == 16 { -2 }
    else if j == 17 { -3 }
    else if j == 18 { -3 }
    else if j == 19 { -2 }
    else if j == 20 { -2 }
    else if j == 21 { -3 }
    else if j == 22 { 11 }
    else if j == 23 { 2 }
    else if j == 24 { -3 }
    else if j == 25 { -2 }
    else { -4 }
}

fn b62_row23_x(j: usize) -> (s: i32)
    ensures
        s as int == b62_row23(j as int),
{
    if j == 0 { -2 }
    else if j == 1 { -3 }
    else if j == 2 { -2 }
    else if j == 3 { -3 }
    else if j == 4 { -2 }
    else if j == 5 { 3 }
    else if j == 6 { -3 }
    else if j == 7 { 2 }
    else if j == 8 { -1 }
    else if j == 9 { -1 }
    else if j == 10 { -2 }
    else if j == 11 { -1 }
    else if j == 12 { -1 }
    else if j == 13 { -2 }
    else if j == 14 { -1 }
    else if j == 15 { -3 }
    else if j == 16 { -1 }
    else if j == 17 { -2 }
    else if j == 18 { -2 }
    else if j == 19 { -2 }
    else if j == 20 { -1 }
    else if j == 21 { -1 }
    else if j == 22 { 2 }
    else if j == 23 { 7 }
    else if j == 24 { -2 }
    else if j == 25 { -1 }
    else { -4 }
}

fn b62_row24_x(j: usize) -> (s: i32)
    ensures
        s as int == b62_row24(j as int),
{
    if j == 0 { -1 }
    else if j == 1 { 1 }
    else if j == 2 { -3 }
    else if j == 3 { 1 }
    else if j == 4 { 4 }
    else if j == 5 { -3 }
    else if j == 6 { -2 }
    else if j == 7 { 0 }
    else if j == 8 { -3 }
    else if j == 9 { -3 }
    else if j == 10 { 1 }
    else if j == 11 { -3 }
    else if j == 12 { -1 }
    else if j == 13 { 0 }
    else if j == 14 { -1 }
    else if j == 15 { -1 }
    else if j == 16 { 3 }
    else if j == 17 { 0 }
    else if j == 18 { 0 }
    else if j == 19 { -1 }
    else if j == 20 { -1 }
    else if j == 21 { -2 }
    else if j == 22 { -3 }
    else if j == 23 { -2 }
    else if j == 24 { 4 }
    else if j == 25 { -1 }
    else { -4 }
}

fn b62_row25_x(j: usize) -> (s: i32)
    ensures
        s as int == b62_row25(j as int),
{
    if j == 0 { 0 }
    else if j == 1 { -1 }
    else if j == 2 { -2 }
    else if j == 3 { -1 }
    else if j == 4 { -1 }
    else if j == 5 { -1 }
    else if j == 6 { -1 }
    else if j == 7 { -1 }
    else if j == 8 { -1 }
    else if j == 9 { -1 }
    else if j == 10 { -1 }
    else if j == 11 { -1 }
    else if j == 12 { -1 }
    else if j == 13 { -1 }
    else if j == 14 { -1 }
    else if j == 15 { -2 }
    else if j == 16 { -1 }
    else if j == 17 { -1 }
    else if j == 18 { 0 }
    else if j == 19 { 0 }
    else if j == 20 { -1 }
    else if j == 21 { -1 }
    else if j == 22 { -2 }
    else if j == 23 { -1 }
    else if j == 24 { -1 }
    else if j == 25 { -1 }
    else { -4 }
}

fn b62_row26_x(j: usize) -> (s: i32)
    ensures
        s as int == b62_row26(j as int),
{
    if j == 0 { -4 }
    else if j == 1 { -4 }
    else if j == 2 { -4 }
    else if j == 3 { -4 }
    else if j == 4 { -4 }
    else if j == 5 { -4 }
    else if j == 6 { -4 }
    else if j == 7 { -4 }
    else if j == 8 { -4 }
    else if j == 9 { -4 }
    else if j == 10 { -4 }
    else if j == 11 { -4 }
    else if j == 12 { -4 }
    else if j == 13 { -4 }
    else if j == 14 { -4 }
    else if j == 15 { -4 }
    else if j == 16 { -4 }
    else if j == 17 { -4 }
    else if j == 18 { -4 }
    else if j == 19 { -4 }
    else if j == 20 { -4 }
    else if j == 21 { -4 }
    else if j == 22 { -4 }
    else if j == 23 { -4 }
    else if j == 24 { -4 }
    else if j == 25 { -4 }
    else { 1 }
}

/// Similarity score of two residue symbols, as executable code.
pub fn sub_score(a: u8, b: u8) -> (s: i32)
    ensures
        s as int == sub_score_spec(a, b),
        -4 <= s <= 11,
{
    proof { lemma_sub_score_bounds(a, b); }
    let i = aa_index(a);
    let j = aa_index(b);
    if i == 0 { b62_row0_x(j) }
    else if i == 1 { b62_row1_x(j) }
    else if i == 2 { b62_row2_x(j) }
    else if i == 3 { b62_row3_x(j) }
    else if i == 4 { b62_row4_x(j) }
    else if i == 5 { b62_row5_x(j) }
    else if i == 6 { b62_row6_x(j) }
    else if i == 7 { b62_row7_x(j) }
    else if i == 8 { b62_row8_x(j) }
    else if i == 9 { b62_row9_x(j) }
    else if i == 10 { b62_row10_x(j) }
    else if i == 11 { b62_row11_x(j) }
    else if i == 12 { b62_row12_x(j) }
    else if i == 13 { b62_row13_x(j) }
    else if i == 14 { b62_row14_x(j) }
    else if i == 15 { b62_row15_x(j) }
    else if i == 16 { b62_row16_x(j) }
    else if i == 17 { b62_row17_x(j) }
    else if i == 18 { b62_row18_x(j) }
    else if i == 19 { b62_row19_x(j) }
    else if i == 20 { b62_row20_x(j) }
    else if i == 21 { b62_row21_x(j) }
    else if i == 22 { b62_row22_x(j) }
    else if i == 23 { b62_row23_x(j) }
    else if i == 24 { b62_row24_x(j) }
    else if i == 25 { b62_row25_x(j) }
    else { b62_row26_x(j) }
}

proof fn lemma_row_sym_0(j: int)
    requires
        0 <= j < 27,
    ensures
        b62_row0(j) == b62_entry(j, 0),
{
}

proof fn lemma_row_sym_1(j: int)
    requires
        0 <= j < 27,
    ensures
        b62_row1(j) == b62_entry(j, 1),
{
}

proof fn lemma_row_sym_2(j: int)
    requires
        0 <= j < 27,
    ensures
        b62_row2(j) == b62_entry(j, 2),
{
}

proof fn lemma_row_sym_3(j: int)
    requires
        0 <= j < 27,
    ensures
        b62_row3(j) == b62_entry(j, 3),
{
}

proof fn lemma_row_sym_4(j: int)
    requires
        0 <= j < 27,
    ensures
        b62_row4(j) == b62_entry(j, 4),
{
}

proof fn lemma_row_sym_5(j: int)
    requires
        0 <= j < 27,
    ensures
        b62_row5(j) == b62_entry(j, 5),
{
}

proof fn lemma_row_sym_6(j: int)
    requires
        0 <= j < 27,
    ensures
        b62_row6(j) == b62_entry(j, 6),
{
}

proof fn lemma_row_sym_7(j: int)
    requires
        0 <= j < 27,
    ensures
        b62_row7(j) == b62_entry(j, 7),
{
}

proof fn lemma_row_sym_8(j: int)
    requires
        0 <= j < 27,
    ensures
        b62_row8(j) == b62_entry(j, 8),
{
}

proof fn lemma_row_sym_9(j: int)
    requires
        0 <= j < 27,
    ensures
        b62_row9(j) == b62_entry(j, 9),
{
}

proof fn lemma_row_sym_10(j: int)
    requires
        0 <= j < 27,
    ensures
        b62_row10(j) == b62_entry(j, 10),
{
}

proof fn lemma_row_sym_11(j: int)
    requires
        0 <= j < 27,
    ensures
        b62_row11(j) == b62_entry(j, 11),
{
}

proof fn lemma_row_sym_12(j: int)
    requires
        0 <= j < 27,
    ensures
        b62_row12(j) == b62_entry(j, 12),
{
}

proof fn lemma_row_sym_13(j: int)
    requires
        0 <= j < 27,
    ensures
        b62_row13(j) == b62_entry(j, 13),
{
}

proof fn lemma_row_sym_14(j: int)
    requires
        0 <= j < 27,
    ensures
        b62_row14(j) == b62_entry(j, 14),
{
}

proof fn lemma_row_sym_15(j: int)
    requires
        0 <= j < 27,
    ensures
        b62_row15(j) == b62_entry(j, 15),
{
}

proof fn lemma_row_sym_16(j: int)
    requires
        0 <= j < 27,
    ensures
        b62_row16(j) == b62_entry(j, 16),
{
}

proof fn lemma_row_sym_17(j: int)
    requires
        0 <= j < 27,
    ensures
        b62_row17(j) == b62_entry(j, 17),
{
}

proof fn lemma_row_sym_18(j: int)
    requires
        0 <= j < 27,
    ensures
        b62_row18(j) == b62_entry(j, 18),
{
}

proof fn lemma_row_sym_19(j: int)
    requires
        0 <= j < 27,
    ensures
        b62_row19(j) == b62_entry(j, 19),
{
}

proof fn lemma_row_sym_20(j: int)
    requires
        0 <= j < 27,
    ensures
        b62_row20(j) == b62_entry(j, 20),
{
}

proof fn lemma_row_sym_21(j: int)
    requires
        0 <= j < 27,
    ensures
        b62_row21(j) == b62_entry(j, 21),
{
}

proof fn lemma_row_sym_22(j: int)
    requires
        0 <= j < 27,
    ensures
        b62_row22(j) == b62_entry(j, 22),
{
}

proof fn lemma_row_sym_23(j: int)
    requires
        0 <= j < 27,
    ensures
        b62_row23(j) == b62_entry(j, 23),
{
}

proof fn lemma_row_sym_24(j: int)
    requires
        0 <= j < 27,
    ensures
        b62_row24(j) == b62_entry(j, 24),
{
}

proof fn lemma_row_sym_25(j: int)
    requires
        0 <= j < 27,
    ensures
        b62_row25(j) == b62_entry(j, 25),
{
}

proof fn lemma_row_sym_26(j: int)
    requires
        0 <= j < 27,
    ensures
        b62_row26(j) == b62_entry(j, 26),
{
}

proof fn lemma_entry_sym(i: int, j: int)
    requires
        0 <= i < 27,
        0 <= j < 27,
    ensures
        b62_entry(i, j) == b62_entry(j, i),
{
    if i == 0 { lemma_row_sym_0(j); }
    else if i == 1 { lemma_row_sym_1(j); }
    else if i == 2 { lemma_row_sym_2(j); }
    else if i == 3 { lemma_row_sym_3(j); }
    else if i == 4 { lemma_row_sym_4(j); }
    else if i == 5 { lemma_row_sym_5(j); }
    else if i == 6 { lemma_row_sym_6(j); }
    else if i == 7 { lemma_row_sym_7(j); }
    else if i == 8 { lemma_row_sym_8(j); }
    else if i == 9 { lemma_row_sym_9(j); }
    else if i == 10 { lemma_row_sym_10(j); }
    else if i == 11 { lemma_row_sym_11(j); }
    else if i == 12 { lemma_row_sym_12(j); }
    else if i == 13 { lemma_row_sym_13(j); }
    else if i == 14 { lemma_row_sym_14(j); }
    else if i == 15 { lemma_row_sym_15(j); }
    else if i == 16 { lemma_row_sym_16(j); }
    else if i == 17 { lemma_row_sym_17(j); }
    else if i == 18 { lemma_row_sym_18(j); }
    else if i == 19 { lemma_row_sym_19(j); }
    else if i == 20 { lemma_row_sym_20(j); }
    else if i == 21 { lemma_row_sym_21(j); }
    else if i == 22 { lemma_row_sym_22(j); }
    else if i == 23 { lemma_row_sym_23(j); }
    else if i == 24 { lemma_row_sym_24(j); }
    else if i == 25 { lemma_row_sym_25(j); }
    else if i == 26 { lemma_row_sym_26(j); }
}

/// The substitution matrix is symmetric.
pub proof fn lemma_sub_score_sym(a: u8, b: u8)
    ensures
        sub_score_spec(a, b) == sub_score_spec(b, a),
{
    lemma_entry_sym(aa_index_spec(a), aa_index_spec(b));
}

proof fn lemma_row_bounds_0(j: int)
    ensures
        -4 <= b62_row0(j) <= 11,
{
}

proof fn lemma_row_bounds_1(j: int)
    ensures
        -4 <= b62_row1(j) <= 11,
{
}

proof fn lemma_row_bounds_2(j: int)
    ensures
        -4 <= b62_row2(j) <= 11,
{
}

proof fn lemma_row_bounds_3(j: int)
    ensures
        -4 <= b62_row3(j) <= 11,
{
}

proof fn lemma_row_bounds_4(j: int)
    ensures
        -4 <= b62_row4(j) <= 11,
{
}

proof fn lemma_row_bounds_5(j: int)
    ensures
        -4 <= b62_row5(j) <= 11,
{
}

proof fn lemma_row_bounds_6(j: int)
    ensures
        -4 <= b62_row6(j) <= 11,
{
}

proof fn lemma_row_bounds_7(j: int)
    ensures
        -4 <= b62_row7(j) <= 11,
{
}

proof fn lemma_row_bounds_8(j: int)
    ensures
        -4 <= b62_row8(j) <= 11,
{
}

proof fn lemma_row_bounds_9(j: int)
    ensures
        -4 <= b62_row9(j) <= 11,
{
}

proof fn lemma_row_bounds_10(j: int)
    ensures
        -4 <= b62_row10(j) <= 11,
{
}

proof fn lemma_row_bounds_11(j: int)
    ensures
        -4 <= b62_row11(j) <= 11,
{
}

proof fn lemma_row_bounds_12(j: int)
    ensures
        -4 <= b62_row12(j) <= 11,
{
}

proof fn lemma_row_bounds_13(j: int)
    ensures
        -4 <= b62_row13(j) <= 11,
{
}

proof fn lemma_row_bounds_14(j: int)
    ensures
        -4 <= b62_row14(j) <= 11,
{
}

proof fn lemma_row_bounds_15(j: int)
    ensures
        -4 <= b62_row15(j) <= 11,
{
}

proof fn lemma_row_bounds_16(j: int)
    ensures
        -4 <= b62_row16(j) <= 11,
{
}

proof fn lemma_row_bounds_17(j: int)
    ensures
        -4 <= b62_row17(j) <= 11,
{
}

proof fn lemma_row_bounds_18(j: int)
    ensures
        -4 <= b62_row18(j) <= 11,
{
}

proof fn lemma_row_bounds_19(j: int)
    ensures
        -4 <= b62_row19(j) <= 11,
{
}

proof fn lemma_row_bounds_20(j: int)
    ensures
        -4 <= b62_row20(j) <= 11,
{
}

proof fn lemma_row_bounds_21(j: int)
    ensures
        -4 <= b62_row21(j) <= 11,
{
}

proof fn lemma_row_bounds_22(j: int)
    ensures
        -4 <= b62_row22(j) <= 11,
{
}

proof fn lemma_row_bounds_23(j: int)
    ensures
        -4 <= b62_row23(j) <= 11,
{
}

proof fn lemma_row_bounds_24(j: int)
    ensures
        -4 <= b62_row24(j) <= 11,
{
}

proof fn lemma_row_bounds_25(j: int)
    ensures
        -4 <= b62_row25(j) <= 11,
{
}

proof fn lemma_row_bounds_26(j: int)
    ensures
        -4 <= b62_row26(j) <= 11,
{
}

/// Every entry of the substitution matrix lies between -4 and 11.
pub proof fn lemma_sub_score_bounds(a: u8, b: u8)
    ensures
        -4 <= sub_score_spec(a, b) <= 11,
{
    let i = aa_index_spec(a);
    let j = aa_index_spec(b);
    if i == 0 { lemma_row_bounds_0(j); }
    else if i == 1 { lemma_row_bounds_1(j); }
    else if i == 2 { lemma_row_bounds_2(j); }
    else if i == 3 { lemma_row_bounds_3(j); }
    else if i == 4 { lemma_row_bounds_4(j); }
    else if i == 5 { lemma_row_bounds_5(j); }
    else if i == 6 { lemma_row_bounds_6(j); }
    else if i == 7 { lemma_row_bounds_7(j); }
    else if i == 8 { lemma_row_bounds_8(j); }
    else if i == 9 { lemma_row_bounds_9(j); }
    else if i == 10 { lemma_row_bounds_10(j); }
    else if i == 11 { lemma_row_bounds_11(j); }
    else if i == 12 { lemma_row_bounds_12(j); }
    else if i == 13 { lemma_row_bounds_13(j); }
    else if i == 14 { lemma_row_bounds_14(j); }
    else if i == 15 { lemma_row_bounds_15(j); }
    else if i == 16 { lemma_row_bounds_16(j); }
    else if i == 17 { lemma_row_bounds_17(j); }
    else if i == 18 { lemma_row_bounds_18(j); }
    else if i == 19 { lemma_row_bounds_19(j); }
    else if i == 20 { lemma_row_bounds_20(j); }
    else if i == 21 { lemma_row_bounds_21(j); }
    else if i == 22 { lemma_row_bounds_22(j); }
    else if i == 23 { lemma_row_bounds_23(j); }
    else if i == 24 { lemma_row_bounds_24(j); }
    else if i == 25 { lemma_row_bounds_25(j); }
    else if i == 26 { lemma_row_bounds_26(j); }
}

proof fn lemma_row_avg_0(j: int)
    requires
        0 <= j < 27,
    ensures
        2 * b62_row0(j) <= b62_row0(0) + b62_entry(j, j),
{
}

proof fn lemma_row_avg_1(j: int)
    requires
        0 <= j < 27,
    ensures
        2 * b62_row1(j) <= b62_row1(1) + b62_entry(j, j),
{
}

proof fn lemma_row_avg_2(j: int)
    requires
        0 <= j < 27,
    ensures
        2 * b62_row2(j) <= b62_row2(2) + b62_entry(j, j),
{
}

proof fn lemma_row_avg_3(j: int)
    requires
        0 <= j < 27,
    ensures
        2 * b62_row3(j) <= b62_row3(3) + b62_entry(j, j),
{
}

proof fn lemma_row_avg_4(j: int)
    requires
        0 <= j < 27,
    ensures
        2 * b62_row4(j) <= b62_row4(4) + b62_entry(j, j),
{
}

proof fn lemma_row_avg_5(j: int)
    requires
        0 <= j < 27,
    ensures
        2 * b62_row5(j) <= b62_row5(5) + b62_entry(j, j),
{
}

proof fn lemma_row_avg_6(j: int)
    requires
        0 <= j < 27,
    ensures
        2 * b62_row6(j) <= b62_row6(6) + b62_entry(j, j),
{
}

proof fn lemma_row_avg_7(j: int)
    requires
        0 <= j < 27,
    ensures
        2 * b62_row7(j) <= b62_row7(7) + b62_entry(j, j),
{
}

proof fn lemma_row_avg_8(j: int)
    requires
        0 <= j < 27,
    ensures
        2 * b62_row8(j) <= b62_row8(8) + b62_entry(j, j),
{
}

proof fn lemma_row_avg_9(j: int)
    requires
        0 <= j < 27,
    ensures
        2 * b62_row9(j) <= b62_row9(9) + b62_entry(j, j),
{
}

proof fn lemma_row_avg_10(j: int)
    requires
        0 <= j < 27,
    ensures
        2 * b62_row10(j) <= b62_row10(10) + b62_entry(j, j),
{
}

proof fn lemma_row_avg_11(j: int)
    requires
        0 <= j < 27,
    ensures
        2 * b62_row11(j) <= b62_row11(11) + b62_entry(j, j),
{
}

proof fn lemma_row_avg_12(j: int)
    requires
        0 <= j < 27,
    ensures
        2 * b62_row12(j) <= b62_row12(12) + b62_entry(j, j),
{
}

proof fn lemma_row_avg_13(j: int)
    requires
        0 <= j < 27,
    ensures
        2 * b62_row13(j) <= b62_row13(13) + b62_entry(j, j),
{
}

proof fn lemma_row_avg_14(j: int)
    requires
        0 <= j < 27,
    ensures
        2 * b62_row14(j) <= b62_row14(14) + b62_entry(j, j),
{
}

proof fn lemma_row_avg_15(j: int)
    requires
        0 <= j < 27,
    ensures
        2 * b62_row15(j) <= b62_row15(15) + b62_entry(j, j),
{
}

proof fn lemma_row_avg_16(j: int)
    requires
        0 <= j < 27,
    ensures
        2 * b62_row16(j) <= b62_row16(16) + b62_entry(j, j),
{
}

proof fn lemma_row_avg_17(j: int)
    requires
        0 <= j < 27,
    ensures
        2 * b62_row17(j) <= b62_row17(17) + b62_entry(j, j),
{
}

proof fn lemma_row_avg_18(j: int)
    requires
        0 <= j < 27,
    ensures
        2 * b62_row18(j) <= b62_row18(18) + b62_entry(j, j),
{
}

proof fn lemma_row_avg_19(j: int)
    requires
        0 <= j < 27,
    ensures
        2 * b62_row19(j) <= b62_row19(19) + b62_entry(j, j),
{
}

proof fn lemma_row_avg_20(j: int)
    requires
        0 <= j < 27,
    ensures
        2 * b62_row20(j) <= b62_row20(20) + b62_entry(j, j),
{
}

proof fn lemma_row_avg_21(j: int)
    requires
        0 <= j < 27,
    ensures
        2 * b62_row21(j) <= b62_row21(21) + b62_entry(j, j),
{
}

proof fn lemma_row_avg_22(j: int)
    requires
        0 <= j < 27,
    ensures
        2 * b62_row22(j) <= b62_row22(22) + b62_entry(j, j),
{
}

proof fn lemma_row_avg_23(j: int)
    requires
        0 <= j < 27,
    ensures
        2 * b62_row23(j) <= b62_row23(23) + b62_entry(j, j),
{
}

proof fn lemma_row_avg_24(j: int)
    requires
        0 <= j < 27,
    ensures
        2 * b62_row24(j) <= b62_row24(24) + b62_entry(j, j),
{
}

proof fn lemma_row_avg_25(j: int)
    requires
        0 <= j < 27,
    ensures
        2 * b62_row25(j) <= b62_row25(25) + b62_entry(j, j),
{
}

proof fn lemma_row_avg_26(j: int)
    requires
        0 <= j < 27,
    ensures
        2 * b62_row26(j) <= b62_row26(26) + b62_entry(j, j),
{
}

proof fn lemma_entry_avg(i: int, j: int)
    requires
        0 <= i < 27,
        0 <= j < 27,
    ensures
        2 * b62_entry(i, j) <= b62_entry(i, i) + b62_entry(j, j),
{
    if i == 0 { lemma_row_avg_0(j); }
    else if i == 1 { lemma_row_avg_1(j); }
    else if i == 2 { lemma_row_avg_2(j); }
    else if i == 3 { lemma_row_avg_3(j); }
    else if i == 4 { lemma_row_avg_4(j); }
    else if i == 5 { lemma_row_avg_5(j); }
    else if i == 6 { lemma_row_avg_6(j); }
    else if i == 7 { lemma_row_avg_7(j); }
    else if i == 8 { lemma_row_avg_8(j); }
    else if i == 9 { lemma_row_avg_9(j); }
    else if i == 10 { lemma_row_avg_10(j); }
    else if i == 11 { lemma_row_avg_11(j); }
    else if i == 12 { lemma_row_avg_12(j); }
    else if i == 13 { lemma_row_avg_13(j); }
    else if i == 14 { lemma_row_avg_14(j); }
    else if i == 15 { lemma_row_avg_15(j); }
    else if i == 16 { lemma_row_avg_16(j); }
    else if i == 17 { lemma_row_avg_17(j); }
    else if i == 18 { lemma_row_avg_18(j); }
    else if i == 19 { lemma_row_avg_19(j); }
    else if i == 20 { lemma_row_avg_20(j); }
    else if i == 21 { lemma_row_avg_21(j); }
    else if i == 22 { lemma_row_avg_22(j); }
    else if i == 23 { lemma_row_avg_23(j); }
    else if i == 24 { lemma_row_avg_24(j); }
    else if i == 25 { lemma_row_avg_25(j); }
    else if i == 26 { lemma_row_avg_26(j); }
}

/// No pairing beats self-pairing on average: twice any entry is at most
/// the sum of the two matching diagonal entries.
pub proof fn lemma_sub_score_avg(a: u8, b: u8)
    ensures
        2 * sub_score_spec(a, b) <= sub_score_spec(a, a) + sub_score_spec(b, b),
{
    lemma_entry_avg(aa_index_spec(a), aa_index_spec(b));
}

} // verus!
