//! Classification by literal lookup in a table of known tile colours, with a
//! shortcut for near-grey pixels.
use vstd::prelude::*;
use crate::dither::Entry;
use crate::dither::Pattern::{Checker, Solid};
use crate::palette::{PaletteColor, Rgb};
use crate::palette::PaletteColor::{Black, Blue, Green, Orange, Red, White, Yellow};

verus! {

/// Number of rows in the exact table.
pub const EXACT_TABLE_LEN: usize = 113;

/// Row `i` of the exact table. Rows are searched in order, so where a colour
/// appears twice the earlier row wins.
pub open spec fn exact_entry(i: int) -> Entry {
    exact_row(i as usize)
}

/// The rows of the exact table by position.
pub open spec fn exact_row(i: usize) -> Entry {
    match i {
        0 => Entry { key: Rgb(0xff, 0xff, 0xff), pattern: Solid(White) },
        1 => Entry { key: Rgb(0x00, 0x00, 0x00), pattern: Solid(Black) },
        2 => Entry { key: Rgb(0x00, 0x00, 0xff), pattern: Solid(Blue) },
        3 => Entry { key: Rgb(0xff, 0x00, 0x00), pattern: Solid(Red) },
        4 => Entry { key: Rgb(0x00, 0xff, 0x00), pattern: Solid(Green) },
        5 => Entry { key: Rgb(0xff, 0x7f, 0x00), pattern: Solid(Orange) },
        6 => Entry { key: Rgb(0xff, 0xff, 0x00), pattern: Solid(Yellow) },
        7 => Entry { key: Rgb(0xff, 0xff, 0xfb), pattern: Solid(White) },
        8 => Entry { key: Rgb(0xec, 0xf3, 0xc4), pattern: Checker(Yellow, White) },
        9 => Entry { key: Rgb(0xf1, 0xf2, 0xd9), pattern: Checker(Yellow, White) },
        10 => Entry { key: Rgb(0xd3, 0xd3, 0xce), pattern: Checker(Black, White) },
        11 => Entry { key: Rgb(0xd2, 0xd3, 0xce), pattern: Checker(Black, White) },
        12 => Entry { key: Rgb(0xd2, 0xd3, 0xce), pattern: Checker(Black, White) },
        13 => Entry { key: Rgb(0xd7, 0xd9, 0xc5), pattern: Checker(Black, White) },
        14 => Entry { key: Rgb(0xe5, 0xf0, 0xd4), pattern: Checker(Green, White) },
        15 => Entry { key: Rgb(0xce, 0xe7, 0xc3), pattern: Checker(Green, White) },
        16 => Entry { key: Rgb(0xd1, 0xea, 0xc6), pattern: Checker(Green, White) },
        17 => Entry { key: Rgb(0x97, 0xcb, 0x8d), pattern: Checker(Green, Black) },
        18 => Entry { key: Rgb(0xe6, 0xe9, 0xd4), pattern: Checker(Yellow, White) },
        19 => Entry { key: Rgb(0xf0, 0xf3, 0xd1), pattern: Checker(Yellow, White) },
        20 => Entry { key: Rgb(0xeb, 0xf4, 0xe9), pattern: Checker(Yellow, White) },
        21 => Entry { key: Rgb(0xee, 0xf2, 0xd2), pattern: Checker(Yellow, White) },
        22 => Entry { key: Rgb(0xef, 0xf0, 0xdc), pattern: Solid(White) },
        23 => Entry { key: Rgb(0xff, 0xff, 0xda), pattern: Solid(Orange) },
        24 => Entry { key: Rgb(0x44, 0x44, 0x44), pattern: Solid(Black) },
        25 => Entry { key: Rgb(0x67, 0x66, 0xd9), pattern: Solid(Blue) },
        26 => Entry { key: Rgb(0x86, 0xab, 0x84), pattern: Solid(Black) },
        27 => Entry { key: Rgb(0xad, 0xad, 0xaa), pattern: Solid(Black) },
        28 => Entry { key: Rgb(0x9d, 0x9d, 0x9b), pattern: Solid(Black) },
        29 => Entry { key: Rgb(0xef, 0xf2, 0xd2), pattern: Solid(Yellow) },
        30 => Entry { key: Rgb(0xef, 0xf2, 0xd2), pattern: Checker(Green, Yellow) },
        31 => Entry { key: Rgb(0xda, 0xe7, 0xc5), pattern: Checker(Green, White) },
        32 => Entry { key: Rgb(0xa7, 0xcd, 0x92), pattern: Solid(Green) },
        33 => Entry { key: Rgb(0x55, 0xa6, 0xd8), pattern: Solid(Blue) },
        34 => Entry { key: Rgb(0x6a, 0x69, 0xdc), pattern: Solid(Blue) },
        35 => Entry { key: Rgb(0x97, 0xc6, 0xd6), pattern: Checker(Blue, White) },
        36 => Entry { key: Rgb(0x8d, 0xb2, 0xb4), pattern: Checker(Blue, Black) },
        37 => Entry { key: Rgb(0xd9, 0xea, 0xa8), pattern: Solid(Green) },
        38 => Entry { key: Rgb(0xcc, 0xe3, 0x96), pattern: Solid(Green) },
        39 => Entry { key: Rgb(0xcc, 0xe3, 0x96), pattern: Solid(Green) },
        40 => Entry { key: Rgb(0xd3, 0xd4, 0xd1), pattern: Checker(Black, White) },
        41 => Entry { key: Rgb(0xe2, 0xe2, 0xdd), pattern: Checker(Black, White) },
        42 => Entry { key: Rgb(0xd5, 0xd5, 0xd2), pattern: Checker(Black, White) },
        43 => Entry { key: Rgb(0xd7, 0xd8, 0xd2), pattern: Checker(Black, White) },
        44 => Entry { key: Rgb(0xcc, 0xcd, 0xba), pattern: Checker(Black, White) },
        45 => Entry { key: Rgb(0xf8, 0xf9, 0xe0), pattern: Checker(Yellow, White) },
        46 => Entry { key: Rgb(0xf5, 0xf6, 0xdd), pattern: Checker(Yellow, White) },
        47 => Entry { key: Rgb(0xe3, 0xe4, 0xd4), pattern: Checker(Yellow, White) },
        48 => Entry { key: Rgb(0xe9, 0xea, 0xd6), pattern: Checker(Yellow, White) },
        49 => Entry { key: Rgb(0xb3, 0xb3, 0xac), pattern: Solid(Black) },
        50 => Entry { key: Rgb(0xdf, 0xe0, 0xdc), pattern: Solid(Black) },
        51 => Entry { key: Rgb(0xdd, 0xdd, 0xd9), pattern: Checker(Black, White) },
        52 => Entry { key: Rgb(0xdf, 0xe0, 0xdc), pattern: Checker(Black, White) },
        53 => Entry { key: Rgb(0xdd, 0xdd, 0xd9), pattern: Checker(Black, White) },
        54 => Entry { key: Rgb(0xf6, 0xf6, 0xf2), pattern: Solid(White) },
        55 => Entry { key: Rgb(0xa3, 0xa4, 0x9e), pattern: Solid(Black) },
        56 => Entry { key: Rgb(0xb5, 0xb6, 0xa9), pattern: Solid(Black) },
        57 => Entry { key: Rgb(0xef, 0xf0, 0xd7), pattern: Solid(White) },
        58 => Entry { key: Rgb(0xf1, 0xf2, 0xce), pattern: Checker(Yellow, White) },
        59 => Entry { key: Rgb(0xf2, 0xf5, 0xd3), pattern: Checker(Yellow, White) },
        60 => Entry { key: Rgb(0xc5, 0xc5, 0xc2), pattern: Solid(Black) },
        61 => Entry { key: Rgb(0xe9, 0xea, 0xe6), pattern: Solid(White) },
        62 => Entry { key: Rgb(0x88, 0x89, 0x84), pattern: Solid(Black) },
        63 => Entry { key: Rgb(0x78, 0x79, 0x75), pattern: Solid(Black) },
        64 => Entry { key: Rgb(0xf5, 0xf5, 0xf2), pattern: Solid(White) },
        65 => Entry { key: Rgb(0x4e, 0x52, 0xc4), pattern: Solid(Blue) },
        66 => Entry { key: Rgb(0x66, 0x68, 0xca), pattern: Solid(Blue) },
        67 => Entry { key: Rgb(0xa9, 0x74, 0xc6), pattern: Checker(Blue, Red) },
        68 => Entry { key: Rgb(0x73, 0xb9, 0x6d), pattern: Solid(Green) },
        69 => Entry { key: Rgb(0xa4, 0xd2, 0x9b), pattern: Solid(Green) },
        70 => Entry { key: Rgb(0xd6, 0xef, 0xca), pattern: Checker(Green, White) },
        71 => Entry { key: Rgb(0xd1, 0xea, 0xc5), pattern: Checker(Green, White) },
        72 => Entry { key: Rgb(0xbd, 0xe1, 0xb2), pattern: Checker(Green, White) },
        73 => Entry { key: Rgb(0xa9, 0xa9, 0xa6), pattern: Solid(Black) },
        74 => Entry { key: Rgb(0xf7, 0xf8, 0xdf), pattern: Solid(White) },
        75 => Entry { key: Rgb(0xdb, 0xdc, 0xc7), pattern: Solid(White) },
        76 => Entry { key: Rgb(0xe1, 0xe2, 0xd5), pattern: Solid(White) },
        77 => Entry { key: Rgb(0xd7, 0xd7, 0xd4), pattern: Solid(White) },
        78 => Entry { key: Rgb(0xe2, 0xe3, 0xdd), pattern: Solid(White) },
        79 => Entry { key: Rgb(0x6a, 0x6a, 0x66), pattern: Solid(Black) },
        80 => Entry { key: Rgb(0xbb, 0xbc, 0xaa), pattern: Solid(Black) },
        81 => Entry { key: Rgb(0xd8, 0xd8, 0xba), pattern: Checker(Black, Yellow) },
        82 => Entry { key: Rgb(0x8a, 0x8a, 0x7d), pattern: Solid(Black) },
        83 => Entry { key: Rgb(0xe2, 0xe3, 0xdd), pattern: Solid(White) },
        84 => Entry { key: Rgb(0xff, 0xf0, 0xce), pattern: Checker(Orange, White) },
        85 => Entry { key: Rgb(0x77, 0x78, 0x6b), pattern: Solid(Black) },
        86 => Entry { key: Rgb(0x86, 0x7b, 0x6e), pattern: Solid(Black) },
        87 => Entry { key: Rgb(0xfe, 0xfe, 0xfb), pattern: Solid(White) },
        88 => Entry { key: Rgb(0xde, 0xea, 0xce), pattern: Checker(Green, White) },
        89 => Entry { key: Rgb(0xef, 0xf2, 0xd1), pattern: Checker(Yellow, White) },
        90 => Entry { key: Rgb(0x94, 0x94, 0x92), pattern: Solid(Black) },
        91 => Entry { key: Rgb(0x96, 0x99, 0x8d), pattern: Solid(Black) },
        92 => Entry { key: Rgb(0x8f, 0x23, 0x31), pattern: Solid(Red) },
        93 => Entry { key: Rgb(0xc8, 0x1c, 0x33), pattern: Solid(Red) },
        94 => Entry { key: Rgb(0x69, 0x68, 0xe0), pattern: Checker(Blue, Red) },
        95 => Entry { key: Rgb(0x87, 0x87, 0xb8), pattern: Checker(Black, Red) },
        96 => Entry { key: Rgb(0xe7, 0xea, 0xca), pattern: Checker(White, Yellow) },
        97 => Entry { key: Rgb(0xf6, 0xf9, 0xd7), pattern: Checker(White, Yellow) },
        98 => Entry { key: Rgb(0xd6, 0xe4, 0xac), pattern: Solid(Green) },
        99 => Entry { key: Rgb(0xc5, 0xdc, 0xb1), pattern: Solid(Green) },
        100 => Entry { key: Rgb(0xd2, 0xe4, 0x9a), pattern: Solid(Green) },
        101 => Entry { key: Rgb(0xf2, 0xf0, 0xc6), pattern: Solid(Yellow) },
        102 => Entry { key: Rgb(0xf1, 0xf2, 0xdd), pattern: Solid(White) },
        103 => Entry { key: Rgb(0xb1, 0x6a, 0xcb), pattern: Solid(Red) },
        104 => Entry { key: Rgb(0xbc, 0xbc, 0xa4), pattern: Solid(Black) },
        105 => Entry { key: Rgb(0xb4, 0xc5, 0xac), pattern: Solid(Black) },
        106 => Entry { key: Rgb(0xb3, 0xb3, 0x9c), pattern: Solid(Black) },
        107 => Entry { key: Rgb(0xb0, 0xd2, 0xd6), pattern: Solid(Blue) },
        108 => Entry { key: Rgb(0x93, 0xc5, 0xd7), pattern: Solid(Blue) },
        109 => Entry { key: Rgb(0xf1, 0xf5, 0xd2), pattern: Checker(Yellow, White) },
        110 => Entry { key: Rgb(0xd3, 0xe3, 0xcd), pattern: Checker(Black, White) },
        111 => Entry { key: Rgb(0xd3, 0xe7, 0x99), pattern: Checker(Green, Yellow) },
        _ => Entry { key: Rgb(0xc8, 0xd9, 0xa6), pattern: Solid(Green) },
    }
}

/// Row `i` of the exact table.
pub fn exact_entry_at(i: usize) -> (e: Entry)
    requires
        i < EXACT_TABLE_LEN,
    ensures
        e == exact_row(i),
{
    match i {
        0 => Entry { key: Rgb(0xff, 0xff, 0xff), pattern: Solid(White) },
        1 => Entry { key: Rgb(0x00, 0x00, 0x00), pattern: Solid(Black) },
        2 => Entry { key: Rgb(0x00, 0x00, 0xff), pattern: Solid(Blue) },
        3 => Entry { key: Rgb(0xff, 0x00, 0x00), pattern: Solid(Red) },
        4 => Entry { key: Rgb(0x00, 0xff, 0x00), pattern: Solid(Green) },
        5 => Entry { key: Rgb(0xff, 0x7f, 0x00), pattern: Solid(Orange) },
        6 => Entry { key: Rgb(0xff, 0xff, 0x00), pattern: Solid(Yellow) },
        7 => Entry { key: Rgb(0xff, 0xff, 0xfb), pattern: Solid(White) },
        8 => Entry { key: Rgb(0xec, 0xf3, 0xc4), pattern: Checker(Yellow, White) },
        9 => Entry { key: Rgb(0xf1, 0xf2, 0xd9), pattern: Checker(Yellow, White) },
        10 => Entry { key: Rgb(0xd3, 0xd3, 0xce), pattern: Checker(Black, White) },
        11 => Entry { key: Rgb(0xd2, 0xd3, 0xce), pattern: Checker(Black, White) },
        12 => Entry { key: Rgb(0xd2, 0xd3, 0xce), pattern: Checker(Black, White) },
        13 => Entry { key: Rgb(0xd7, 0xd9, 0xc5), pattern: Checker(Black, White) },
        14 => Entry { key: Rgb(0xe5, 0xf0, 0xd4), pattern: Checker(Green, White) },
        15 => Entry { key: Rgb(0xce, 0xe7, 0xc3), pattern: Checker(Green, White) },
        16 => Entry { key: Rgb(0xd1, 0xea, 0xc6), pattern: Checker(Green, White) },
        17 => Entry { key: Rgb(0x97, 0xcb, 0x8d), pattern: Checker(Green, Black) },
        18 => Entry { key: Rgb(0xe6, 0xe9, 0xd4), pattern: Checker(Yellow, White) },
        19 => Entry { key: Rgb(0xf0, 0xf3, 0xd1), pattern: Checker(Yellow, White) },
        20 => Entry { key: Rgb(0xeb, 0xf4, 0xe9), pattern: Checker(Yellow, White) },
        21 => Entry { key: Rgb(0xee, 0xf2, 0xd2), pattern: Checker(Yellow, White) },
        22 => Entry { key: Rgb(0xef, 0xf0, 0xdc), pattern: Solid(White) },
        23 => Entry { key: Rgb(0xff, 0xff, 0xda), pattern: Solid(Orange) },
        24 => Entry { key: Rgb(0x44, 0x44, 0x44), pattern: Solid(Black) },
        25 => Entry { key: Rgb(0x67, 0x66, 0xd9), pattern: Solid(Blue) },
        26 => Entry { key: Rgb(0x86, 0xab, 0x84), pattern: Solid(Black) },
        27 => Entry { key: Rgb(0xad, 0xad, 0xaa), pattern: Solid(Black) },
        28 => Entry { key: Rgb(0x9d, 0x9d, 0x9b), pattern: Solid(Black) },
        29 => Entry { key: Rgb(0xef, 0xf2, 0xd2), pattern: Solid(Yellow) },
        30 => Entry { key: Rgb(0xef, 0xf2, 0xd2), pattern: Checker(Green, Yellow) },
        31 => Entry { key: Rgb(0xda, 0xe7, 0xc5), pattern: Checker(Green, White) },
        32 => Entry { key: Rgb(0xa7, 0xcd, 0x92), pattern: Solid(Green) },
        33 => Entry { key: Rgb(0x55, 0xa6, 0xd8), pattern: Solid(Blue) },
        34 => Entry { key: Rgb(0x6a, 0x69, 0xdc), pattern: Solid(Blue) },
        35 => Entry { key: Rgb(0x97, 0xc6, 0xd6), pattern: Checker(Blue, White) },
        36 => Entry { key: Rgb(0x8d, 0xb2, 0xb4), pattern: Checker(Blue, Black) },
        37 => Entry { key: Rgb(0xd9, 0xea, 0xa8), pattern: Solid(Green) },
        38 => Entry { key: Rgb(0xcc, 0xe3, 0x96), pattern: Solid(Green) },
        39 => Entry { key: Rgb(0xcc, 0xe3, 0x96), pattern: Solid(Green) },
        40 => Entry { key: Rgb(0xd3, 0xd4, 0xd1), pattern: Checker(Black, White) },
        41 => Entry { key: Rgb(0xe2, 0xe2, 0xdd), pattern: Checker(Black, White) },
        42 => Entry { key: Rgb(0xd5, 0xd5, 0xd2), pattern: Checker(Black, White) },
        43 => Entry { key: Rgb(0xd7, 0xd8, 0xd2), pattern: Checker(Black, White) },
        44 => Entry { key: Rgb(0xcc, 0xcd, 0xba), pattern: Checker(Black, White) },
        45 => Entry { key: Rgb(0xf8, 0xf9, 0xe0), pattern: Checker(Yellow, White) },
        46 => Entry { key: Rgb(0xf5, 0xf6, 0xdd), pattern: Checker(Yellow, White) },
        47 => Entry { key: Rgb(0xe3, 0xe4, 0xd4), pattern: Checker(Yellow, White) },
        48 => Entry { key: Rgb(0xe9, 0xea, 0xd6), pattern: Checker(Yellow, White) },
        49 => Entry { key: Rgb(0xb3, 0xb3, 0xac), pattern: Solid(Black) },
        50 => Entry { key: Rgb(0xdf, 0xe0, 0xdc), pattern: Solid(Black) },
        51 => Entry { key: Rgb(0xdd, 0xdd, 0xd9), pattern: Checker(Black, White) },
        52 => Entry { key: Rgb(0xdf, 0xe0, 0xdc), pattern: Checker(Black, White) },
        53 => Entry { key: Rgb(0xdd, 0xdd, 0xd9), pattern: Checker(Black, White) },
        54 => Entry { key: Rgb(0xf6, 0xf6, 0xf2), pattern: Solid(White) },
        55 => Entry { key: Rgb(0xa3, 0xa4, 0x9e), pattern: Solid(Black) },
        56 => Entry { key: Rgb(0xb5, 0xb6, 0xa9), pattern: Solid(Black) },
        57 => Entry { key: Rgb(0xef, 0xf0, 0xd7), pattern: Solid(White) },
        58 => Entry { key: Rgb(0xf1, 0xf2, 0xce), pattern: Checker(Yellow, White) },
        59 => Entry { key: Rgb(0xf2, 0xf5, 0xd3), pattern: Checker(Yellow, White) },
        60 => Entry { key: Rgb(0xc5, 0xc5, 0xc2), pattern: Solid(Black) },
        61 => Entry { key: Rgb(0xe9, 0xea, 0xe6), pattern: Solid(White) },
        62 => Entry { key: Rgb(0x88, 0x89, 0x84), pattern: Solid(Black) },
        63 => Entry { key: Rgb(0x78, 0x79, 0x75), pattern: Solid(Black) },
        64 => Entry { key: Rgb(0xf5, 0xf5, 0xf2), pattern: Solid(White) },
        65 => Entry { key: Rgb(0x4e, 0x52, 0xc4), pattern: Solid(Blue) },
        66 => Entry { key: Rgb(0x66, 0x68, 0xca), pattern: Solid(Blue) },
        67 => Entry { key: Rgb(0xa9, 0x74, 0xc6), pattern: Checker(Blue, Red) },
        68 => Entry { key: Rgb(0x73, 0xb9, 0x6d), pattern: Solid(Green) },
        69 => Entry { key: Rgb(0xa4, 0xd2, 0x9b), pattern: Solid(Green) },
        70 => Entry { key: Rgb(0xd6, 0xef, 0xca), pattern: Checker(Green, White) },
        71 => Entry { key: Rgb(0xd1, 0xea, 0xc5), pattern: Checker(Green, White) },
        72 => Entry { key: Rgb(0xbd, 0xe1, 0xb2), pattern: Checker(Green, White) },
        73 => Entry { key: Rgb(0xa9, 0xa9, 0xa6), pattern: Solid(Black) },
        74 => Entry { key: Rgb(0xf7, 0xf8, 0xdf), pattern: Solid(White) },
        75 => Entry { key: Rgb(0xdb, 0xdc, 0xc7), pattern: Solid(White) },
        76 => Entry { key: Rgb(0xe1, 0xe2, 0xd5), pattern: Solid(White) },
        77 => Entry { key: Rgb(0xd7, 0xd7, 0xd4), pattern: Solid(White) },
        78 => Entry { key: Rgb(0xe2, 0xe3, 0xdd), pattern: Solid(White) },
        79 => Entry { key: Rgb(0x6a, 0x6a, 0x66), pattern: Solid(Black) },
        80 => Entry { key: Rgb(0xbb, 0xbc, 0xaa), pattern: Solid(Black) },
        81 => Entry { key: Rgb(0xd8, 0xd8, 0xba), pattern: Checker(Black, Yellow) },
        82 => Entry { key: Rgb(0x8a, 0x8a, 0x7d), pattern: Solid(Black) },
        83 => Entry { key: Rgb(0xe2, 0xe3, 0xdd), pattern: Solid(White) },
        84 => Entry { key: Rgb(0xff, 0xf0, 0xce), pattern: Checker(Orange, White) },
        85 => Entry { key: Rgb(0x77, 0x78, 0x6b), pattern: Solid(Black) },
        86 => Entry { key: Rgb(0x86, 0x7b, 0x6e), pattern: Solid(Black) },
        87 => Entry { key: Rgb(0xfe, 0xfe, 0xfb), pattern: Solid(White) },
        88 => Entry { key: Rgb(0xde, 0xea, 0xce), pattern: Checker(Green, White) },
        89 => Entry { key: Rgb(0xef, 0xf2, 0xd1), pattern: Checker(Yellow, White) },
        90 => Entry { key: Rgb(0x94, 0x94, 0x92), pattern: Solid(Black) },
        91 => Entry { key: Rgb(0x96, 0x99, 0x8d), pattern: Solid(Black) },
        92 => Entry { key: Rgb(0x8f, 0x23, 0x31), pattern: Solid(Red) },
        93 => Entry { key: Rgb(0xc8, 0x1c, 0x33), pattern: Solid(Red) },
        94 => Entry { key: Rgb(0x69, 0x68, 0xe0), pattern: Checker(Blue, Red) },
        95 => Entry { key: Rgb(0x87, 0x87, 0xb8), pattern: Checker(Black, Red) },
        96 => Entry { key: Rgb(0xe7, 0xea, 0xca), pattern: Checker(White, Yellow) },
        97 => Entry { key: Rgb(0xf6, 0xf9, 0xd7), pattern: Checker(White, Yellow) },
        98 => Entry { key: Rgb(0xd6, 0xe4, 0xac), pattern: Solid(Green) },
        99 => Entry { key: Rgb(0xc5, 0xdc, 0xb1), pattern: Solid(Green) },
        100 => Entry { key: Rgb(0xd2, 0xe4, 0x9a), pattern: Solid(Green) },
        101 => Entry { key: Rgb(0xf2, 0xf0, 0xc6), pattern: Solid(Yellow) },
        102 => Entry { key: Rgb(0xf1, 0xf2, 0xdd), pattern: Solid(White) },
        103 => Entry { key: Rgb(0xb1, 0x6a, 0xcb), pattern: Solid(Red) },
        104 => Entry { key: Rgb(0xbc, 0xbc, 0xa4), pattern: Solid(Black) },
        105 => Entry { key: Rgb(0xb4, 0xc5, 0xac), pattern: Solid(Black) },
        106 => Entry { key: Rgb(0xb3, 0xb3, 0x9c), pattern: Solid(Black) },
        107 => Entry { key: Rgb(0xb0, 0xd2, 0xd6), pattern: Solid(Blue) },
        108 => Entry { key: Rgb(0x93, 0xc5, 0xd7), pattern: Solid(Blue) },
        109 => Entry { key: Rgb(0xf1, 0xf5, 0xd2), pattern: Checker(Yellow, White) },
        110 => Entry { key: Rgb(0xd3, 0xe3, 0xcd), pattern: Checker(Black, White) },
        111 => Entry { key: Rgb(0xd3, 0xe7, 0x99), pattern: Checker(Green, Yellow) },
        _ => Entry { key: Rgb(0xc8, 0xd9, 0xa6), pattern: Solid(Green) },
    }
}

/// The colour row `i` renders at (x, y).
pub open spec fn exact_color(i: int, x: u32, y: u32) -> Rgb {
    exact_entry(i).pattern.spec_pick(x, y).spec_rgb()
}

/// Row `i` is the first row keyed by `p`.
pub open spec fn is_first_match(p: Rgb, i: int) -> bool {
    &&& 0 <= i < EXACT_TABLE_LEN
    &&& exact_entry(i).key == p
    &&& forall|j: int| 0 <= j < i ==> exact_entry(j).key != p
}

/// Some row is keyed by `p`.
pub open spec fn has_match(p: Rgb) -> bool {
    exists|i: int| 0 <= i < EXACT_TABLE_LEN && exact_entry(i).key == p
}

/// The first row keyed by `p` (meaningful only where `has_match(p)`).
pub open spec fn first_match(p: Rgb) -> int {
    choose|i: int| is_first_match(p, i)
}

/// The largest channel of `p`.
pub open spec fn max3(p: Rgb) -> u8 {
    if p.0 >= p.1 && p.0 >= p.2 {
        p.0
    } else if p.1 >= p.2 {
        p.1
    } else {
        p.2
    }
}

/// The smallest channel of `p`.
pub open spec fn min3(p: Rgb) -> u8 {
    if p.0 <= p.1 && p.0 <= p.2 {
        p.0
    } else if p.1 <= p.2 {
        p.1
    } else {
        p.2
    }
}

/// A nearly grey pixel (channels within 20 of each other) that is not dark.
pub open spec fn bright_neutral(p: Rgb) -> bool {
    max3(p) - min3(p) < 21 && max3(p) > 80
}

/// What the exact-table strategy makes of pixel `p` at (x, y): white for a
/// bright near-grey pixel, else the first matching row's colour, else red as a
/// marker for a colour the table does not know.
pub open spec fn outdoor_spec(x: u32, y: u32, p: Rgb) -> Rgb {
    if bright_neutral(p) {
        PaletteColor::White.spec_rgb()
    } else if has_match(p) {
        exact_color(first_match(p), x, y)
    } else {
        PaletteColor::Red.spec_rgb()
    }
}

/// At most one row is the first one keyed by `p`.
proof fn lemma_first_match_unique(p: Rgb, i: int, k: int)
    requires
        is_first_match(p, i),
        is_first_match(p, k),
    ensures
        i == k,
{
    if i < k {
        assert(exact_entry(i).key != p);
    } else if k < i {
        assert(exact_entry(k).key != p);
    }
}

/// A row keyed by `p` at or after the first one.
proof fn lemma_first_match_exists(p: Rgb, i: int)
    requires
        0 <= i < EXACT_TABLE_LEN,
        exact_entry(i).key == p,
    ensures
        is_first_match(p, first_match(p)),
        first_match(p) <= i,
    decreases i,
{
    if forall|j: int| 0 <= j < i ==> exact_entry(j).key != p {
        assert(is_first_match(p, i));
        lemma_first_match_unique(p, i, first_match(p));
    } else {
        let j = choose|j: int| 0 <= j < i && exact_entry(j).key == p;
        lemma_first_match_exists(p, j);
    }
}

/// Index of the first row keyed by `p`, or `None` when no row is.
pub fn find_exact(p: Rgb) -> (r: Option<usize>)
    ensures
        match r {
            Some(i) => is_first_match(p, i as int),
            None => !has_match(p),
        },
{
    for i in 0..EXACT_TABLE_LEN
        invariant
            forall|j: int| 0 <= j < i ==> exact_entry(j).key != p,
    {
        let e = exact_entry_at(i);
        if e.key == p {
            return Some(i);
        }
    }
    None
}

/// Classifies a pixel with the exact table. Bright near-grey pixels become
/// white; dark near-grey ones are looked up like any other. A colour that no
/// row holds comes out red.
pub fn outdoor_map_color(x: u32, y: u32, pixel: Rgb) -> (r: Rgb)
    ensures
        r == outdoor_spec(x, y, pixel),
{
    let mut max: u8 = pixel.0;
    if pixel.1 > max {
        max = pixel.1;
    }
    if pixel.2 > max {
        max = pixel.2;
    }
    let mut min: u8 = pixel.0;
    if pixel.1 < min {
        min = pixel.1;
    }
    if pixel.2 < min {
        min = pixel.2;
    }
    if max - min < 21 && max > 80 {
        return PaletteColor::White.rgb();
    }
    match find_exact(pixel) {
        Some(i) => {
            proof {
                lemma_first_match_exists(pixel, i as int);
                lemma_first_match_unique(pixel, i as int, first_match(pixel));
            }
            let e = exact_entry_at(i);
            e.pattern.pick(x, y).rgb()
        },
        None => PaletteColor::Red.rgb(),
    }
}

/// Each row classifies its own key as the row's pattern shows it at (0, 0).
/// Two kinds of row are left out, since the shortcut or an earlier row decides
/// for them: a bright near-grey key whose row does not show white at (0, 0),
/// and a key that an earlier row also holds with another colour at (0, 0).
pub proof fn lemma_exact_entry_classifies_itself(i: int)
    requires
        0 <= i < EXACT_TABLE_LEN,
        bright_neutral(exact_entry(i).key) ==> exact_color(i, 0, 0)
            == PaletteColor::White.spec_rgb(),
        !bright_neutral(exact_entry(i).key) ==> forall|j: int|
            0 <= j < i && exact_entry(j).key == exact_entry(i).key ==> exact_color(j, 0, 0)
                == exact_color(i, 0, 0),
    ensures
        outdoor_spec(0, 0, exact_entry(i).key) == exact_color(i, 0, 0),
{
    let p = exact_entry(i).key;
    lemma_first_match_exists(p, i);
}

} // verus!
