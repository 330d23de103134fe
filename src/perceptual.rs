//! Classification by the nearest reference colour in CIE L*a*b* space.
use vstd::prelude::*;
use crate::dither::Entry;
use crate::dither::Pattern::{Checker, Solid};
use crate::palette::Rgb;
use crate::palette::PaletteColor::{Black, Blue, Green, Orange, Red, White, Yellow};

verus! {

/// Number of rows in the perceptual table.
pub const PERCEPTUAL_TABLE_LEN: usize = 14;

/// Row `i` of the perceptual table: the reference colour whose L*a*b*
/// coordinates are compared against, and the pattern it renders with.
pub open spec fn perceptual_entry(i: int) -> Entry {
    perceptual_row(i as usize)
}

/// The rows of the perceptual table by position.
pub open spec fn perceptual_row(i: usize) -> Entry {
    match i {
        0 => Entry { key: Rgb(0xff, 0xff, 0xff), pattern: Solid(White) },
        1 => Entry { key: Rgb(0x00, 0x00, 0x00), pattern: Solid(Black) },
        2 => Entry { key: Rgb(0x5a, 0x5a, 0x5a), pattern: Solid(Black) },
        3 => Entry { key: Rgb(0x00, 0x00, 0xff), pattern: Solid(Blue) },
        4 => Entry { key: Rgb(0xff, 0x00, 0x00), pattern: Solid(Red) },
        5 => Entry { key: Rgb(0x00, 0xff, 0x00), pattern: Solid(Green) },
        6 => Entry { key: Rgb(0xff, 0x7f, 0x00), pattern: Solid(Orange) },
        7 => Entry { key: Rgb(0xff, 0xff, 0x00), pattern: Solid(Yellow) },
        8 => Entry { key: Rgb(0x7f, 0x7f, 0x7f), pattern: Checker(Black, White) },
        9 => Entry { key: Rgb(0xff, 0xff, 0x9b), pattern: Checker(Yellow, White) },
        10 => Entry { key: Rgb(0x7f, 0xff, 0x7f), pattern: Checker(Green, White) },
        11 => Entry { key: Rgb(0xd4, 0xfa, 0xd4), pattern: Checker(Green, White) },
        12 => Entry { key: Rgb(0xfb, 0xd4, 0x9d), pattern: Checker(Red, White) },
        _ => Entry { key: Rgb(0x7f, 0x00, 0xff), pattern: Checker(Red, Blue) },
    }
}

/// Row `i` of the perceptual table.
fn perceptual_entry_at(i: usize) -> (e: Entry)
    requires
        i < PERCEPTUAL_TABLE_LEN,
    ensures
        e == perceptual_row(i),
{
    match i {
        0 => Entry { key: Rgb(0xff, 0xff, 0xff), pattern: Solid(White) },
        1 => Entry { key: Rgb(0x00, 0x00, 0x00), pattern: Solid(Black) },
        2 => Entry { key: Rgb(0x5a, 0x5a, 0x5a), pattern: Solid(Black) },
        3 => Entry { key: Rgb(0x00, 0x00, 0xff), pattern: Solid(Blue) },
        4 => Entry { key: Rgb(0xff, 0x00, 0x00), pattern: Solid(Red) },
        5 => Entry { key: Rgb(0x00, 0xff, 0x00), pattern: Solid(Green) },
        6 => Entry { key: Rgb(0xff, 0x7f, 0x00), pattern: Solid(Orange) },
        7 => Entry { key: Rgb(0xff, 0xff, 0x00), pattern: Solid(Yellow) },
        8 => Entry { key: Rgb(0x7f, 0x7f, 0x7f), pattern: Checker(Black, White) },
        9 => Entry { key: Rgb(0xff, 0xff, 0x9b), pattern: Checker(Yellow, White) },
        10 => Entry { key: Rgb(0x7f, 0xff, 0x7f), pattern: Checker(Green, White) },
        11 => Entry { key: Rgb(0xd4, 0xfa, 0xd4), pattern: Checker(Green, White) },
        12 => Entry { key: Rgb(0xfb, 0xd4, 0x9d), pattern: Checker(Red, White) },
        _ => Entry { key: Rgb(0x7f, 0x00, 0xff), pattern: Checker(Red, Blue) },
    }
}

/// Relies on `lab::Lab::from_rgb` to place both pixels in L*a*b* space and on
/// `lab::Lab::squared_distance` for the sum of squared differences of their
/// three coordinates. That sum is a finite float and never negative (nor -0.0),
/// and for such floats the order of their IEEE bit patterns, read as unsigned
/// integers, is the order of the values: comparing these keys compares distances.
/// The conversion rounds floats (`powf`, and fused multiply-add where the target
/// has it) in ways that may differ between machines, so nothing is promised of
/// the value itself.
#[verifier::external_body]
fn lab_distance_key(p: Rgb, q: Rgb) -> (r: u32) {
    let lp = lab::Lab::from_rgb(&[p.0, p.1, p.2]);
    let lq = lab::Lab::from_rgb(&[q.0, q.1, q.2]);
    lp.squared_distance(&lq).to_bits()
}

/// Row `i` holds a smallest key, and every earlier row a strictly larger one.
pub open spec fn is_first_min(keys: Seq<u32>, i: int) -> bool {
    &&& 0 <= i < keys.len()
    &&& forall|j: int| 0 <= j < keys.len() ==> keys[i] <= keys[j]
    &&& forall|j: int| 0 <= j < i ==> keys[j] > keys[i]
}

/// The earliest position of a smallest key.
pub open spec fn first_min(keys: Seq<u32>) -> int {
    choose|i: int| is_first_min(keys, i)
}

/// The colour row `i` renders at (x, y).
pub open spec fn perceptual_color(i: int, x: u32, y: u32) -> Rgb {
    perceptual_entry(i).pattern.spec_pick(x, y).spec_rgb()
}

/// The earliest smallest key is unique, so `first_min` names it.
pub proof fn lemma_first_min(keys: Seq<u32>, i: int)
    requires
        is_first_min(keys, i),
    ensures
        first_min(keys) == i,
{
    let k = first_min(keys);
    assert(is_first_min(keys, k));
    if k < i {
        assert(keys[k] > keys[i]);
    } else if i < k {
        assert(keys[i] > keys[k]);
    }
}

/// Position of the smallest key; on a tie the earliest such position.
pub fn nearest_index(keys: &Vec<u32>) -> (r: usize)
    requires
        keys.len() > 0,
    ensures
        is_first_min(keys@, r as int),
{
    let mut best: usize = 0;
    for i in 1..keys.len()
        invariant
            best < i <= keys.len(),
            forall|j: int| 0 <= j < i ==> keys@[best as int] <= keys@[j],
            forall|j: int| 0 <= j < best ==> keys@[j] > keys@[best as int],
    {
        if keys[i] < keys[best] {
            best = i;
        }
    }
    best
}

/// Classifies by precomputed distance keys, one per table row in table order:
/// the earliest row with the smallest key renders the pixel at (x, y).
pub fn classify_by_distances(x: u32, y: u32, keys: &Vec<u32>) -> (r: Rgb)
    requires
        keys.len() == PERCEPTUAL_TABLE_LEN,
    ensures
        r == perceptual_color(first_min(keys@), x, y),
{
    let i = nearest_index(keys);
    proof {
        lemma_first_min(keys@, i as int);
    }
    let e = perceptual_entry_at(i);
    e.pattern.pick(x, y).rgb()
}

/// Classifies a pixel by the reference colour nearest to it in L*a*b* space,
/// the earliest row winning a tie, rendered by that row's pattern at (x, y).
/// The distances come from the lab crate, so the contract holds for whatever
/// keys it returned; `classify_by_distances` fixes the result for given keys.
pub fn generic_map_color(x: u32, y: u32, pixel: Rgb) -> (r: Rgb)
    ensures
        exists|keys: Seq<u32>|
            keys.len() == PERCEPTUAL_TABLE_LEN && r == perceptual_color(first_min(keys), x, y),
{
    let mut keys: Vec<u32> = Vec::new();
    for i in 0..PERCEPTUAL_TABLE_LEN
        invariant
            keys@.len() == i,
    {
        let e = perceptual_entry_at(i);
        keys.push(lab_distance_key(pixel, e.key));
    }
    let r = classify_by_distances(x, y, &keys);
    assert(keys@.len() == PERCEPTUAL_TABLE_LEN && r == perceptual_color(first_min(keys@), x, y));
    r
}

} // verus!
