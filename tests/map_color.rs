use image::ImageEncoder;
use indianavi_map_color::dither::{checker, Pattern};
use indianavi_map_color::encoder::{convert_image, encode_raster, pack_codes, DecodeError};
use indianavi_map_color::exact::{exact_entry_at, find_exact, outdoor_map_color, EXACT_TABLE_LEN};
use indianavi_map_color::palette::{color_to_raw, PaletteColor, Rgb};
use indianavi_map_color::perceptual::{classify_by_distances, generic_map_color, nearest_index};

const WHITE: Rgb = Rgb(255, 255, 255);
const BLACK: Rgb = Rgb(0, 0, 0);
const RED: Rgb = Rgb(255, 0, 0);
const YELLOW: Rgb = Rgb(255, 255, 50);
const GREEN: Rgb = Rgb(0, 255, 0);

fn png(width: u32, height: u32, rgb: &[u8]) -> Vec<u8> {
    let mut buf = Vec::new();
    image::codecs::png::PngEncoder::new(&mut buf)
        .write_image(rgb, width, height, image::ColorType::Rgb8)
        .expect("png encodes");
    buf
}

#[test]
fn black_is_black() {
    let result = outdoor_map_color(0, 0, Rgb(0, 0, 0));
    assert_eq!(result, Rgb(0, 0, 0));
}

#[test]
fn palette_codes() {
    assert_eq!(color_to_raw(BLACK), 0);
    assert_eq!(color_to_raw(WHITE), 1);
    assert_eq!(color_to_raw(GREEN), 2);
    assert_eq!(color_to_raw(Rgb(0, 0, 255)), 3);
    assert_eq!(color_to_raw(RED), 4);
    assert_eq!(color_to_raw(YELLOW), 5);
    assert_eq!(color_to_raw(Rgb(255, 127, 0)), 6);
    assert_eq!(color_to_raw(Rgb(255, 255, 0)), 7);
    assert_eq!(color_to_raw(Rgb(1, 2, 3)), 7);
    assert_eq!(PaletteColor::Orange.code(), 6);
    assert_eq!(PaletteColor::Yellow.rgb(), YELLOW);
}

#[test]
fn checker_alternates() {
    let (a, b) = (PaletteColor::Green, PaletteColor::White);
    assert_eq!(checker(0, 0, a, b), a);
    assert_eq!(checker(1, 0, a, b), b);
    assert_eq!(checker(0, 1, a, b), b);
    assert_eq!(checker(1, 1, a, b), a);
    assert_eq!(checker(7, 3, a, b), a);
    assert_eq!(checker(4, 9, a, b), b);
    assert_eq!(Pattern::Checker(a, b).pick(2, 5), b);
}

#[test]
fn solid_ignores_position() {
    let p = Pattern::Solid(PaletteColor::Blue);
    for (x, y) in [(0, 0), (1, 0), (0, 1), (1, 1), (u32::MAX, 12)] {
        assert_eq!(p.pick(x, y), PaletteColor::Blue);
    }
}

#[test]
fn perceptual_pure_colors() {
    assert_eq!(generic_map_color(0, 0, WHITE), WHITE);
    assert_eq!(generic_map_color(3, 7, WHITE), WHITE);
    assert_eq!(generic_map_color(0, 0, BLACK), BLACK);
    assert_eq!(generic_map_color(0, 0, GREEN), GREEN);
    assert_eq!(generic_map_color(0, 0, Rgb(255, 255, 0)), YELLOW);
    assert_eq!(generic_map_color(0, 0, RED), RED);
}

#[test]
fn perceptual_grey_is_dithered() {
    assert_eq!(generic_map_color(0, 0, Rgb(127, 127, 127)), BLACK);
    assert_eq!(generic_map_color(1, 0, Rgb(127, 127, 127)), WHITE);
}

#[test]
fn perceptual_tie_picks_earliest_row() {
    let mut keys = vec![100u32; 14];
    keys[1] = 7;
    keys[0] = 7;
    assert_eq!(nearest_index(&keys), 0);
    assert_eq!(classify_by_distances(0, 0, &keys), WHITE);
    keys[0] = 8;
    assert_eq!(nearest_index(&keys), 1);
    assert_eq!(classify_by_distances(0, 0, &keys), BLACK);
    let flat = vec![3u32; 14];
    assert_eq!(nearest_index(&flat), 0);
    let mut late = vec![9u32; 14];
    late[13] = 0;
    late[12] = 0;
    assert_eq!(nearest_index(&late), 12);
    assert_eq!(classify_by_distances(0, 0, &late), RED);
    assert_eq!(classify_by_distances(1, 0, &late), WHITE);
}

#[test]
fn near_neutral_is_white() {
    assert_eq!(outdoor_map_color(0, 0, Rgb(100, 100, 105)), WHITE);
    assert_eq!(outdoor_map_color(5, 2, Rgb(0xd3, 0xd3, 0xce)), WHITE);
}

#[test]
fn dark_neutral_is_looked_up() {
    assert_eq!(outdoor_map_color(0, 0, Rgb(0x44, 0x44, 0x44)), BLACK);
    assert_eq!(outdoor_map_color(0, 0, Rgb(10, 10, 12)), RED);
}

#[test]
fn unknown_color_is_red() {
    assert_eq!(outdoor_map_color(0, 0, Rgb(1, 200, 90)), RED);
    assert_eq!(find_exact(Rgb(1, 200, 90)), None);
}

#[test]
fn exact_checker_entry() {
    assert_eq!(outdoor_map_color(0, 0, Rgb(0xec, 0xf3, 0xc4)), YELLOW);
    assert_eq!(outdoor_map_color(1, 0, Rgb(0xec, 0xf3, 0xc4)), WHITE);
    assert_eq!(outdoor_map_color(1, 1, Rgb(0xa9, 0x74, 0xc6)), Rgb(0, 0, 255));
    assert_eq!(outdoor_map_color(0, 1, Rgb(0xa9, 0x74, 0xc6)), RED);
}

#[test]
fn exact_duplicate_first_wins() {
    assert_eq!(find_exact(Rgb(0xef, 0xf2, 0xd2)), Some(29));
    assert_eq!(outdoor_map_color(0, 0, Rgb(0xef, 0xf2, 0xd2)), YELLOW);
    assert_eq!(find_exact(BLACK), Some(1));
}

#[test]
fn exact_entries_classify_as_their_pattern() {
    let mut checked = 0;
    for i in 0..EXACT_TABLE_LEN {
        let e = exact_entry_at(i);
        let Rgb(r, g, b) = e.key;
        let max = r.max(g).max(b);
        let min = r.min(g).min(b);
        let expected = e.pattern.pick(0, 0).rgb();
        let shadowed = (0..i).any(|j| {
            let f = exact_entry_at(j);
            f.key == e.key && f.pattern.pick(0, 0) != e.pattern.pick(0, 0)
        });
        if max - min < 21 && max > 80 {
            assert_eq!(outdoor_map_color(0, 0, e.key), WHITE);
        } else if !shadowed {
            assert_eq!(outdoor_map_color(0, 0, e.key), expected);
            checked += 1;
        }
    }
    assert!(checked > 60);
}

#[test]
fn pack_two_codes() {
    assert_eq!(pack_codes(&vec![2, 5]), vec![0x25]);
    assert_eq!(pack_codes(&vec![2]), Vec::<u8>::new());
    assert_eq!(pack_codes(&vec![]), Vec::<u8>::new());
    assert_eq!(pack_codes(&vec![1, 1, 7, 0, 3]), vec![0x11, 0x70]);
}

#[test]
fn encode_raster_packs_codes() {
    let rgb = vec![0, 255, 0, 255, 255, 0];
    assert_eq!(encode_raster(2, 1, &rgb), vec![0x25]);
    assert_eq!(encode_raster(1, 1, &vec![0, 255, 0]), Vec::<u8>::new());
    assert_eq!(encode_raster(0, 0, &vec![]), Vec::<u8>::new());
}

#[test]
fn convert_two_by_one() {
    let data = png(2, 1, &[0, 255, 0, 255, 255, 0]);
    assert_eq!(convert_image(&data), Ok(vec![0x25]));
}

#[test]
fn convert_odd_pixel_count_drops_last() {
    let data = png(1, 1, &[0, 255, 0]);
    assert_eq!(convert_image(&data), Ok(vec![]));
    let data = png(3, 1, &[255, 255, 255, 0, 0, 0, 255, 0, 0]);
    assert_eq!(convert_image(&data), Ok(vec![0x10]));
}

#[test]
fn convert_white_square() {
    let data = png(2, 2, &[255; 12]);
    assert_eq!(convert_image(&data), Ok(vec![0x11, 0x11]));
}

#[test]
fn convert_grey_uses_position() {
    let data = png(2, 2, &[127; 12]);
    assert_eq!(convert_image(&data), Ok(vec![0x01, 0x10]));
}

#[test]
fn convert_rejects_non_image() {
    assert_eq!(convert_image(b"definitely not an image"), Err(DecodeError));
    assert_eq!(convert_image(&[]), Err(DecodeError));
    let data = png(2, 2, &[255; 12]);
    assert_eq!(convert_image(&data[..data.len() / 2]), Err(DecodeError));
}
