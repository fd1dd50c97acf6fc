use indexed_color::Color;
use indexed_color::Palette;

fn rgba(c: &Color) -> (u8, u8, u8, u8) {
    (c.r, c.g, c.b, c.a)
}

fn three() -> Vec<Color> {
    vec![Color::new(1, 2, 3, 4), Color::new(5, 6, 7, 8), Color::new(9, 10, 11, 12)]
}

#[test]
fn len_is_the_number_of_colours_given() {
    assert_eq!(Palette::new(three()).len(), 3);
    assert_eq!(Palette::new(Vec::new()).len(), 0);
    assert_eq!(Palette::new(vec![Color::new(1, 1, 1, 1)]).len(), 1);
}

#[test]
fn get_color_inside_the_table_gives_the_entry() {
    let p = Palette::new(three());
    assert_eq!(rgba(p.get_color(0)), (1, 2, 3, 4));
    assert_eq!(rgba(p.get_color(1)), (5, 6, 7, 8));
    assert_eq!(rgba(p.get_color(2)), (9, 10, 11, 12));
}

#[test]
fn get_color_outside_the_table_gives_transparent_black() {
    let p = Palette::new(three());
    assert_eq!(rgba(p.get_color(3)), (0, 0, 0, 0));
    assert_eq!(rgba(p.get_color(4)), (0, 0, 0, 0));
    assert_eq!(rgba(p.get_color(256)), (0, 0, 0, 0));
    assert_eq!(rgba(p.get_color(usize::MAX)), (0, 0, 0, 0));
}

#[test]
fn empty_palette_answers_every_index_with_the_fallback() {
    let p = Palette::new(Vec::new());
    assert_eq!(p.len(), 0);
    assert_eq!(rgba(p.get_color(0)), (0, 0, 0, 0));
    assert_eq!(rgba(p.get_color(1)), (0, 0, 0, 0));
    assert_eq!(rgba(p.get_color(usize::MAX)), (0, 0, 0, 0));
}

#[test]
fn new_keeps_order_and_repeats() {
    let p = Palette::new(vec![
        Color::new(9, 9, 9, 9),
        Color::new(1, 1, 1, 1),
        Color::new(9, 9, 9, 9),
        Color::new(1, 1, 1, 1),
    ]);
    assert_eq!(p.len(), 4);
    assert_eq!(rgba(p.get_color(0)), (9, 9, 9, 9));
    assert_eq!(rgba(p.get_color(1)), (1, 1, 1, 1));
    assert_eq!(rgba(p.get_color(2)), (9, 9, 9, 9));
    assert_eq!(rgba(p.get_color(3)), (1, 1, 1, 1));
}

#[test]
fn default_has_256_entries() {
    assert_eq!(Palette::default().len(), 256);
}

#[test]
fn default_starts_with_the_base_colours() {
    let p = Palette::default();
    assert_eq!(rgba(p.get_color(0)), (0x00, 0x00, 0x00, 0x00));
    assert_eq!(rgba(p.get_color(1)), (0x00, 0x00, 0xAA, 0x00));
    assert_eq!(rgba(p.get_color(4)), (0xAA, 0x00, 0x00, 0x00));
    assert_eq!(rgba(p.get_color(6)), (0xAA, 0x55, 0x00, 0x00));
    assert_eq!(rgba(p.get_color(7)), (0xAA, 0xAA, 0xAA, 0x00));
    assert_eq!(rgba(p.get_color(15)), (0xFF, 0xFF, 0xFF, 0x00));
}

#[test]
fn default_holds_the_grey_ramp_and_the_hue_ramps() {
    let p = Palette::default();
    assert_eq!(rgba(p.get_color(16)), (0x00, 0x00, 0x00, 0x00));
    assert_eq!(rgba(p.get_color(17)), (0x10, 0x10, 0x10, 0x00));
    assert_eq!(rgba(p.get_color(31)), (0xFF, 0xFF, 0xFF, 0x00));
    assert_eq!(rgba(p.get_color(32)), (0x00, 0x00, 0xFF, 0x00));
    assert_eq!(rgba(p.get_color(55)), (0x00, 0x41, 0xFF, 0x00));
    assert_eq!(rgba(p.get_color(56)), (0x82, 0x82, 0xFF, 0x00));
    assert_eq!(rgba(p.get_color(103)), (0xBA, 0xCA, 0xFF, 0x00));
    assert_eq!(rgba(p.get_color(104)), (0x00, 0x00, 0x71, 0x00));
    assert_eq!(rgba(p.get_color(175)), (0x51, 0x59, 0x71, 0x00));
    assert_eq!(rgba(p.get_color(176)), (0x00, 0x00, 0x41, 0x00));
    assert_eq!(rgba(p.get_color(247)), (0x2D, 0x31, 0x41, 0x00));
}

#[test]
fn default_ends_with_eight_entries_of_zero() {
    let p = Palette::default();
    for i in 248..256usize {
        assert_eq!(rgba(p.get_color(i)), (0, 0, 0, 0));
    }
    assert_eq!(rgba(p.get_color(256)), (0, 0, 0, 0));
}

#[test]
fn default_has_alpha_zero_throughout_and_the_known_channel_sums() {
    let p = Palette::default();
    let mut red: u64 = 0;
    let mut green: u64 = 0;
    let mut blue: u64 = 0;
    let mut packed: u64 = 0;
    let mut weighted: u64 = 0;
    for i in 0..p.len() {
        let c = p.get_color(i);
        assert_eq!(c.a, 0);
        red += c.r as u64;
        green += c.g as u64;
        blue += c.b as u64;
        packed += c.to_hex() as u64;
        weighted += (i as u64 + 1) * (c.to_hex() as u64);
    }
    assert_eq!((red, green, blue), (26026, 25941, 26026));
    assert_eq!(packed, 1712306858);
    assert_eq!(weighted, 165847850857);
}

#[test]
fn clone_has_the_same_length_and_entries() {
    let p = Palette::new(three());
    let q = p.clone();
    assert_eq!(q.len(), p.len());
    for i in 0..5usize {
        assert_eq!(rgba(q.get_color(i)), rgba(p.get_color(i)));
    }
    let e = Palette::new(Vec::new()).clone();
    assert_eq!(e.len(), 0);
    assert_eq!(rgba(e.get_color(0)), (0, 0, 0, 0));
}

#[test]
fn colour_taken_from_a_clone_changes_apart_from_the_source() {
    let p = Palette::new(three());
    let q = p.clone();
    let mut c = q.get_color(1).clone();
    c.set(100, 101, 102, 103);
    assert_eq!(rgba(&c), (100, 101, 102, 103));
    assert_eq!(rgba(p.get_color(1)), (5, 6, 7, 8));
    assert_eq!(rgba(q.get_color(1)), (5, 6, 7, 8));
    drop(q);
    assert_eq!(rgba(p.get_color(1)), (5, 6, 7, 8));
    assert_eq!(p.len(), 3);
}

#[test]
fn default_survives_a_rebuild_and_a_clone() {
    let p = Palette::default();
    let mut colors: Vec<Color> = Vec::new();
    for i in 0..p.len() {
        colors.push(p.get_color(i).clone());
    }
    let q = Palette::new(colors).clone();
    assert_eq!(q.len(), 256);
    for i in 0..256usize {
        assert_eq!(rgba(q.get_color(i)), rgba(p.get_color(i)));
    }
    assert_eq!(rgba(q.get_color(4)), (0xAA, 0x00, 0x00, 0x00));
    assert_eq!(rgba(q.get_color(256)), (0, 0, 0, 0));
}
