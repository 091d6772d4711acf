use rgbnode::colour::{palette_colour, Colour, COLOUR_CYCLE_MAX, PALETTE_LEN};

#[test]
fn new_sets_the_three_channels() {
    let c = Colour::new(1, 2, 3);
    assert_eq!(c.r, 1);
    assert_eq!(c.g, 2);
    assert_eq!(c.b, 3);
    assert_eq!(c, Colour { r: 1, g: 2, b: 3 });
}

#[test]
fn scale_multiplies_and_rounds_down() {
    assert_eq!(Colour::new(10, 20, 30).scale(128), Colour::new(5, 10, 15));
    assert_eq!(Colour::new(200, 100, 50).scale(127), Colour::new(99, 49, 24));
    assert_eq!(Colour::new(255, 255, 255).scale(254), Colour::new(254, 254, 254));
    assert_eq!(Colour::new(1, 254, 255).scale(254), Colour::new(0, 253, 254));
}

#[test]
fn scale_by_full_intensity_is_identity() {
    for v in 0..=255u8 {
        let c = Colour::new(v, 255 - v, v / 2);
        assert_eq!(c.scale(255), c);
    }
}

#[test]
fn scale_by_zero_is_black() {
    for v in 0..=255u8 {
        assert_eq!(Colour::new(v, 255 - v, 7).scale(0), Colour::new(0, 0, 0));
    }
}

#[test]
fn scale_matches_the_formula_everywhere() {
    for v in 0..=255u32 {
        for f in 0..=255u32 {
            let c = Colour::new(v as u8, 0, 255).scale(f as u8);
            assert_eq!(c.r as u32, v * f / 255);
            assert_eq!(c.g, 0);
            assert_eq!(c.b as u32, 255 * f / 255);
        }
    }
}

#[test]
fn palette_has_thirty_entries_in_order() {
    assert_eq!(PALETTE_LEN, 30);
    assert_eq!(COLOUR_CYCLE_MAX, 24);
    assert_eq!(palette_colour(0), Colour::new(255, 0, 0));
    assert_eq!(palette_colour(1), Colour::new(255, 32, 0));
    assert_eq!(palette_colour(8), Colour::new(0, 255, 0));
    assert_eq!(palette_colour(16), Colour::new(0, 0, 255));
    assert_eq!(palette_colour(23), Colour::new(255, 0, 32));
    assert_eq!(palette_colour(24), Colour::new(255, 255, 255));
    assert_eq!(palette_colour(27), Colour::new(255, 192, 0));
    assert_eq!(palette_colour(29), Colour::new(0, 80, 255));
}

#[test]
fn palette_cursor_is_taken_modulo_the_length() {
    assert_eq!(palette_colour(30), palette_colour(0));
    assert_eq!(palette_colour(59), palette_colour(29));
    assert_eq!(palette_colour(1000), palette_colour(1000 % 30));
    assert_eq!(palette_colour(usize::MAX), palette_colour(usize::MAX % 30));
}
