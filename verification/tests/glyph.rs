use flappy::glyph::glyph_of;

#[test]
fn glyphs_are_code_page_437_indices() {
    assert_eq!(glyph_of('@'), 64);
    assert_eq!(glyph_of('|'), 124);
    assert_eq!(glyph_of('A'), 65);
}

#[test]
fn a_glyph_is_not_the_code_point_of_its_character() {
    assert_eq!(glyph_of('\u{263A}'), 1);
    assert_eq!(glyph_of('\u{2665}'), 3);
    assert_eq!(glyph_of('\u{2588}'), 219);
}

#[test]
fn a_character_outside_the_code_page_has_glyph_zero() {
    assert_eq!(glyph_of('\u{4E2D}'), 0);
}
