use ray_tracer::fonts::{render_string, RasterizedCharacter};

#[test]
fn render_string_keeps_known_characters_in_order() {
    let mut alphabet: [Option<RasterizedCharacter>; 128] = [None; 128];
    let a_cell = RasterizedCharacter { bitmap: [1; 196] };
    let b_cell = RasterizedCharacter { bitmap: [2; 196] };
    alphabet[b'a' as usize] = Some(a_cell);
    alphabet[b'b' as usize] = Some(b_cell);

    let cells = render_string("aXba", &alphabet);

    assert_eq!(cells.len(), 3);
    assert_eq!(cells[0], a_cell);
    assert_eq!(cells[1], b_cell);
    assert_eq!(cells[2], a_cell);
}

#[test]
fn render_string_of_unknown_characters_is_empty() {
    let alphabet: [Option<RasterizedCharacter>; 128] = [None; 128];
    let cells = render_string("hello", &alphabet);
    assert!(cells.is_empty());
}

#[test]
fn place_glyph_centers_and_flips() {
    let bitmap = vec![1u8, 2, 3, 4];
    let cell = ray_tracer::fonts::place_glyph(2, 2, &bitmap).unwrap();
    // A 2x2 glyph is centered at column 6 and sits on the bottom two rows,
    // with the bitmap's bottom row on top.
    let mut expected = [0u8; 196];
    expected[6 + 12 * 14] = 1;
    expected[7 + 12 * 14] = 2;
    expected[6 + 13 * 14] = 3;
    expected[7 + 13 * 14] = 4;
    assert_eq!(cell.bitmap, expected);
}

#[test]
fn place_glyph_rejects_oversized() {
    let bitmap = vec![0u8; 15];
    assert!(ray_tracer::fonts::place_glyph(15, 1, &bitmap).is_none());
}
