use led_matrix::{ascii_frame, char_frame, frame_5x5, Frame, FontError};

fn rows(f: &Frame) -> Vec<Vec<u8>> {
    f.grid.clone()
}

#[test]
fn frame_5x5_extracts_bits() {
    let f = frame_5x5(&[0b10000, 0b01000, 0b00100, 0b00010, 0b00001]);
    assert_eq!(
        rows(&f),
        vec![
            vec![1, 0, 0, 0, 0],
            vec![0, 1, 0, 0, 0],
            vec![0, 0, 1, 0, 0],
            vec![0, 0, 0, 1, 0],
            vec![0, 0, 0, 0, 1],
        ]
    );
}

#[test]
fn frame_5x5_ignores_high_bits() {
    let f = frame_5x5(&[0b11111111, 0, 0, 0, 0]);
    assert_eq!(rows(&f)[0], vec![1, 1, 1, 1, 1]);
}

#[test]
fn char_frame_of_known_character_matches_table() {
    let expected = frame_5x5(&[0b01110, 0b10001, 0b11111, 0b10001, 0b10001]);
    assert_eq!(char_frame('A').try_5x5(5, 5).unwrap(), expected);
    // Lowercase letters share the uppercase shapes.
    let expected = frame_5x5(&[0b01110, 0b10001, 0b11111, 0b10001, 0b10001]);
    assert_eq!(char_frame('a').try_5x5(5, 5).unwrap(), expected);
}

#[test]
fn ascii_frame_matches_char_frame() {
    assert_eq!(
        ascii_frame(b'Z').try_5x5(5, 5).unwrap(),
        char_frame('Z').try_5x5(5, 5).unwrap()
    );
}

#[test]
fn unknown_characters_render_blank() {
    let blank = Frame::blank(5, 5);
    // The space itself sits just outside the served window and is blank.
    assert_eq!(char_frame(' ').try_5x5(5, 5).unwrap(), blank);
    assert_eq!(char_frame('\u{7f}').try_5x5(5, 5).unwrap(), blank);
    assert_eq!(char_frame('\n').try_5x5(5, 5).unwrap(), blank);
    assert_eq!(char_frame('é').try_5x5(5, 5).unwrap(), blank);
    // A byte with the high bit set falls outside the printable window.
    assert_eq!(ascii_frame(200).try_5x5(5, 5).unwrap(), blank);
}

#[test]
fn try_5x5_rejects_other_dimensions() {
    assert!(matches!(
        char_frame('A').try_5x5(4, 4),
        Err(FontError::BadDimension)
    ));
    assert!(matches!(
        char_frame('A').try_5x5(5, 6),
        Err(FontError::BadDimension)
    ));
    assert!(char_frame('A').try_5x5(5, 5).is_ok());
}
