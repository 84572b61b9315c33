use tmlr::color::{create_random_color, format_color};

fn is_color_code(s: &str) -> bool {
    let b = s.as_bytes();
    b.len() == 7
        && b[0] == b'#'
        && b[1..]
            .iter()
            .all(|c| c.is_ascii_digit() || (b'a'..=b'f').contains(c))
}

#[test]
fn formats_each_channel_as_two_lower_case_digits() {
    assert_eq!(format_color(0xa1, 0xb2, 0xc3), "#a1b2c3");
    assert_eq!(format_color(0, 0, 0), "#000000");
    assert_eq!(format_color(255, 255, 255), "#ffffff");
    assert_eq!(format_color(1, 16, 171), "#0110ab");
}

#[test]
fn pairs_read_back_as_the_channels() {
    for (r, g, b) in [(0u8, 127u8, 255u8), (9, 10, 15), (200, 3, 64)] {
        let s = format_color(r, g, b);
        assert!(is_color_code(&s));
        let back = |i: usize| u8::from_str_radix(&s[i..i + 2], 16).unwrap();
        assert_eq!((back(1), back(3), back(5)), (r, g, b));
    }
}

#[test]
fn random_colors_are_color_codes() {
    for _ in 0..200 {
        let c = create_random_color();
        assert!(is_color_code(&c), "{}", c);
    }
}
