use murale::text::{characters, find, is_white_space, join, part, trim_bounds};

#[test]
fn white_space_is_that_of_unicode() {
    for code in 0..=0x10ffffu32 {
        if let Some(c) = char::from_u32(code) {
            assert_eq!(is_white_space(c), c.is_whitespace(), "{code:x}");
        }
    }
}

#[test]
fn trimming_agrees_with_strings() {
    for text in ["", " ", "a", "  a b ", "\tb\n", "\u{a0}c\u{2003}\u{3000}", "d ", " \u{85}e", "\u{200b}f"] {
        let chars = characters(text);
        let (low, high) = trim_bounds(&chars, 0, chars.len());
        let trimmed: String = chars[low..high].iter().collect();
        assert_eq!(trimmed, text.trim());
    }
}

#[test]
fn windows_are_respected() {
    let chars = characters("x= y =z");
    assert_eq!(find(&chars, 0, 7, '='), 1);
    assert_eq!(find(&chars, 2, 7, '='), 5);
    assert_eq!(find(&chars, 2, 5, '='), 5);
    assert_eq!(find(&chars, 7, 7, '='), 7);
    assert_eq!(trim_bounds(&chars, 2, 5), (3, 4));
    assert_eq!(trim_bounds(&chars, 2, 3), (3, 3));
}

#[test]
fn parts_count_characters() {
    assert_eq!(part("größe", 2, 4), "öß");
    assert_eq!(part("größe", 5, 5), "");
    assert_eq!(characters("öß"), vec!['ö', 'ß']);
    assert_eq!(join("grö", "ße"), "größe");
}
