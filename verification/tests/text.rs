use cars_api::text::{blank_between, chars_of, same_between, white_space};

#[test]
fn white_space_agrees_with_the_standard_library_on_every_character() {
    for code in 0..=0x10FFFFu32 {
        if let Some(c) = char::from_u32(code) {
            assert_eq!(white_space(c), c.is_whitespace(), "U+{:04X}", code);
        }
    }
}

#[test]
fn white_space_examples() {
    assert!(white_space(' '));
    assert!(white_space('\t'));
    assert!(white_space('\n'));
    assert!(white_space('\u{A0}'));
    assert!(white_space('\u{3000}'));
    assert!(!white_space('1'));
    assert!(!white_space('a'));
    assert!(!white_space('\u{200B}'));
    assert!(!white_space('\u{0}'));
}

#[test]
fn blank_agrees_with_trimming_to_nothing() {
    let samples = [
        "",
        " ",
        "   ",
        "\t\r\n",
        "\u{2003}\u{A0}",
        "1",
        " 1",
        "1 ",
        " a b ",
        "%20",
        "\u{200B}",
        " \u{0} ",
    ];
    for sample in samples {
        let chars = chars_of(sample);
        let blank = blank_between(&chars, 0, chars.len());
        assert_eq!(blank, sample.trim().is_empty(), "{:?}", sample);
    }
}

#[test]
fn blank_between_reads_only_its_range() {
    let chars = chars_of("ab  cd");
    assert!(blank_between(&chars, 2, 4));
    assert!(blank_between(&chars, 3, 3));
    assert!(!blank_between(&chars, 1, 4));
    assert!(!blank_between(&chars, 2, 5));
    assert!(!blank_between(&chars, 0, 6));
}

#[test]
fn chars_of_gives_characters_not_bytes() {
    assert_eq!(chars_of(""), Vec::<char>::new());
    assert_eq!(chars_of("/cars"), vec!['/', 'c', 'a', 'r', 's']);
    assert_eq!(chars_of("é越"), vec!['é', '越']);
}

#[test]
fn same_between_compares_the_range_with_the_whole_of_the_other() {
    let chars = chars_of("/cars/1");
    assert!(same_between(&chars, 1, 5, &chars_of("cars")));
    assert!(same_between(&chars, 6, 7, &chars_of("1")));
    assert!(same_between(&chars, 3, 3, &chars_of("")));
    assert!(!same_between(&chars, 1, 4, &chars_of("cars")));
    assert!(!same_between(&chars, 1, 6, &chars_of("cars")));
    assert!(!same_between(&chars, 0, 4, &chars_of("cars")));
    assert!(!same_between(&chars, 1, 5, &chars_of("Cars")));
    assert!(!same_between(&chars, 1, 5, &chars_of("")));
}
