use uefapi_runner::words::characters;
use uefapi_runner::words::is_whitespace;
use uefapi_runner::words::split_whitespace;

fn expected(text: &str) -> Vec<String> {
    text.split_whitespace().map(|word| word.to_string()).collect()
}

#[test]
fn splits_the_example_build_command() {
    assert_eq!(
        split_whitespace("build --target x86_64-unknown-uefi --release"),
        vec!["build", "--target", "x86_64-unknown-uefi", "--release"]
    );
}

#[test]
fn empty_and_blank_text_have_no_words() {
    assert_eq!(split_whitespace(""), Vec::<String>::new());
    assert_eq!(split_whitespace("   "), Vec::<String>::new());
    assert_eq!(split_whitespace("\t\n \r"), Vec::<String>::new());
}

#[test]
fn plain_text_is_one_word() {
    assert_eq!(split_whitespace("build"), vec!["build"]);
}

#[test]
fn leading_trailing_and_repeated_space_give_no_empty_word() {
    assert_eq!(split_whitespace("  a   b\t\tc \n"), vec!["a", "b", "c"]);
}

#[test]
fn every_word_is_non_empty_and_free_of_white_space() {
    for word in split_whitespace(" --features  \"a b\"\u{3000}x\u{a0}y ") {
        assert!(!word.is_empty());
        assert!(word.chars().all(|c| !c.is_whitespace()));
    }
}

#[test]
fn splitting_agrees_with_the_standard_library() {
    let samples = [
        "",
        " ",
        "a",
        " a",
        "a ",
        "a b",
        "build --release",
        "\u{2003}wide\u{2003}space\u{2003}",
        "tab\tseparated\tvalues",
        "line\nbreaks\r\nhere",
        "caf\u{e9} \u{1f600} emoji",
        "next\u{85}line",
        "zero\u{200b}width",
    ];
    for sample in samples {
        assert_eq!(split_whitespace(sample), expected(sample), "sample {:?}", sample);
    }
}

#[test]
fn white_space_is_the_unicode_property() {
    let mut code: u32 = 0;
    while code <= 0x3100 {
        if let Some(c) = char::from_u32(code) {
            assert_eq!(is_whitespace(c), c.is_whitespace(), "U+{:04X}", code);
        }
        code += 1;
    }
    assert!(!is_whitespace('\u{200b}'));
    assert!(!is_whitespace('\u{feff}'));
    assert!(!is_whitespace('\u{10ffff}'));
}

#[test]
fn characters_lists_every_character_in_order() {
    assert_eq!(characters("a\u{e9}\u{1f600} z"), vec!['a', '\u{e9}', '\u{1f600}', ' ', 'z']);
    assert_eq!(characters(""), Vec::<char>::new());
}
