use mensa_api::markup::name_of_pieces;
use mensa_api::number::digits_of;
use mensa_api::text::{
    chars_of, collapse_whitespace_chars, contains, is_whitespace, join, replace_chars, same_text,
    split_chars, string_of, trim_chars,
};

fn owned(pieces: &[&str]) -> Vec<String> {
    pieces.iter().map(|piece| piece.to_string()).collect()
}

#[test]
fn substring() {
    assert!(contains("1,3,13", "13"));
    assert!(contains("1,3,13", ""));
    assert!(!contains("1,3,13", "31"));
    assert!(!contains("ab", "abc"));
}

#[test]
fn replace_from_left_to_right() {
    let replaced = replace_chars(&chars_of("a<br>b<br><br>c<b"), &chars_of("<br>"), &chars_of(" "));
    assert_eq!(string_of(&replaced), "a b  c<b");
    let replaced = replace_chars(&chars_of("aaa"), &chars_of("aa"), &chars_of("b"));
    assert_eq!(string_of(&replaced), "ba");
    let unchanged = replace_chars(&chars_of("abc"), &chars_of(""), &chars_of("x"));
    assert_eq!(string_of(&unchanged), "abc");
}

#[test]
fn split_keeps_empty_pieces() {
    let pieces: Vec<String> = split_chars(&chars_of("/a//b/"), '/').iter().map(string_of).collect();
    assert_eq!(pieces, owned(&["", "a", "", "b", ""]));
    let pieces: Vec<String> = split_chars(&chars_of(""), '/').iter().map(string_of).collect();
    assert_eq!(pieces, owned(&[""]));
}

#[test]
fn trim_and_collapse() {
    assert_eq!(string_of(&trim_chars(&chars_of(" \t 3,50 \u{a0}\n"))), "3,50");
    assert_eq!(string_of(&trim_chars(&chars_of("   "))), "");
    assert_eq!(
        string_of(&collapse_whitespace_chars(&chars_of("  Pasta \n mit\t\tSauce  "))),
        "Pasta mit Sauce"
    );
    assert_eq!(string_of(&collapse_whitespace_chars(&chars_of(" \n "))), "");
}

#[test]
fn join_puts_the_separator_between() {
    assert_eq!(join(&owned(&["3,50", "4,20", "5,00"]), "/"), "3,50/4,20/5,00");
    assert_eq!(join(&owned(&["x"]), "/"), "x");
    assert_eq!(join(&owned(&[]), "/"), "");
}

#[test]
fn name_pieces_are_filtered() {
    let pieces = owned(&["Burger ", "(1,3)", " mit Pommes ", "(BIO)", "", "class=x", "  "]);
    assert_eq!(name_of_pieces(&pieces), "Burger mit Pommes (BIO)");
}

#[test]
fn digits_of_numbers() {
    assert_eq!(string_of(&digits_of(0)), "0");
    assert_eq!(string_of(&digits_of(16)), "16");
    assert_eq!(string_of(&digits_of(u64::MAX)), "18446744073709551615");
}

#[test]
fn white_space_is_what_the_standard_library_calls_so() {
    for code in 0..=0x10FFFFu32 {
        if let Some(c) = char::from_u32(code) {
            assert_eq!(is_whitespace(c), c.is_whitespace(), "U+{code:04X}");
        }
    }
}

#[test]
fn text_functions_agree_with_the_standard_library() {
    let samples = [
        "",
        " ",
        "a",
        "  a  b  ",
        "3,50 € / 4,20 € / 5,00 €",
        "a<br>b<br",
        "<br><br>",
        "\u{2003}x\u{a0}y\u{3000}",
        "//a//",
        "äö/ü€",
    ];
    for sample in samples {
        let chars = chars_of(sample);
        assert_eq!(string_of(&chars), sample);
        assert_eq!(string_of(&trim_chars(&chars)), sample.trim());
        assert_eq!(
            string_of(&collapse_whitespace_chars(&chars)),
            sample.split_whitespace().collect::<Vec<_>>().join(" ")
        );
        let pieces: Vec<String> = split_chars(&chars, '/').iter().map(string_of).collect();
        assert_eq!(pieces, sample.split('/').collect::<Vec<_>>());
        assert_eq!(
            string_of(&replace_chars(&chars, &chars_of("<br>"), &chars_of(" "))),
            sample.replace("<br>", " ")
        );
        for needle in ["", "a", "<br", " / ", "€", "  "] {
            assert_eq!(contains(sample, needle), sample.contains(needle));
            assert_eq!(same_text(sample, needle), sample == needle);
        }
    }
}
