use sql_query_builder::sanitize::{sanitize_from, sql_injection_prevention};
use sql_query_builder::text::{
    chars_of, count_leading_whitespace, count_trailing_whitespace, string_of,
};

#[test]
fn plain_text_stays_as_it_is() {
    assert_eq!(sql_injection_prevention("users"), "users");
    assert_eq!(sql_injection_prevention(""), "");
    assert_eq!(sql_injection_prevention("*"), "*");
    assert_eq!(sql_injection_prevention("user name"), "user name");
    assert_eq!(sql_injection_prevention("größe"), "größe");
}

#[test]
fn special_characters_are_escaped() {
    assert_eq!(sql_injection_prevention("a\\b"), "a\\\\b");
    assert_eq!(sql_injection_prevention("O'Brien"), "O\\'Brien");
    assert_eq!(sql_injection_prevention("say \"hi\""), "say \\\"hi\\\"");
    assert_eq!(sql_injection_prevention("a\nb"), "a\\nb");
    assert_eq!(sql_injection_prevention("a\rb"), "a\\rb");
    assert_eq!(sql_injection_prevention("a\tb"), "a\\tb");
    assert_eq!(sql_injection_prevention("'; DROP TABLE users; '"), "\\'; DROP TABLE users; \\'");
}

#[test]
fn a_line_comment_at_the_start_is_cut() {
    assert_eq!(sql_injection_prevention("-- drop everything"), "");
    assert_eq!(sql_injection_prevention("--"), "");
    assert_eq!(sql_injection_prevention("  --x"), "  ");
    assert_eq!(sql_injection_prevention("\t--x"), "\\t");
    assert_eq!(sql_injection_prevention("\u{a0}--x"), "\u{a0}");
}

#[test]
fn a_block_comment_at_the_start_is_cut() {
    assert_eq!(sql_injection_prevention("/* note */ users"), "");
    assert_eq!(sql_injection_prevention("/*"), "");
    assert_eq!(sql_injection_prevention(" \n/* note */ users"), " \\n");
}

#[test]
fn dashes_and_slashes_elsewhere_stay() {
    assert_eq!(sql_injection_prevention("a-b"), "a-b");
    assert_eq!(sql_injection_prevention("a--b"), "a--b");
    assert_eq!(sql_injection_prevention("users -- all"), "users -- all");
    assert_eq!(sql_injection_prevention("a/*b*/c"), "a/*b*/c");
    assert_eq!(sql_injection_prevention("-x"), "-x");
    assert_eq!(sql_injection_prevention("- -"), "- -");
    assert_eq!(sql_injection_prevention("/x*"), "/x*");
    assert_eq!(sql_injection_prevention("-/*"), "-/*");
    assert_eq!(sql_injection_prevention("/--"), "/--");
    assert_eq!(sql_injection_prevention("1/2"), "1/2");
}

#[test]
fn sanitizing_from_a_position_looks_for_the_comment_there() {
    let chars: Vec<char> = "ab--c".chars().collect();
    assert_eq!(string_of(&sanitize_from(&chars, 0)), "ab--c");
    assert_eq!(string_of(&sanitize_from(&chars, 2)), "ab");
    assert_eq!(string_of(&sanitize_from(&chars, 5)), "ab--c");

    let chars: Vec<char> = "-'/*'".chars().collect();
    assert_eq!(string_of(&sanitize_from(&chars, 2)), "-\\'");
    assert_eq!(string_of(&sanitize_from(&chars, 0)), "-\\'/*\\'");
}

#[test]
fn characters_and_strings_convert_both_ways() {
    assert_eq!(chars_of("añ'"), vec!['a', 'ñ', '\'']);
    assert_eq!(chars_of(""), Vec::<char>::new());
    assert_eq!(string_of(&vec!['a', 'ñ', '\'']), "añ'");
    assert_eq!(string_of(&Vec::new()), "");
}

#[test]
fn white_space_is_counted_at_both_ends() {
    let chars = chars_of(" \t a b \n");
    assert_eq!(count_leading_whitespace(&chars), 3);
    assert_eq!(count_trailing_whitespace(&chars, 3), 2);
    assert_eq!(count_trailing_whitespace(&chars, 0), 2);

    let blank = chars_of(" \u{a0}\u{2003}");
    assert_eq!(count_leading_whitespace(&blank), 3);
    assert_eq!(count_trailing_whitespace(&blank, 3), 0);
    assert_eq!(count_trailing_whitespace(&blank, 1), 2);

    let none = chars_of("ab");
    assert_eq!(count_leading_whitespace(&none), 0);
    assert_eq!(count_trailing_whitespace(&none, 0), 0);
}
