use deet::rwc::is_whitespace;
use deet::rwc::num_of_characters;
use deet::rwc::num_of_words;

fn lines(texts: &[&str]) -> Vec<String> {
    texts.iter().map(|text| text.to_string()).collect()
}

fn words_by_std(lines: &Vec<String>) -> usize {
    lines.iter().map(|line| line.trim().split(' ').count()).sum()
}

fn characters_by_std(lines: &Vec<String>) -> usize {
    lines.iter().map(|line| line.trim().chars().count()).sum()
}

#[test]
fn is_whitespace_agrees_with_std_on_every_character() {
    for code in 0..=0x10ffffu32 {
        if let Some(c) = char::from_u32(code) {
            assert_eq!(is_whitespace(c), c.is_whitespace(), "U+{:04X}", code);
        }
    }
}

#[test]
fn no_lines_have_no_words_and_no_characters() {
    assert_eq!(num_of_words(&vec![]), 0);
    assert_eq!(num_of_characters(&vec![]), 0);
}

#[test]
fn words_are_cut_by_single_blanks() {
    assert_eq!(num_of_words(&lines(&["hello world"])), 2);
    assert_eq!(num_of_words(&lines(&["one"])), 1);
    assert_eq!(num_of_words(&lines(&["a b c d e"])), 5);
    assert_eq!(num_of_words(&lines(&["hello world", "this is rust"])), 5);
}

#[test]
fn white_space_around_a_line_is_not_counted() {
    assert_eq!(num_of_words(&lines(&["  hello world  "])), 2);
    assert_eq!(num_of_words(&lines(&["\thello world\r\n"])), 2);
    assert_eq!(num_of_characters(&lines(&["  hello world  "])), 11);
    assert_eq!(num_of_characters(&lines(&["\thello\r\n"])), 5);
    assert_eq!(num_of_characters(&lines(&["\u{3000}x\u{a0}"])), 1);
}

#[test]
fn an_empty_line_has_one_empty_word() {
    assert_eq!(num_of_words(&lines(&[""])), 1);
    assert_eq!(num_of_words(&lines(&["   "])), 1);
    assert_eq!(num_of_words(&lines(&["", "", ""])), 3);
    assert_eq!(num_of_characters(&lines(&["", "   ", "\t"])), 0);
}

#[test]
fn two_blanks_in_a_row_have_an_empty_word_between_them() {
    assert_eq!(num_of_words(&lines(&["a  b"])), 3);
    assert_eq!(num_of_words(&lines(&["a   b"])), 4);
    assert_eq!(num_of_characters(&lines(&["a  b"])), 4);
}

#[test]
fn only_the_blank_cuts_words() {
    assert_eq!(num_of_words(&lines(&["a\tb"])), 1);
    assert_eq!(num_of_words(&lines(&["a\u{a0}b"])), 1);
    assert_eq!(num_of_words(&lines(&["a\t b"])), 2);
}

#[test]
fn characters_are_counted_not_bytes() {
    assert_eq!(num_of_characters(&lines(&["héllo"])), 5);
    assert_eq!(num_of_characters(&lines(&["日本語"])), 3);
    assert_eq!(num_of_characters(&lines(&["a😀b"])), 3);
    assert_eq!(num_of_characters(&lines(&["abc", "de", "f"])), 6);
}

#[test]
fn counts_agree_with_std() {
    let samples = vec![
        lines(&[]),
        lines(&[""]),
        lines(&[" "]),
        lines(&["a"]),
        lines(&[" a "]),
        lines(&["a b", " c  d ", "", "\t e\tf \r\n", "  "]),
        lines(&["\u{2003}wide\u{2009}thin \u{205f}", "\u{85}next line\u{85}"]),
        lines(&["x \u{1680} y", "\u{2028}\u{2029}", "\u{feff}bom is no white space "]),
        lines(&["trailing blank ", " leading blank", "both  ", "   "]),
    ];
    for sample in samples {
        assert_eq!(num_of_words(&sample), words_by_std(&sample), "{:?}", sample);
        assert_eq!(num_of_characters(&sample), characters_by_std(&sample), "{:?}", sample);
    }
}
