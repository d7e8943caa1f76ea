use rust_basics::words::{split_whitespace, tally, white_space, word_count};

fn count_of(entries: &[(String, usize)], w: &str) -> Option<usize> {
    entries.iter().find(|e| e.0 == w).map(|e| e.1)
}

#[test]
fn world_appears_twice() {
    let counts = word_count("hello world wonderful world");
    assert_eq!(
        counts,
        vec![
            (String::from("hello"), 1),
            (String::from("world"), 2),
            (String::from("wonderful"), 1),
        ]
    );
    assert_eq!(count_of(&counts, "world"), Some(2));
}

#[test]
fn empty_and_blank_text_have_no_words() {
    assert!(word_count("").is_empty());
    assert!(word_count(" \t\n  ").is_empty());
    assert!(split_whitespace("").is_empty());
}

#[test]
fn split_drops_runs_of_white_space() {
    assert_eq!(
        split_whitespace("  a\tbb \n ccc  "),
        vec![String::from("a"), String::from("bb"), String::from("ccc")]
    );
}

#[test]
fn split_uses_unicode_white_space() {
    assert_eq!(
        split_whitespace("x\u{a0}y\u{3000}z\u{2028}w"),
        vec![String::from("x"), String::from("y"), String::from("z"), String::from("w")]
    );
    assert_eq!(split_whitespace("héllo wörld"), vec![String::from("héllo"), String::from("wörld")]);
}

#[test]
fn white_space_agrees_with_std() {
    for c in ['\t', '\n', '\u{b}', '\u{c}', '\r', ' ', '\u{85}', '\u{a0}', '\u{1680}', '\u{2000}',
        '\u{200a}', '\u{2028}', '\u{2029}', '\u{202f}', '\u{205f}', '\u{3000}', 'a', '\u{200b}',
        '\u{180e}', '\u{feff}', 'x', '0', '_'] {
        assert_eq!(white_space(c), c.is_whitespace(), "{:?}", c);
    }
}

#[test]
fn tally_keeps_first_appearance_order() {
    let ws = vec![String::from("b"), String::from("a"), String::from("b"), String::from("c"), String::from("a")];
    assert_eq!(
        tally(&ws),
        vec![(String::from("b"), 2), (String::from("a"), 2), (String::from("c"), 1)]
    );
    assert!(tally(&Vec::new()).is_empty());
}
