//! Tests of the text functions, many of them against the standard library.

use mjolnir_analyzer::text::{
    chars_of, copy_of, find, mentions, part_after, part_before, split_lines, string_of, trimmed,
    whitespace, Source,
};

const TEXTS: [&str; 24] = [
    "",
    "a",
    "a\n",
    "a\nb",
    "a\n\nb",
    "\n",
    "\n\n",
    "\n\na",
    "a\r\nb\r\n",
    "a\rb",
    "a\r",
    "\r",
    "\r\n",
    "x\r\r\n",
    "x\n\r",
    "\r\n\r\n",
    "line one\r\nline two\nline three",
    "  indented\n\ttabbed  \n",
    "\u{3b1}\u{3b2}\u{3b3}\n\u{3b4}",
    "\u{a0}padded\u{2003}\n",
    "function transfer() { /* code */ }",
    "a\nb\n",
    "tail without end\r",
    "\u{1f600}\n\u{1f600}\r\n",
];

fn text_of(chars: &[char]) -> String {
    chars.iter().collect()
}

fn lines_of(text: &str) -> Vec<String> {
    split_lines(&chars_of(text)).iter().map(|line| text_of(line)).collect()
}

#[test]
fn chars_are_those_of_the_string() {
    for text in TEXTS {
        assert_eq!(chars_of(text), text.chars().collect::<Vec<char>>());
    }
}

#[test]
fn strings_are_made_of_their_chars() {
    for text in TEXTS {
        let chars = chars_of(text);
        assert_eq!(string_of(&chars), text);
        assert_eq!(copy_of(&chars), chars);
    }
}

#[test]
fn lines_are_those_of_the_standard_library() {
    for text in TEXTS {
        let expected: Vec<String> = text.lines().map(String::from).collect();
        assert_eq!(lines_of(text), expected, "lines of {:?}", text);
    }
}

#[test]
fn line_endings_do_not_belong_to_lines() {
    assert_eq!(lines_of("one\r\ntwo\nthree"), vec!["one", "two", "three"]);
}

#[test]
fn final_line_ending_adds_no_line() {
    assert_eq!(lines_of("one\ntwo\n"), vec!["one", "two"]);
    assert_eq!(lines_of("one\ntwo"), vec!["one", "two"]);
}

#[test]
fn empty_text_has_no_line() {
    assert_eq!(lines_of(""), Vec::<String>::new());
}

#[test]
fn empty_lines_are_lines() {
    assert_eq!(lines_of("\n\nx\n\n"), vec!["", "", "x", ""]);
}

#[test]
fn lone_carriage_return_stays() {
    assert_eq!(lines_of("a\rb\r"), vec!["a\rb\r"]);
    assert_eq!(lines_of("a\r\r\nb"), vec!["a\r", "b"]);
}

#[test]
fn mentions_is_contains_of_the_standard_library() {
    let needles = [
        "", "a", "b", "\n", "\r\n", "ab", "line", "line t", "two\nline", "transfer", "fer()",
        "er() {", "function transfer() { /* code */ }", "function transfer() { /* code */ } ",
        "\u{3b2}\u{3b3}", "\u{3b3}\u{3b2}", "\u{1f600}", "xx", "  ",
    ];
    for text in TEXTS {
        let chars = chars_of(text);
        for needle in needles {
            assert_eq!(
                mentions(&chars, needle),
                text.contains(needle),
                "{:?} in {:?}",
                needle,
                text
            );
        }
    }
}

#[test]
fn find_gives_the_leftmost_occurrence() {
    let hay = chars_of("abcabcab");
    assert_eq!(find(&hay, &chars_of("abc")), Some(0));
    assert_eq!(find(&hay, &chars_of("bca")), Some(1));
    assert_eq!(find(&hay, &chars_of("cab")), Some(2));
    assert_eq!(find(&hay, &chars_of("b")), Some(1));
    assert_eq!(find(&hay, &chars_of("abcabcab")), Some(0));
    assert_eq!(find(&hay, &chars_of("abcabcabc")), None);
    assert_eq!(find(&hay, &chars_of("ac")), None);
    assert_eq!(find(&hay, &chars_of("")), Some(0));
    assert_eq!(find(&chars_of(""), &chars_of("")), Some(0));
    assert_eq!(find(&chars_of(""), &chars_of("a")), None);
}

#[test]
fn find_counts_characters_not_bytes() {
    let hay = chars_of("\u{3b1}\u{3b2}\u{1f600}x");
    assert_eq!(find(&hay, &chars_of("x")), Some(3));
    assert_eq!(find(&hay, &chars_of("\u{1f600}")), Some(2));
}

#[test]
fn find_agrees_with_the_standard_library() {
    let needles = ["a", "\n", "line", "e t", "\u{3b4}", "\r\n", "b"];
    for text in TEXTS {
        let chars = chars_of(text);
        for needle in needles {
            let expected = text.find(needle).map(|at| text[..at].chars().count());
            assert_eq!(find(&chars, &chars_of(needle)), expected);
        }
    }
}

#[test]
fn whitespace_is_that_of_the_standard_library() {
    for code in 0..=0x10ffffu32 {
        if let Some(c) = char::from_u32(code) {
            assert_eq!(whitespace(c), c.is_whitespace(), "U+{:04X}", code);
        }
    }
}

#[test]
fn whitespace_holds_space_and_line_ends() {
    assert!(whitespace(' '));
    assert!(whitespace('\t'));
    assert!(whitespace('\n'));
    assert!(whitespace('\r'));
    assert!(whitespace('\u{a0}'));
    assert!(whitespace('\u{3000}'));
    assert!(!whitespace('a'));
    assert!(!whitespace('\u{200b}'));
    assert!(!whitespace('\0'));
}

#[test]
fn trimmed_is_trim_of_the_standard_library() {
    let texts = [
        "",
        " ",
        "a",
        "  a  ",
        "\t a b \n",
        "a  ",
        "  a",
        " \u{a0}\u{2003}x y\u{3000}\u{85} ",
        "\u{200b} x \u{200b}",
        "\r\n",
        "  \u{3b1}  ",
        " \u{1680}\u{2028}\u{2029}\u{202f}\u{205f} ",
    ];
    for text in texts {
        let chars = chars_of(text);
        assert_eq!(text_of(trimmed(&chars)), text.trim(), "trim of {:?}", text);
    }
}

#[test]
fn parts_are_cut_at_the_first_mark() {
    let text = chars_of("pub fn pay(to) fn other(x)");
    assert_eq!(text_of(part_after(&text, "fn ")), "pay(to) fn other(x)");
    assert_eq!(text_of(part_before(&text, "fn ")), "pub ");
    assert_eq!(text_of(part_before(&text, "(")), "pub fn pay");
    assert_eq!(text_of(part_after(&text, "(x)")), "");
    assert_eq!(text_of(part_before(&text, "pub")), "");
}

#[test]
fn parts_without_the_mark() {
    let text = chars_of("no mark here");
    assert_eq!(text_of(part_before(&text, "fn ")), "no mark here");
    assert_eq!(text_of(part_after(&text, "fn ")), "");
}

#[test]
fn parts_agree_with_split() {
    let marks = ["fn ", "(", "a", "\n", "ne"];
    for text in TEXTS {
        let chars = chars_of(text);
        for mark in marks {
            let mut pieces = text.split(mark);
            let first = pieces.next().unwrap_or("");
            assert_eq!(text_of(part_before(&chars, mark)), first);
            let rest = text.split_once(mark).map(|(_, rest)| rest).unwrap_or("");
            assert_eq!(text_of(part_after(&chars, mark)), rest);
            let second = pieces.next().unwrap_or("");
            let after = part_after(&chars, mark);
            assert_eq!(text_of(part_before(after, mark)), second);
        }
    }
}

#[test]
fn source_holds_text_and_lines() {
    let source = Source::new("first line\r\nsecond storage line\n");
    assert_eq!(text_of(&source.text), "first line\r\nsecond storage line\n");
    assert_eq!(source.lines.len(), 2);
    assert_eq!(text_of(&source.lines[0]), "first line");
    assert_eq!(text_of(&source.lines[1]), "second storage line");
    assert!(source.mentions("storage"));
    assert!(source.mentions("line\r\nsecond"));
    assert!(!source.mentions("third"));
}

/// Every text of up to `length` characters over the alphabet.
fn all_texts(alphabet: &[char], length: usize) -> Vec<String> {
    let mut texts = vec![String::new()];
    let mut last = vec![String::new()];
    for _ in 0..length {
        let mut next = Vec::new();
        for text in &last {
            for c in alphabet {
                let mut longer = text.clone();
                longer.push(*c);
                next.push(longer);
            }
        }
        texts.extend(next.iter().cloned());
        last = next;
    }
    texts
}

#[test]
fn lines_of_all_short_texts_are_those_of_the_standard_library() {
    for text in all_texts(&['a', '\n', '\r', ' '], 7) {
        let expected: Vec<String> = text.lines().map(String::from).collect();
        assert_eq!(lines_of(&text), expected, "lines of {:?}", text);
    }
}

#[test]
fn trim_of_all_short_texts_is_that_of_the_standard_library() {
    for text in all_texts(&['a', '\n', ' ', '\u{2003}', '\u{200b}'], 5) {
        let chars = chars_of(&text);
        assert_eq!(text_of(trimmed(&chars)), text.trim(), "trim of {:?}", text);
    }
}

#[test]
fn search_in_all_short_texts_is_that_of_the_standard_library() {
    let needles = all_texts(&['a', 'b', '\u{e9}'], 3);
    for text in all_texts(&['a', 'b', '\u{e9}'], 6) {
        let chars = chars_of(&text);
        for needle in &needles {
            assert_eq!(mentions(&chars, needle), text.contains(needle.as_str()));
            let expected = text
                .find(needle.as_str())
                .map(|at| text[..at].chars().count());
            assert_eq!(find(&chars, &chars_of(needle)), expected);
            let (before, after) = text.split_once(needle.as_str()).unwrap_or((&text, ""));
            assert_eq!(text_of(part_before(&chars, needle)), before);
            assert_eq!(text_of(part_after(&chars, needle)), after);
        }
    }
}
