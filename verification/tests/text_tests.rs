use ollama_supervisor::decimal::{decimal_text, parse_u16_text};
use ollama_supervisor::text::{
    chars_of, contains_in, ends_with_in, find_in, find_in_from, fold_case_of, matches_at,
    same_text, starts_with_in, string_of,
};
use ollama_supervisor::words::{
    first_word_of, is_blank_text, join_texts, split_lines, trim_text,
};

fn cs(s: &str) -> Vec<char> {
    s.chars().collect()
}

fn st(v: &[char]) -> String {
    v.iter().collect()
}

#[test]
fn chars_and_strings_round_trip() {
    assert_eq!(chars_of("héllo ✓"), cs("héllo ✓"));
    assert_eq!(string_of(&cs("héllo ✓")), "héllo ✓");
    assert_eq!(string_of(&[]), "");
}

#[test]
fn find_gives_the_first_occurrence() {
    assert_eq!(find_in(&cs("abcabc"), &cs("bc")), Some(1));
    assert_eq!(find_in_from(&cs("abcabc"), &cs("bc"), 2), Some(4));
    assert_eq!(find_in_from(&cs("abcabc"), &cs("bc"), 5), None);
    assert_eq!(find_in(&cs("abc"), &cs("abcd")), None);
    assert_eq!(find_in(&cs("abc"), &cs("")), Some(0));
    assert_eq!(find_in(&cs(""), &cs("")), Some(0));
    assert_eq!(find_in_from(&cs("abc"), &cs(""), 3), Some(3));
    assert_eq!(find_in_from(&cs("abc"), &cs(""), 4), None);
}

#[test]
fn contains_and_edges() {
    assert!(contains_in(&cs("/usr/local/bin:/bin"), &cs("/bin")));
    assert!(!contains_in(&cs("/usr/local"), &cs("/bin")));
    assert!(starts_with_in(&cs("{\"a\":1}"), &cs("{")));
    assert!(!starts_with_in(&cs(""), &cs("{")));
    assert!(ends_with_in(&cs("app.dmg"), &cs(".dmg")));
    assert!(!ends_with_in(&cs("dmg"), &cs(".dmg")));
    assert!(matches_at(&cs("hello"), &cs("ll"), 2));
    assert!(!matches_at(&cs("hello"), &cs("ll"), 3));
    assert!(!matches_at(&cs("hello"), &cs("lo"), 4));
    assert!(same_text(&cs("abc"), &cs("abc")));
    assert!(!same_text(&cs("abc"), &cs("abd")));
    assert!(!same_text(&cs("abc"), &cs("ab")));
}

#[test]
fn fold_case_touches_ascii_capitals_only() {
    assert_eq!(st(&fold_case_of(&cs("C:\\Program Files\\OLLAMA"))), "c:\\program files\\ollama");
    assert_eq!(st(&fold_case_of(&cs("ÄZaz[@`{"))), "Äzaz[@`{");
}

#[test]
fn trim_removes_unicode_white_space_at_both_ends() {
    assert_eq!(st(&trim_text(&cs("  \t ollama version 0.1.2 \r\n"))), "ollama version 0.1.2");
    assert_eq!(st(&trim_text(&cs("\u{2003}a b\u{00A0}"))), "a b");
    assert_eq!(st(&trim_text(&cs(" \n "))), "");
    assert_eq!(st(&trim_text(&cs(""))), "");
    assert_eq!(st(&trim_text(&cs("x"))), "x");
    assert!(is_blank_text(&cs(" \t\n")));
    assert!(is_blank_text(&cs("")));
    assert!(!is_blank_text(&cs(" a ")));
}

#[test]
fn lines_agree_with_the_standard_library() {
    for s in ["", "a", "a\n", "a\nb", "a\r\nb\r\n", "\n", "\n\n", "a\r", "a\r\n\r\nb", "\r\n", "a\n\rb\n"] {
        let ours: Vec<String> = split_lines(&cs(s)).iter().map(|l| st(l)).collect();
        let std: Vec<String> = s.lines().map(|l| l.to_string()).collect();
        assert_eq!(ours, std, "input {:?}", s);
    }
}

#[test]
fn first_word_agrees_with_split_whitespace() {
    for s in ["", "  ", "llama2 3.8GB", "  \tmistral:7b\t4.1GB", "x", " x", "x ", "\u{3000}wide\u{2009}gap"] {
        let ours = first_word_of(&cs(s)).map(|w| st(&w));
        let std = s.split_whitespace().next().map(|w| w.to_string());
        assert_eq!(ours, std, "input {:?}", s);
    }
}

#[test]
fn join_puts_the_separator_between_parts() {
    assert_eq!(st(&join_texts(&vec![], &cs("\n"))), "");
    assert_eq!(st(&join_texts(&vec![cs("a")], &cs("\n"))), "a");
    assert_eq!(st(&join_texts(&vec![cs("a"), cs(""), cs("b")], &cs(", "))), "a, , b");
}

#[test]
fn decimal_writes_numbers_as_the_standard_library_does() {
    for n in [0u64, 7, 10, 99, 100, 1024, 11434, 65535, u64::MAX] {
        assert_eq!(st(&decimal_text(n)), n.to_string());
    }
}

#[test]
fn parse_u16_agrees_with_the_standard_library() {
    for s in [
        "", "+", "-", "0", "+0", "-0", "80", "11434", "65535", "65536", "0065535", "00065536",
        "99999999999999999999999", "12a", " 12", "12 ", "+12", "++12", "1_000", "١٢",
    ] {
        assert_eq!(parse_u16_text(&cs(s)), s.parse::<u16>().ok(), "input {:?}", s);
    }
}

#[test]
fn white_space_and_case_agree_with_the_standard_library_on_every_character() {
    for code in 0..=0x10FFFFu32 {
        if let Some(c) = char::from_u32(code) {
            assert_eq!(
                ollama_supervisor::text::char_is_space(c),
                c.is_whitespace(),
                "U+{:04X}",
                code
            );
            assert_eq!(
                ollama_supervisor::text::fold_char_of(c),
                c.to_ascii_lowercase(),
                "U+{:04X}",
                code
            );
        }
    }
}

fn every_text(alphabet: &[char], longest: usize) -> Vec<String> {
    let mut all = vec![String::new()];
    let mut last = vec![String::new()];
    for _ in 0..longest {
        let mut next = Vec::new();
        for text in &last {
            for c in alphabet {
                let mut longer = text.clone();
                longer.push(*c);
                next.push(longer);
            }
        }
        all.extend(next.iter().cloned());
        last = next;
    }
    all
}

#[test]
fn lines_words_and_trimming_agree_with_the_standard_library_on_short_texts() {
    for text in every_text(&['a', ' ', '\n', '\r', '\u{2003}'], 6) {
        let chars = cs(&text);
        let ours: Vec<String> = split_lines(&chars).iter().map(|l| st(l)).collect();
        let theirs: Vec<String> = text.lines().map(|l| l.to_string()).collect();
        assert_eq!(ours, theirs, "lines of {:?}", text);
        assert_eq!(st(&trim_text(&chars)), text.trim(), "trim of {:?}", text);
        assert_eq!(
            first_word_of(&chars).map(|w| st(&w)),
            text.split_whitespace().next().map(|w| w.to_string()),
            "first word of {:?}",
            text
        );
        let words: Vec<String> = ollama_supervisor::inventory::split_words(&chars)
            .iter()
            .map(|w| st(w))
            .collect();
        let theirs: Vec<String> = text.split_whitespace().map(|w| w.to_string()).collect();
        assert_eq!(words, theirs, "words of {:?}", text);
        assert_eq!(is_blank_text(&chars), text.trim().is_empty(), "blank {:?}", text);
    }
}

#[test]
fn searching_agrees_with_the_standard_library_on_short_texts() {
    let needles = every_text(&['a', 'b'], 3);
    for hay in every_text(&['a', 'b'], 7) {
        let chars = cs(&hay);
        for needle in &needles {
            let n = cs(needle);
            assert_eq!(find_in(&chars, &n), hay.find(needle.as_str()), "{:?} in {:?}", needle, hay);
            assert_eq!(contains_in(&chars, &n), hay.contains(needle.as_str()));
            assert_eq!(starts_with_in(&chars, &n), hay.starts_with(needle.as_str()));
            assert_eq!(ends_with_in(&chars, &n), hay.ends_with(needle.as_str()));
        }
    }
}
