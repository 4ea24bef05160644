use directory_console::text::{chars_of, contains_chars, matches_lowered, text_matches};

fn chars(text: &str) -> Vec<char> {
    text.chars().collect()
}

#[test]
fn chars_of_gives_each_character_once() {
    assert_eq!(chars_of(""), Vec::<char>::new());
    assert_eq!(chars_of("abc"), vec!['a', 'b', 'c']);
    assert_eq!(chars_of("né 日本"), vec!['n', 'é', ' ', '日', '本']);
}

#[test]
fn contains_chars_finds_contiguous_parts() {
    assert!(contains_chars(&chars("alice"), &chars("")));
    assert!(contains_chars(&chars(""), &chars("")));
    assert!(!contains_chars(&chars(""), &chars("a")));
    assert!(contains_chars(&chars("alice"), &chars("a")));
    assert!(contains_chars(&chars("alice"), &chars("e")));
    assert!(contains_chars(&chars("alice"), &chars("lic")));
    assert!(contains_chars(&chars("alice"), &chars("alice")));
    assert!(!contains_chars(&chars("alice"), &chars("alicea")));
    assert!(!contains_chars(&chars("alice"), &chars("ale")));
    assert!(!contains_chars(&chars("alice"), &chars("A")));
    assert!(contains_chars(&chars("aab"), &chars("ab")));
    assert!(contains_chars(&chars("aaab"), &chars("aab")));
    assert!(!contains_chars(&chars("abab"), &chars("abb")));
    assert!(contains_chars(&chars("日本語"), &chars("本語")));
    assert!(!contains_chars(&chars("日本語"), &chars("語本")));
}

#[test]
fn contains_chars_agrees_with_the_standard_library() {
    let texts = ["", "a", "ab", "aba", "abab", "banana", "ananas", "éé", "日本語"];
    let parts = ["", "a", "b", "ab", "ba", "ana", "nan", "anan", "é", "本", "x"];
    for text in texts {
        for part in parts {
            assert_eq!(
                contains_chars(&chars(text), &chars(part)),
                text.contains(part),
                "{:?} in {:?}",
                part,
                text
            );
        }
    }
}

#[test]
fn matches_lowered_takes_the_lowered_forms_as_they_are() {
    assert!(matches_lowered("", "anything", "not looked at"));
    assert!(matches_lowered("AL", "alice", "al"));
    assert!(!matches_lowered("AL", "alice", "AL"));
    assert!(!matches_lowered("bo", "alice", "bo"));
    assert!(matches_lowered("x", "alice", ""));
}

#[test]
fn text_matches_ignores_case_and_takes_empty_query() {
    assert!(text_matches("Alice", ""));
    assert!(text_matches("", ""));
    assert!(!text_matches("", "a"));
    assert!(text_matches("Alice", "ALI"));
    assert!(text_matches("ALICE", "lice"));
    assert!(!text_matches("Alice", "bob"));
    assert!(text_matches("Ünïcode", "ÜNÏ"));
    assert!(text_matches("STRASSE", "strasse"));
}
