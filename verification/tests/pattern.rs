use ash_shader_creator::pattern::{chars_of, contains_chars};

fn chars(s: &str) -> Vec<char> {
    s.chars().collect()
}

#[test]
fn chars_of_keeps_every_character_in_order() {
    assert_eq!(chars_of("a.vs"), vec!['a', '.', 'v', 's']);
    assert_eq!(chars_of(""), Vec::<char>::new());
}

#[test]
fn chars_of_counts_characters_not_bytes() {
    assert_eq!(chars_of("é.fs"), vec!['é', '.', 'f', 's']);
}

#[test]
fn contains_chars_finds_a_part_at_the_start_the_middle_and_the_end() {
    assert!(contains_chars(&chars(".vs/file"), &chars(".vs")));
    assert!(contains_chars(&chars("a.vs.bak"), &chars(".vs")));
    assert!(contains_chars(&chars("a.vs"), &chars(".vs")));
}

#[test]
fn contains_chars_rejects_a_text_without_the_pattern() {
    assert!(!contains_chars(&chars("a.v.s"), &chars(".vs")));
    assert!(!contains_chars(&chars("avs"), &chars(".vs")));
    assert!(!contains_chars(&chars(""), &chars(".vs")));
}

#[test]
fn contains_chars_rejects_a_pattern_longer_than_the_text() {
    assert!(!contains_chars(&chars(".v"), &chars(".vs")));
}

#[test]
fn contains_chars_finds_the_empty_pattern() {
    assert!(contains_chars(&chars("abc"), &chars("")));
    assert!(contains_chars(&chars(""), &chars("")));
}

#[test]
fn contains_chars_finds_the_whole_text() {
    assert!(contains_chars(&chars(".spv"), &chars(".spv")));
}

#[test]
fn contains_chars_goes_on_after_a_partial_match() {
    assert!(contains_chars(&chars("..spspv"), &chars(".spv")) == "..spspv".contains(".spv"));
    assert!(contains_chars(&chars(".sp.spv"), &chars(".spv")));
}

#[test]
fn contains_chars_agrees_with_the_standard_search() {
    let texts = ["", "a", ".spv", "x.vert.spv", "dir.fs/x", "äö.vs", "a.v", "spv.", "..fs"];
    let pats = ["", ".", ".spv", ".vs", ".fs", ".vert.spv", ".frag.spv", "ö"];
    for text in texts {
        for pat in pats {
            assert_eq!(contains_chars(&chars(text), &chars(pat)), text.contains(pat));
        }
    }
}
