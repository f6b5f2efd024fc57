use github_cli::text::{
    char_is_whitespace, contains_char, copy_texts, ends_with_chars, find_char,
    replace_in, same_text, split_chars, split_list_text, to_chars, trim_bounds, trim_str,
};

#[test]
fn whitespace_is_what_std_calls_whitespace() {
    for code in 0u32..=0x10FFFF {
        if let Some(c) = char::from_u32(code) {
            assert_eq!(char_is_whitespace(c), c.is_whitespace(), "U+{code:04X}");
        }
    }
}

#[test]
fn trim_agrees_with_std() {
    for s in ["", " ", "a", " a", "a ", "  a b  ", "\t\n x \r\n", "\u{2003}é\u{3000}", "   \u{85}"] {
        assert_eq!(trim_str(s), s.trim(), "{s:?}");
    }
}

#[test]
fn split_agrees_with_std() {
    for s in ["", "a", "/", "a/b", "a:b/c", "//", "a//b:", "ü:ö"] {
        let cs: Vec<char> = s.chars().collect();
        let expected: Vec<String> = s.split(&['/', ':'][..]).map(|p| p.to_string()).collect();
        assert_eq!(split_chars(&cs, '/', ':'), expected, "{s:?}");
    }
}

#[test]
fn chars_of_a_text() {
    let cs = to_chars("héllo");
    assert_eq!(cs, vec!['h', 'é', 'l', 'l', 'o']);
    assert_eq!(to_chars(""), Vec::<char>::new());
}

#[test]
fn lists_are_split_at_commas() {
    assert_eq!(split_list_text(""), Vec::<String>::new());
    assert_eq!(split_list_text("bug"), vec!["bug"]);
    assert_eq!(split_list_text("a,b"), vec!["a", "b"]);
    assert_eq!(split_list_text(","), vec!["", ""]);
    assert_eq!(split_list_text("a,,b,"), vec!["a", "", "b", ""]);
    assert_eq!(split_list_text(" a , b "), vec![" a ", " b "]);
}

#[test]
fn searching() {
    let cs: Vec<char> = "a/b/c".chars().collect();
    assert_eq!(find_char(&cs, '/'), Some(1));
    assert_eq!(find_char(&cs, 'c'), Some(4));
    assert_eq!(find_char(&cs, 'x'), None);
    assert!(contains_char(&cs, 'b'));
    assert!(!contains_char(&cs, ':'));
    assert!(!contains_char(&[], 'a'));
    let git: Vec<char> = ".git".chars().collect();
    let url: Vec<char> = "x.git".chars().collect();
    assert!(ends_with_chars(&url, &git));
    assert!(ends_with_chars(&git, &git));
    assert!(ends_with_chars(&url, &[]));
    assert!(!ends_with_chars(&git, &url));
    assert!(!ends_with_chars(&cs, &git));
}

#[test]
fn texts_are_compared_by_their_characters() {
    assert!(same_text("", ""));
    assert!(same_text("asc", "asc"));
    assert!(!same_text("asc", "asd"));
    assert!(!same_text("asc", "as"));
    assert!(!same_text("as", "asc"));
}

#[test]
fn replacing_and_copying() {
    assert_eq!(replace_in("a b  c", ' ', '-'), "a-b--c");
    assert_eq!(replace_in("", ' ', '-'), "");
    assert_eq!(replace_in("abc", 'x', 'y'), "abc");
    let list = vec!["a".to_string(), "".to_string(), "b c".to_string()];
    assert_eq!(copy_texts(&list), list);
}

#[test]
fn trim_bounds_frame_the_trimmed_text() {
    let cs: Vec<char> = "  a b \n".chars().collect();
    let (from, to) = trim_bounds(&cs);
    assert_eq!((from, to), (2, 5));
    let blank: Vec<char> = " \t ".chars().collect();
    let (from, to) = trim_bounds(&blank);
    assert_eq!(from, to);
}
