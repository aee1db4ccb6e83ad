use xcodebuild::text::{
    chars_of, file_name, header_tail, is_blank_line, is_whitespace, join, split_whitespace,
    str_contains, str_eq, substring, trimmed,
};

#[test]
fn whitespace_characters() {
    for c in [
        ' ', '\t', '\n', '\u{b}', '\u{c}', '\r', '\u{85}', '\u{a0}', '\u{1680}', '\u{2000}',
        '\u{2005}', '\u{200a}', '\u{2028}', '\u{2029}', '\u{202f}', '\u{205f}', '\u{3000}',
    ] {
        assert!(is_whitespace(c), "{:?}", c);
    }
    for c in ['a', '0', '_', '\u{8}', '\u{e}', '\u{200b}', '\u{feff}', '\u{180e}'] {
        assert!(!is_whitespace(c), "{:?}", c);
    }
}

#[test]
fn whitespace_agrees_with_the_standard_library() {
    for code in 0u32..0x11000 {
        if let Some(c) = char::from_u32(code) {
            assert_eq!(is_whitespace(c), c.is_whitespace(), "{:?}", c);
        }
    }
}

#[test]
fn tokens_are_maximal_runs() {
    assert_eq!(split_whitespace("a b"), vec!["a", "b"]);
    assert_eq!(split_whitespace("  one\t two \u{a0} three  "), vec!["one", "two", "three"]);
    assert_eq!(split_whitespace("single"), vec!["single"]);
    assert!(split_whitespace("").is_empty());
    assert!(split_whitespace(" \t ").is_empty());
    assert_eq!(split_whitespace("é ü"), vec!["é", "ü"]);
}

#[test]
fn tokens_agree_with_the_standard_library() {
    for line in [
        "CompileC out.o in.c normal arm64 c clang (in target 'T' from project 'P')",
        "   leading and trailing   ",
        "tabs\tand\nnewlines\r\n",
        "",
    ] {
        let expected: Vec<String> = line.split_whitespace().map(|t| t.to_string()).collect();
        assert_eq!(split_whitespace(line), expected);
    }
}

#[test]
fn tokens_ignore_surrounding_whitespace() {
    let bare = "CompileC out.o in.c normal arm64 c clang";
    let padded = format!(" \t {bare} \n ");
    assert_eq!(split_whitespace(bare), split_whitespace(&padded));
}

#[test]
fn trimming() {
    assert_eq!(trimmed("  a b  "), "a b");
    assert_eq!(trimmed("a"), "a");
    assert_eq!(trimmed("   "), "");
    assert_eq!(trimmed(""), "");
    assert_eq!(trimmed("\t x\u{3000}"), "x");
}

#[test]
fn blank_lines() {
    assert!(is_blank_line(""));
    assert!(is_blank_line("    "));
    assert!(is_blank_line("\t\r"));
    assert!(!is_blank_line("  x "));
}

#[test]
fn header_tail_follows_the_first_token() {
    assert_eq!(header_tail("Note Planning"), "Planning");
    assert_eq!(header_tail("  note: Using new build system  "), "Using new build system");
    assert_eq!(header_tail("Ld"), "");
    assert_eq!(header_tail(""), "");
    assert_eq!(header_tail("Note  two spaces"), " two spaces");
    assert_eq!(header_tail("** BUILD SUCCEEDED **"), "BUILD SUCCEEDED **");
}

#[test]
fn substring_search() {
    assert!(str_contains("** BUILD FAILED ** (overall summary)", "BUILD FAILED"));
    assert!(str_contains("abc", ""));
    assert!(str_contains("", ""));
    assert!(str_contains("abc", "abc"));
    assert!(str_contains("aab", "ab"));
    assert!(!str_contains("abc", "abcd"));
    assert!(!str_contains("BUILD  FAILED", "BUILD FAILED"));
    assert!(!str_contains("", "a"));
}

#[test]
fn text_equality() {
    assert!(str_eq("", ""));
    assert!(str_eq("Ld", "Ld"));
    assert!(!str_eq("Ld", "cd"));
    assert!(!str_eq("Ld", "Ld "));
}

#[test]
fn joined_lines() {
    assert_eq!(join(&vec![]), "");
    assert_eq!(join(&vec!["one".to_string()]), "one");
    assert_eq!(join(&vec!["one".to_string(), "two".to_string(), "".to_string()]), "one\ntwo\n");
}

#[test]
fn characters_and_substrings() {
    assert_eq!(chars_of("aé"), vec!['a', 'é']);
    assert_eq!(substring("héllo", 1, 3), "él");
    assert_eq!(substring("abc", 3, 3), "");
}

#[test]
fn file_names() {
    assert_eq!(file_name("/path/to/file.c").as_deref(), Some("file.c"));
    assert_eq!(file_name("file.c").as_deref(), Some("file.c"));
    assert_eq!(file_name("/usr/bin/").as_deref(), Some("bin"));
    assert_eq!(file_name("bin").as_deref(), Some("bin"));
    assert_eq!(file_name("foo.txt/.").as_deref(), Some("foo.txt"));
    assert_eq!(file_name("foo.txt/.//").as_deref(), Some("foo.txt"));
    assert_eq!(file_name("foo.txt/.."), None);
    assert_eq!(file_name("/"), None);
    assert_eq!(file_name(""), None);
    assert_eq!(file_name(".."), None);
    assert_eq!(file_name("."), None);
    assert_eq!(file_name("...").as_deref(), Some("..."));
}

#[test]
fn file_names_agree_with_the_standard_library() {
    for path in [
        "/path/to/file.c", "file.c", "/usr/bin/", "bin", "foo.txt/.", "foo.txt/.//", "foo.txt/..",
        "/", "", "..", ".", "./", "./a", "a/./", "a//b", "//", "a/../b", "...", ".hidden", "a/.b/",
        "/.", "/..", "a/b/c/././/", "x/..//", " spaced name/ file ", "é/ü.c",
    ] {
        let expected = std::path::Path::new(path)
            .file_name()
            .map(|name| name.to_str().unwrap().to_string());
        assert_eq!(file_name(path), expected, "{path:?}");
    }
}
