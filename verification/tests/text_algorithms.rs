use projektwoche_setup::text::{
    chars_of, contains, extension_range, is_whitespace, join, last_segment, replace_all, same_text,
    split_whitespace, to_ascii_lower, to_decimal, to_decimal_2, to_decimal_3, to_signed_decimal,
};

fn words(list: &[&str]) -> Vec<String> {
    list.iter().map(|w| w.to_string()).collect()
}

fn extension(path: &str) -> Option<String> {
    let chars = chars_of(path);
    extension_range(&chars).map(|(from, to)| chars[from..to].iter().collect())
}

#[test]
fn whitespace_is_unicode_white_space() {
    for c in ['\t', '\n', '\u{b}', '\u{c}', '\r', ' ', '\u{85}', '\u{a0}', '\u{1680}', '\u{2000}',
        '\u{2005}', '\u{200a}', '\u{2028}', '\u{2029}', '\u{202f}', '\u{205f}', '\u{3000}']
    {
        assert!(is_whitespace(c));
    }
    for c in ['a', '0', '-', '\u{8}', '\u{e}', '\u{200b}', '\u{feff}', '\u{1f}'] {
        assert!(!is_whitespace(c));
    }
}

#[test]
fn whitespace_agrees_with_the_standard_library() {
    for code in 0u32..0x3100 {
        if let Some(c) = char::from_u32(code) {
            assert_eq!(is_whitespace(c), c.is_whitespace());
        }
    }
}

#[test]
fn lower_case_touches_ascii_letters_only() {
    assert_eq!(to_ascii_lower('A'), 'a');
    assert_eq!(to_ascii_lower('Z'), 'z');
    assert_eq!(to_ascii_lower('m'), 'm');
    assert_eq!(to_ascii_lower('@'), '@');
    assert_eq!(to_ascii_lower('['), '[');
    assert_eq!(to_ascii_lower('Ä'), 'Ä');
}

#[test]
fn split_yields_the_words() {
    assert_eq!(split_whitespace("npm install -g yarn"), words(&["npm", "install", "-g", "yarn"]));
    assert_eq!(split_whitespace("  a \t b\n"), words(&["a", "b"]));
    assert_eq!(split_whitespace("one"), words(&["one"]));
    assert_eq!(split_whitespace(""), words(&[]));
    assert_eq!(split_whitespace(" \t "), words(&[]));
    assert_eq!(split_whitespace("ä\u{a0}ö"), words(&["ä", "ö"]));
    assert_eq!(
        split_whitespace("bash -c 'source ~/.bashrc'"),
        words(&["bash", "-c", "'source", "~/.bashrc'"])
    );
}

#[test]
fn split_agrees_with_the_standard_library() {
    for line in ["", " ", "a", " a", "a ", "a  b", "\ta\nb\r\nc ", "x\u{3000}y z"] {
        let expected: Vec<String> = line.split_whitespace().map(|w| w.to_string()).collect();
        assert_eq!(split_whitespace(line), expected);
    }
}

#[test]
fn join_puts_the_separator_between() {
    assert_eq!(join(&words(&["a", "b", "c"]), ", "), "a, b, c");
    assert_eq!(join(&words(&["a"]), ", "), "a");
    assert_eq!(join(&words(&[]), ", "), "");
    assert_eq!(join(&words(&["", ""]), "-"), "-");
}

#[test]
fn same_text_compares_characters() {
    assert!(same_text("", ""));
    assert!(same_text("aarch64", "aarch64"));
    assert!(!same_text("aarch64", "aarch65"));
    assert!(!same_text("a", "ab"));
    assert!(!same_text("ab", "a"));
}

#[test]
fn contains_finds_substrings() {
    assert!(contains("git version 2.43.0", "git version"));
    assert!(contains("git version 2.43.0", "2.43.0"));
    assert!(contains("git version 2.43.0", ""));
    assert!(contains("", ""));
    assert!(contains("aab", "ab"));
    assert!(!contains("git version", "git  version"));
    assert!(!contains("", "a"));
    assert!(!contains("ab", "abc"));
    assert!(!contains("Git", "git"));
}

#[test]
fn last_segment_follows_the_last_slash() {
    assert_eq!(last_segment("https://example.org/get/tool"), "tool");
    assert_eq!(last_segment("tool"), "tool");
    assert_eq!(last_segment("https://example.org/"), "");
    assert_eq!(last_segment("/"), "");
    assert_eq!(last_segment(""), "");
}

#[test]
fn extension_follows_the_last_dot_of_the_last_segment() {
    assert_eq!(extension("x.tar.gz"), Some("gz".to_string()));
    assert_eq!(extension("/a/b.c/d.zip"), Some("zip".to_string()));
    assert_eq!(extension("/a/b.c/d"), None);
    assert_eq!(extension("d."), Some("".to_string()));
    assert_eq!(extension(".bashrc"), None);
    assert_eq!(extension("/home/u/.bashrc"), None);
    assert_eq!(extension(".a.b"), Some("b".to_string()));
    assert_eq!(extension(""), None);
    assert_eq!(extension("a/"), None);
    assert_eq!(extension("dir/a.zip/"), Some("zip".to_string()));
    assert_eq!(extension("a.tar.gz///"), Some("gz".to_string()));
    assert_eq!(extension("/"), None);
    assert_eq!(extension(".."), None);
    assert_eq!(extension("a/.."), None);
    assert_eq!(extension("a/../"), None);
    assert_eq!(extension("..."), Some("".to_string()));
    assert_eq!(extension("a.."), Some("".to_string()));
}

#[test]
fn extension_agrees_with_the_standard_library() {
    let paths = [
        "", "/", "a", "a.b", ".a", ".a.b", "a.", "..", "...", "a..", "a/b.c", "a.b/c", "a.b/c/",
        "a.b/", "a/..", "a/../", "x.tar.gz", "dir.d/A.TXZ", "/tmp/.profile", "a.zip//",
    ];
    for path in paths {
        let expected = std::path::Path::new(path)
            .extension()
            .map(|e| e.to_string_lossy().into_owned());
        assert_eq!(extension(path), expected, "{}", path);
    }
}

#[test]
fn replace_all_replaces_every_occurrence() {
    assert_eq!(replace_all("level=debug\nlog=debug.log", "debug", "info"), "level=info\nlog=info.log");
    assert_eq!(replace_all("aaaa", "aa", "b"), "bb");
    assert_eq!(replace_all("aaa", "aa", "b"), "ba");
    assert_eq!(replace_all("abc", "x", "y"), "abc");
    assert_eq!(replace_all("abc", "abc", ""), "");
    assert_eq!(replace_all("", "a", "b"), "");
    assert_eq!(replace_all("ab", "", "-"), "-a-b-");
    assert_eq!(replace_all("", "", "-"), "-");
    assert_eq!(replace_all("xax", "a", "aa"), "xaax");
}

#[test]
fn replace_all_agrees_with_the_standard_library() {
    let texts = ["", "a", "aaa", "abcabc", "hello world", "ababab", "äöü ä"];
    let finds = ["", "a", "ab", "abc", "aa", "ä", "z"];
    let withs = ["", "x", "ab", "aaaa"];
    for t in texts {
        for f in finds {
            for w in withs {
                assert_eq!(replace_all(t, f, w), t.replace(f, w));
            }
        }
    }
}

#[test]
fn decimal_writes_numbers() {
    assert_eq!(to_decimal(0), "0");
    assert_eq!(to_decimal(9), "9");
    assert_eq!(to_decimal(10), "10");
    assert_eq!(to_decimal(1700000000), "1700000000");
    assert_eq!(to_decimal(u64::MAX), "18446744073709551615");
}

#[test]
fn padded_decimal_fills_with_zeros() {
    assert_eq!(to_decimal_2(0), "00");
    assert_eq!(to_decimal_2(7), "07");
    assert_eq!(to_decimal_2(10), "10");
    assert_eq!(to_decimal_2(123), "123");
    assert_eq!(to_decimal_3(0), "000");
    assert_eq!(to_decimal_3(4), "004");
    assert_eq!(to_decimal_3(45), "045");
    assert_eq!(to_decimal_3(456), "456");
    assert_eq!(to_decimal_3(4567), "4567");
}

#[test]
fn signed_decimal_writes_the_sign() {
    assert_eq!(to_signed_decimal(0), "0");
    assert_eq!(to_signed_decimal(127), "127");
    assert_eq!(to_signed_decimal(-1), "-1");
    assert_eq!(to_signed_decimal(i32::MAX), "2147483647");
    assert_eq!(to_signed_decimal(i32::MIN), "-2147483648");
}
