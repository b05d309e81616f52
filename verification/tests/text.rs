use std::path::Path;
use testjs::text::{
    chars_of, command_line, join_path, join_words, parent_dir, precedes_or_equals, render_status,
};

fn text_words(list: &[&str]) -> Vec<String> {
    list.iter().map(|w| w.to_string()).collect()
}

#[test]
fn lists_the_characters_of_a_string() {
    assert_eq!(chars_of("a\u{e9}-"), vec!['a', '\u{e9}', '-']);
    assert_eq!(chars_of(""), Vec::<char>::new());
}

#[test]
fn joins_words_with_single_spaces() {
    assert_eq!(join_words(&text_words(&["test", "--target", "t", "--no-run"])), "test --target t --no-run");
    assert_eq!(join_words(&text_words(&["one"])), "one");
    assert_eq!(join_words(&text_words(&[])), "");
    assert_eq!(join_words(&text_words(&["", ""])), " ");
}

#[test]
fn names_a_command_with_its_arguments() {
    assert_eq!(command_line("cargo", &text_words(&["locate-project"])), "cargo locate-project");
    assert_eq!(command_line("cargo", &text_words(&[])), "cargo ");
}

#[test]
fn joins_a_name_to_a_directory() {
    assert_eq!(join_path("/a/b", "c"), "/a/b/c");
    assert_eq!(join_path("/a/b/", "c"), "/a/b/c");
    assert_eq!(join_path("", "c"), "c");
    assert_eq!(join_path("/a", "/etc/x"), "/etc/x");
    assert_eq!(join_path("/", "c"), "/c");
    assert_eq!(join_path("a", ""), "a/");
}

#[test]
fn joins_paths_as_the_standard_library_does() {
    let bases = ["/a/b", "/a/b/", "", "rel", "/", "rel/dir"];
    let names = ["c", "c.js", "/abs/x", "d/e", "suite-ab12.js"];
    for base in bases.iter() {
        for name in names.iter() {
            let expected = Path::new(base).join(name);
            assert_eq!(join_path(base, name), expected.to_str().unwrap(), "{:?} {:?}", base, name);
        }
    }
}

#[test]
fn finds_the_directory_of_a_path() {
    assert_eq!(parent_dir("/a/b/Cargo.toml"), Some("/a/b".to_string()));
    assert_eq!(parent_dir("/Cargo.toml"), Some("/".to_string()));
    assert_eq!(parent_dir("Cargo.toml"), Some(String::new()));
    assert_eq!(parent_dir("a/Cargo.toml"), Some("a".to_string()));
    assert_eq!(parent_dir(""), None);
    assert_eq!(parent_dir("/"), None);
}

#[test]
fn finds_directories_as_the_standard_library_does() {
    let paths = ["/a/b/Cargo.toml", "/Cargo.toml", "Cargo.toml", "a/Cargo.toml", "", "/", "/x/y/z"];
    for path in paths.iter() {
        let expected = Path::new(path).parent().map(|p| p.to_str().unwrap().to_string());
        assert_eq!(parent_dir(path), expected, "{:?}", path);
    }
}

#[test]
fn renders_exit_statuses_in_decimal() {
    assert_eq!(render_status(0), "0");
    assert_eq!(render_status(7), "7");
    assert_eq!(render_status(10), "10");
    assert_eq!(render_status(101), "101");
    assert_eq!(render_status(-1), "-1");
    assert_eq!(render_status(i32::MAX), "2147483647");
    assert_eq!(render_status(i32::MIN), "-2147483648");
}

#[test]
fn renders_statuses_as_the_standard_library_does() {
    for status in [-1000, -99, -10, -9, 1, 9, 10, 99, 100, 255, 256, 32767, 65536] {
        assert_eq!(render_status(status), status.to_string());
    }
}

#[test]
fn orders_texts_by_code_point() {
    assert!(precedes_or_equals("", ""));
    assert!(precedes_or_equals("", "a"));
    assert!(!precedes_or_equals("a", ""));
    assert!(precedes_or_equals("a", "a"));
    assert!(precedes_or_equals("a", "b"));
    assert!(!precedes_or_equals("b", "a"));
    assert!(precedes_or_equals("ab", "abc"));
    assert!(!precedes_or_equals("abc", "ab"));
    assert!(precedes_or_equals("Z", "a"));
    assert!(precedes_or_equals("z", "\u{e9}"));
}

#[test]
fn orders_texts_as_the_standard_library_does() {
    let texts = ["", "a", "b", "ab", "abc", "Z", "\u{e9}", "\u{1F600}", "z\u{e9}", "suite-aaaa1111.js", "suite-bbbb2222.js"];
    for a in texts.iter() {
        for b in texts.iter() {
            assert_eq!(precedes_or_equals(a, b), a <= b, "{:?} {:?}", a, b);
        }
    }
}
