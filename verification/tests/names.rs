use libmanager::names::{
    contains_char, directory_name, file_basename, filename_with_extension, has_suffix, join_path,
    path_file_name, same_text,
};

#[test]
fn basename_stops_at_last_dot() {
    assert_eq!(file_basename("mathlib.h"), "mathlib");
    assert_eq!(file_basename("archive.tar.gz"), "archive.tar");
    assert_eq!(file_basename("foo.bar.c"), "foo.bar");
}

#[test]
fn basename_without_dot_is_whole_name() {
    assert_eq!(file_basename("mathlib"), "mathlib");
    assert_eq!(file_basename(""), "");
}

#[test]
fn basename_of_only_an_extension_is_empty() {
    assert_eq!(file_basename(".c"), "");
    assert_eq!(file_basename("."), "");
}

#[test]
fn basename_of_trailing_dot_drops_it() {
    assert_eq!(file_basename("add."), "add");
    assert_eq!(file_basename("a.b."), "a.b");
}

#[test]
fn basename_keeps_characters_beyond_ascii() {
    assert_eq!(file_basename("größe.c"), "größe");
}

#[test]
fn extension_with_dot_is_appended_as_is() {
    assert_eq!(filename_with_extension("add.c", ".o"), "add.o");
    assert_eq!(filename_with_extension("mathlib", ".a"), "mathlib.a");
}

#[test]
fn extension_without_dot_gets_one() {
    assert_eq!(filename_with_extension("add.c", "o"), "add.o");
    assert_eq!(filename_with_extension("mathlib", "a"), "mathlib.a");
}

#[test]
fn extension_replaces_only_the_last_one() {
    assert_eq!(filename_with_extension("foo.bar.c", ".o"), "foo.bar.o");
    assert_eq!(filename_with_extension("a.b.c", ".o"), "a.b.o");
    assert_eq!(filename_with_extension("crc.tab.c", "o"), "crc.tab.o");
    assert_eq!(filename_with_extension("lib.tar", ".tar.gz"), "lib.tar.gz");
}

#[test]
fn extension_with_inner_dot_gets_none_in_front() {
    assert_eq!(filename_with_extension("lib.tar", "tar.gz"), "libtar.gz");
}

#[test]
fn empty_extension_leaves_a_trailing_dot() {
    assert_eq!(filename_with_extension("add.c", ""), "add.");
}

#[test]
fn contains_char_finds_and_misses() {
    assert!(contains_char(".a", '.'));
    assert!(contains_char("tar.gz", '.'));
    assert!(!contains_char("a", '.'));
    assert!(!contains_char("", '.'));
}

#[test]
fn suffix_is_matched_exactly() {
    assert!(has_suffix("add.c", ".c"));
    assert!(has_suffix(".c", ".c"));
    assert!(has_suffix("anything", ""));
    assert!(!has_suffix("add.cpp", ".c"));
    assert!(!has_suffix("add.C", ".c"));
    assert!(!has_suffix("c", ".c"));
    assert!(!has_suffix("", ".c"));
    assert!(!has_suffix("add.c.bak", ".c"));
}

#[test]
fn same_text_compares_whole_texts() {
    assert!(same_text("compile", "compile"));
    assert!(same_text("", ""));
    assert!(!same_text("compile", "compiles"));
    assert!(!same_text("xcompile", "compile"));
    assert!(!same_text("c", "d"));
}

#[test]
fn file_name_is_what_follows_the_last_slash() {
    assert_eq!(path_file_name("mathlib/add.c"), "add.c");
    assert_eq!(path_file_name("a/b/c.h"), "c.h");
    assert_eq!(path_file_name("add.c"), "add.c");
    assert_eq!(path_file_name("dir/"), "");
    assert_eq!(path_file_name(""), "");
}

#[test]
fn directory_name_is_the_last_segment() {
    assert_eq!(directory_name("mathlib"), "mathlib");
    assert_eq!(directory_name("vendor/zlib"), "zlib");
    assert_eq!(directory_name("./m"), "m");
    assert_eq!(directory_name("/abs/m"), "m");
    assert_eq!(directory_name("a/b.d/c"), "c");
}

#[test]
fn directory_name_sets_trailing_slashes_aside() {
    assert_eq!(directory_name("mathlib/"), "mathlib");
    assert_eq!(directory_name("vendor/zlib//"), "zlib");
    assert_eq!(directory_name("/abs/m/"), "m");
}

#[test]
fn directory_name_of_root_and_nothing_is_empty() {
    assert_eq!(directory_name("/"), "");
    assert_eq!(directory_name("//"), "");
    assert_eq!(directory_name(""), "");
}

#[test]
fn directory_name_agrees_with_std_paths() {
    let cases = ["mathlib", "vendor/zlib", "./m", "/abs/m", "mathlib/", "a/b//", "x.d/y.z"];
    for path in cases {
        let expected = std::path::Path::new(path).file_name().unwrap();
        assert_eq!(directory_name(path), expected.to_str().unwrap());
    }
}

#[test]
fn join_puts_one_separator_between() {
    assert_eq!(join_path("mathlib", "add.c"), "mathlib/add.c");
    assert_eq!(join_path("/opt/homebrew/Cellar", "openssl/3.0"), "/opt/homebrew/Cellar/openssl/3.0");
}

#[test]
fn join_adds_no_separator_after_one() {
    assert_eq!(join_path("mathlib/", "add.c"), "mathlib/add.c");
    assert_eq!(join_path("/", "usr"), "/usr");
}

#[test]
fn join_with_rooted_path_keeps_only_it() {
    assert_eq!(join_path("include", "/abs/dir/x.h"), "/abs/dir/x.h");
}

#[test]
fn join_with_empty_parts() {
    assert_eq!(join_path("", "add.c"), "add.c");
    assert_eq!(join_path("mathlib", ""), "mathlib/");
    assert_eq!(join_path("", ""), "");
}

#[test]
fn join_agrees_with_std_paths() {
    let cases = [
        ("mathlib", "add.c"),
        ("mathlib/", "add.c"),
        ("include", "/abs/x.h"),
        ("", "add.c"),
        ("mathlib", ""),
        ("/opt/homebrew/Cellar", "pkg/1.0"),
        ("a/b", "c/d.h"),
    ];
    for (base, relative) in cases {
        let expected = std::path::Path::new(base).join(relative);
        assert_eq!(join_path(base, relative), expected.to_str().unwrap());
    }
}
