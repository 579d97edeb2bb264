use next_butler::names::{
    eq_file_extensions, eq_file_name, file_extension, file_stem, get_name_or_err, split_last,
};
use next_butler::resolve::prepend_root_path;
use next_butler::sanitize::{rm_double_dots_from_path_buf, sanitize, strip_separator, PathError};

#[test]
fn sanitize_strips_leading_separator() {
    assert_eq!(sanitize("/my/test").unwrap(), "my/test");
}

#[test]
fn sanitize_drops_parent_dirs() {
    assert_eq!(sanitize("../players/../profile").unwrap(), "players/profile");
    assert_eq!(sanitize("../../etc/passwd").unwrap(), "etc/passwd");
    assert_eq!(sanitize("/a/../../b").unwrap(), "a/b");
}

#[test]
fn sanitized_paths_hold_no_parent_dir() {
    for raw in ["../x", "a/../b/..", "../../../c/d", "/../e", "f/../g/../../h"] {
        let p = sanitize(raw).unwrap();
        assert!(!p.starts_with('/'));
        assert!(p.split('/').all(|s| s != ".." && s != "." && !s.is_empty()));
    }
}

#[test]
fn sanitize_cleans_dots_and_doubled_separators() {
    assert_eq!(sanitize("./a//b/./c").unwrap(), "a/b/c");
}

#[test]
fn sanitize_refuses_trailing_separator() {
    assert_eq!(sanitize("users/login/").unwrap_err(), PathError::NoName);
    assert_eq!(sanitize("users\\").unwrap_err(), PathError::NoName);
    assert_eq!(sanitize("/").unwrap_err(), PathError::NoName);
}

#[test]
fn sanitize_refuses_empty_names() {
    assert_eq!(sanitize("").unwrap_err(), PathError::NoName);
    assert_eq!(sanitize("..").unwrap_err(), PathError::NoName);
    assert_eq!(sanitize(".").unwrap_err(), PathError::NoName);
    assert_eq!(sanitize("../..").unwrap_err(), PathError::NoName);
}

#[test]
fn sanitize_refuses_bad_characters() {
    assert_eq!(sanitize("a/b*c").unwrap_err(), PathError::InvalidChar('*'));
    assert_eq!(sanitize("a b").unwrap_err(), PathError::InvalidChar(' '));
    assert_eq!(sanitize("a\\b").unwrap_err(), PathError::InvalidChar('\\'));
    assert_eq!(sanitize("caf\u{e9}").unwrap_err(), PathError::InvalidChar('\u{e9}'));
}

#[test]
fn sanitize_is_idempotent() {
    for raw in ["/my/test", "../players/../profile", "./a//b/./c", "x.tsx", "a-b_c.d/e"] {
        let once = sanitize(raw).unwrap();
        assert_eq!(sanitize(&once).unwrap(), once);
    }
}

#[test]
fn removing_parent_dirs_keeps_the_root() {
    let mut p = String::from("/a/../b//c");
    rm_double_dots_from_path_buf(&mut p);
    assert_eq!(p, "/a/b/c");
    let mut q = String::from("../x/..");
    rm_double_dots_from_path_buf(&mut q);
    assert_eq!(q, "x");
    let mut again = p.clone();
    rm_double_dots_from_path_buf(&mut again);
    assert_eq!(again, p);
}

#[test]
fn strip_separator_removes_one() {
    assert_eq!(strip_separator("/a"), "a");
    assert_eq!(strip_separator("\\a"), "a");
    assert_eq!(strip_separator("//a"), "a");
    assert_eq!(strip_separator("/\\/a/b"), "a/b");
    assert_eq!(strip_separator(&strip_separator("//a")), "a");
    assert_eq!(strip_separator("a"), "a");
}

#[test]
fn prepend_root_path_with_and_without_src() {
    assert_eq!(prepend_root_path("/pages", true), "src/pages");
    assert_eq!(prepend_root_path("/pages", false), "/pages");
    assert_eq!(prepend_root_path("//pages", true), "src/pages");
}

#[test]
fn stems_and_extensions() {
    assert_eq!(file_stem("card.tsx.hbs"), "card.tsx");
    assert_eq!(file_stem(".bashrc"), ".bashrc");
    assert_eq!(file_stem("plain"), "plain");
    assert_eq!(file_extension("card.tsx.hbs"), Some("hbs".to_string()));
    assert_eq!(file_extension(".bashrc"), None);
    assert_eq!(file_extension("a."), Some(String::new()));
}

#[test]
fn name_of_a_path() {
    assert_eq!(get_name_or_err("src/app/page.jsx").unwrap(), "page");
    assert_eq!(get_name_or_err("src/app/").unwrap(), "app");
    assert_eq!(get_name_or_err("a/").unwrap(), "a");
    assert!(get_name_or_err("/").is_err());
    assert_eq!(get_name_or_err("a/.").unwrap(), "a");
    assert_eq!(get_name_or_err("a//").unwrap(), "a");
    assert!(get_name_or_err("a/..").is_err());
    assert!(get_name_or_err("./").is_err());
    assert!(get_name_or_err("a/..").is_err());
}

#[test]
fn same_file_names() {
    assert!(eq_file_name("a/Foo.js", "b/Foo.ts"));
    assert!(!eq_file_name("a/Foo.js", "a/Bar.js"));
    assert!(eq_file_name("a/", "a"));
    assert!(eq_file_name("a", "a/"));
    assert!(eq_file_name("a/.", "a"));
    assert!(!eq_file_name("/", "/"));
    assert!(eq_file_extensions(Some("js"), Some("js")));
    assert!(!eq_file_extensions(Some("js"), None));
    assert!(eq_file_extensions(None, None));
}

#[test]
fn split_at_last_char() {
    assert_eq!(
        split_last("a.b.c", '.'),
        Some(("a.b".to_string(), ".c".to_string()))
    );
    assert_eq!(split_last("abc", '.'), None);
}
