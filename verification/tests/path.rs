use a_train::path::{join, parent, proper_parent};
use std::path::PathBuf;

fn popped(path: &str) -> String {
    let mut path = PathBuf::from(path);
    path.pop();
    path.into_os_string().into_string().unwrap()
}

#[test]
fn parent_drops_the_last_component() {
    assert_eq!(parent("/x/y"), "/x");
    assert_eq!(parent("/p/q/r"), "/p/q");
    assert_eq!(parent("/keep me/but not me"), "/keep me");
    assert_eq!(parent("/where/is/perry"), "/where/is");
    assert_eq!(parent("a/b"), "a");
    assert_eq!(parent("/séries/été.mkv"), "/séries");
}

#[test]
fn parent_of_a_single_component() {
    assert_eq!(parent("/x"), "/");
    assert_eq!(parent("x"), "");
    assert_eq!(parent("//x"), "/");
    assert_eq!(parent("."), "");
    assert_eq!(parent(".."), "");
}

#[test]
fn root_and_empty_path_are_their_own_parents() {
    assert_eq!(parent("/"), "/");
    assert_eq!(parent(""), "");
    assert_eq!(parent("//"), "//");
    assert_eq!(parent("/."), "/.");
    assert_eq!(parent("/./"), "/./");
}

#[test]
fn separators_and_dots_name_nothing() {
    assert_eq!(parent("/a/b/"), "/a");
    assert_eq!(parent("/a//b"), "/a");
    assert_eq!(parent("/a/./b"), "/a");
    assert_eq!(parent("/a/b/."), "/a");
    assert_eq!(parent("/a/b/./"), "/a");
    assert_eq!(parent("/./a"), "/");
    assert_eq!(parent("./a"), ".");
    assert_eq!(parent("./."), "");
    assert_eq!(parent("a/.."), "a");
    assert_eq!(parent("/a/.b"), "/a");
    assert_eq!(parent("/a/b."), "/a");
    assert_eq!(parent("/a/..."), "/a");
}

#[test]
fn parent_agrees_with_the_standard_library() {
    let paths = [
        "", "/", "//", "///", ".", "..", "./", "../", "/.", "/..", "/./", "/./.", "./.", "././",
        "a", "/a", "a/", "/a/", "a//", "//a", "//a//", "a/b", "/a/b", "a/b/", "/a/b/", "a//b",
        "/a//b//", "a/./b", "a/b/.", "a/b/./", "a/./b/./", "./a", "./a/b", "/./a", "/./a/./b",
        "a/..", "a/../b", "../a", "../../a", ".a", "a.", ".a/.b", "a/.b", "a/b.", "...", "/...",
        "a/.../b", "/this/is/a/full/path", "/just/like/me", "/keep me/but not me",
        "/where/is/perry", "/trashed/and/now/deleted", "/séries/été.mkv", "/a b/c d/e f.txt",
        " ", "/ ", " / ", "a/ /b", ". /a", "/.a/", "/a/.", "/a/./", "/a/./.", "/a/././b/./.",
    ];
    for path in paths {
        assert_eq!(parent(path), popped(path), "the parent of {:?}", path);
    }
}

#[test]
fn what_is_put_below_a_folder_has_it_as_parent() {
    for base in ["", "/", "a", "/a", "/a/b", ".", "..", "a/..", "/keep me", "/séries"] {
        for name in ["x", "..", "...", ".x", "x.", "but not me", "été.mkv"] {
            assert_eq!(parent(&join(base, name)), base, "{:?} below {:?}", name, base);
        }
    }
}

#[test]
fn proper_parent_is_none_without_components() {
    for path in ["", "/", "//", "/.", "/./."] {
        assert_eq!(proper_parent(path), None, "the parent of {:?}", path);
    }
    assert_eq!(proper_parent("/a").as_deref(), Some("/"));
    assert_eq!(proper_parent("a").as_deref(), Some(""));
    assert_eq!(proper_parent("/a/b/").as_deref(), Some("/a"));
    assert_eq!(proper_parent(".").as_deref(), Some(""));
}
