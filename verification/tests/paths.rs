use climageproc::paths::{extension, file_name, join, with_extension};
use std::path::{Path, PathBuf};

#[test]
fn file_name_is_what_follows_the_last_separator() {
    assert_eq!(file_name("a.png"), "a.png");
    assert_eq!(file_name("in/a.png"), "a.png");
    assert_eq!(file_name("/x/y.d/z"), "z");
    assert_eq!(file_name("dir/"), "");
    assert_eq!(file_name(""), "");
}

#[test]
fn extension_of_plain_names() {
    assert_eq!(extension("a.png"), Some("png"));
    assert_eq!(extension("a.tar.gz"), Some("gz"));
    assert_eq!(extension("photo.JPG"), Some("JPG"));
    assert_eq!(extension("noext"), None);
    assert_eq!(extension(""), None);
}

#[test]
fn extension_edge_cases() {
    assert_eq!(extension(".png"), None);
    assert_eq!(extension(".hidden.png"), Some("png"));
    assert_eq!(extension("foo."), Some(""));
    assert_eq!(extension("..png"), Some("png"));
}

#[test]
fn extension_looks_at_the_file_name_only() {
    assert_eq!(extension("dir.d/file"), None);
    assert_eq!(extension("dir.d/file.gif"), Some("gif"));
    assert_eq!(extension("a.png/"), None);
    assert_eq!(extension("in/.png"), None);
}

#[test]
fn extension_handles_wide_characters() {
    assert_eq!(extension("b\u{00E9}b\u{00E9}.jp\u{00E9}g"), Some("jp\u{00E9}g"));
    assert_eq!(extension("\u{1F600}.png"), Some("png"));
}

#[test]
fn extension_agrees_with_std() {
    let names = [
        "a.png", "a.tar.gz", "noext", ".png", ".hidden.png", "foo.", "..png", "in/a.png",
        "dir.d/file", "dir.d/file.gif", "in/.png", "x.y.z", "a.b/c.d", "/abs/p.webp",
        "\u{1F600}.png",
    ];
    for name in names {
        let expected = Path::new(name).extension().and_then(|e| e.to_str());
        assert_eq!(extension(name), expected, "{}", name);
    }
}

#[test]
fn with_extension_replaces_the_extension() {
    assert_eq!(with_extension("photo.png", "jpg"), "photo.jpg");
    assert_eq!(with_extension("out/photo.png", "JPG"), "out/photo.JPG");
    assert_eq!(with_extension("a.tar.gz", "png"), "a.tar.png");
}

#[test]
fn with_extension_adds_one_where_there_is_none() {
    assert_eq!(with_extension("noext", "jpg"), "noext.jpg");
    assert_eq!(with_extension(".hidden", "jpg"), ".hidden.jpg");
    assert_eq!(with_extension("dir.d/file", "gif"), "dir.d/file.gif");
}

#[test]
fn with_empty_extension_removes_it() {
    assert_eq!(with_extension("photo.png", ""), "photo");
    assert_eq!(with_extension("out/photo.png", ""), "out/photo");
    assert_eq!(with_extension("noext", ""), "noext");
}

#[test]
fn with_same_extension_changes_nothing() {
    for path in ["a.png", "in/b.JPG", "x.y.webp", "/abs/dir.d/c.gif"] {
        let ext = extension(path).unwrap();
        assert_eq!(with_extension(path, ext), path);
    }
}

#[test]
fn with_extension_agrees_with_std() {
    let paths = ["photo.png", "out/photo.png", "noext", ".hidden", "a.tar.gz", "dir.d/file", "x/y.z"];
    let exts = ["jpg", "JPG", "", "webp"];
    for path in paths {
        for ext in exts {
            let mut expected = PathBuf::from(path);
            expected.set_extension(ext);
            assert_eq!(with_extension(path, ext), expected.to_str().unwrap(), "{} {}", path, ext);
        }
    }
}

#[test]
fn join_puts_a_name_into_a_directory() {
    assert_eq!(join("out", "a.png"), "out/a.png");
    assert_eq!(join("out/", "a.png"), "out/a.png");
    assert_eq!(join("", "a.png"), "a.png");
    assert_eq!(join("/", "a.png"), "/a.png");
    assert_eq!(join("a/b", "c"), "a/b/c");
}

#[test]
fn join_agrees_with_std() {
    for dir in ["out", "out/", "", "/", "a/b", "./x"] {
        for name in ["a.png", "b", ".c"] {
            let mut expected = PathBuf::from(dir);
            expected.push(name);
            assert_eq!(join(dir, name), expected.to_str().unwrap(), "{} {}", dir, name);
        }
    }
}

#[test]
fn joined_path_keeps_the_file_name() {
    for dir in ["out", "out/", "", "a.d/b"] {
        for name in ["a.png", "b", ".c", "x.y.z"] {
            let path = join(dir, name);
            assert_eq!(file_name(&path), name);
            assert_eq!(extension(&path), extension(name));
        }
    }
}
