use std::path::{Path, PathBuf};
use wingbird_patch::paths::{join, path_file_name, path_with_extension, path_with_file_name, temp_sibling};

const SAMPLES: &[&str] = &[
    "", "/", "//", ".", "..", "./", "a", "a/", "a//", "/a", "/a/b", "a/b/", "a/./", "a/.", "a/..",
    "/a/b/libapp.so", "dir/.hidden", "x/y/./z/.", "./a", "../a", "/./a", "a/b/../c", "data/lib/libapp..tmp",
];

fn std_temp_sibling(target: &Path) -> PathBuf {
    let file_name = target
        .file_name()
        .map(|n| n.to_string_lossy().to_string())
        .unwrap_or_default();
    target.with_file_name(format!(".{}.new", file_name))
}

#[test]
fn temp_sibling_of_a_library_sits_beside_it() {
    assert_eq!(temp_sibling("/data/app/lib/libapp..tmp"), "/data/app/lib/.libapp..tmp.new");
    assert_eq!(temp_sibling("libapp.so"), ".libapp.so.new");
}

#[test]
fn temp_sibling_agrees_with_std_path() {
    for s in SAMPLES {
        let expected = std_temp_sibling(Path::new(s));
        assert_eq!(temp_sibling(s), expected.to_str().unwrap(), "input {:?}", s);
    }
}

#[test]
fn file_name_agrees_with_std_path() {
    for s in SAMPLES {
        let expected = Path::new(s).file_name().map(|n| n.to_str().unwrap().to_string());
        assert_eq!(path_file_name(s), expected, "input {:?}", s);
    }
}

#[test]
fn with_file_name_agrees_with_std_path() {
    for s in SAMPLES {
        for name in ["n", ".n.new", "libapp.so"] {
            let expected = Path::new(s).with_file_name(name);
            assert_eq!(path_with_file_name(s, name), expected.to_str().unwrap(), "input {:?} {:?}", s, name);
        }
    }
}

#[test]
fn with_extension_agrees_with_std_path() {
    for s in SAMPLES.iter().chain(["a.b.c", "/x/.profile", "/x/.a.b", "libapp.patch"].iter()) {
        for ext in [".tmp", "tmp", ""] {
            let expected = Path::new(s).with_extension(ext);
            assert_eq!(path_with_extension(s, ext), expected.to_str().unwrap(), "input {:?} {:?}", s, ext);
        }
    }
}

#[test]
fn join_agrees_with_std_path() {
    for s in SAMPLES {
        let expected = Path::new(s).join("patch");
        assert_eq!(join(s, "patch"), expected.to_str().unwrap(), "input {:?}", s);
    }
}

#[test]
fn temp_sibling_keeps_the_parent_and_sets_the_name() {
    for s in SAMPLES {
        let p = Path::new(s);
        if let Some(name) = p.file_name() {
            let t = temp_sibling(s);
            let tp = Path::new(&t);
            assert_eq!(tp.parent(), p.parent(), "input {:?}", s);
            assert_eq!(
                tp.file_name().unwrap().to_str().unwrap(),
                format!(".{}.new", name.to_str().unwrap()),
                "input {:?}",
                s
            );
        }
    }
}
