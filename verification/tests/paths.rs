//! Resolution of paths, against the real file system.

use std::path::{Path, PathBuf};

use deepseek_harness_sdk_rs::paths::{collapse_dot_components, is_empty_path, PathResolver};

/// Resolves a path the way the SDK does.
fn resolve_path(path: &Path) -> PathBuf {
    let absolute = std::path::absolute(path).unwrap_or_else(|_| path.to_path_buf());
    let mut resolver = PathResolver::new(&absolute);
    while let Some(probe) = resolver.probe() {
        resolver.answer(probe.exists());
    }
    resolver.finish(resolver.prefix().canonicalize().ok())
}

/// Resolves a path in a file system that holds just the given directories.
fn resolve_among(path: &str, present: &[&str]) -> (PathBuf, usize) {
    let mut resolver = PathResolver::new(&PathBuf::from(path));
    let mut probes = 0;
    while let Some(probe) = resolver.probe() {
        probes += 1;
        resolver.answer(present.iter().any(|dir| probe == Path::new(dir)));
    }
    (resolver.finish(None), probes)
}

#[test]
fn resolve_path_collapses_parent_components_like_python() {
    let temp = tempfile::TempDir::new().expect("tempdir");
    let expected = temp
        .path()
        .canonicalize()
        .expect("canonical tempdir")
        .join("bar");
    assert_eq!(
        resolve_path(&temp.path().join("missing").join("..").join("bar")),
        expected
    );
}

#[test]
fn resolve_path_clamps_parent_components_at_the_root() {
    assert_eq!(resolve_path(Path::new("/")), PathBuf::from("/"));
    assert_eq!(
        resolve_path(&Path::new("/..").join("..").join("etc")),
        Path::new("/etc").canonicalize().expect("canonical /etc")
    );
}

#[test]
fn collapsing_is_lexical() {
    let collapsed = |path: &str| collapse_dot_components(PathBuf::from(path));
    assert_eq!(collapsed("/a/./b/../c"), PathBuf::from("/a/c"));
    assert_eq!(collapsed("/a//b/"), PathBuf::from("/a/b"));
    assert_eq!(collapsed("/.."), PathBuf::from("/"));
    assert_eq!(collapsed("/../../a"), PathBuf::from("/a"));
    assert_eq!(collapsed("a/../.."), PathBuf::from(""));
    assert_eq!(collapsed("../a"), PathBuf::from("a"));
    assert_eq!(collapsed("./a"), PathBuf::from("a"));
    assert_eq!(collapsed(""), PathBuf::from(""));
}

#[test]
fn collapsing_twice_is_collapsing_once() {
    for path in ["/a/./b/../c", "/..", "a/../..", "/x/y/z", ""] {
        let once = collapse_dot_components(PathBuf::from(path));
        assert_eq!(collapse_dot_components(once.clone()), once);
    }
}

#[test]
fn the_longest_existing_part_is_kept() {
    let (path, probes) = resolve_among("/a/b/c/d", &["/", "/a", "/a/b"]);
    assert_eq!(path, PathBuf::from("/a/b/c/d"));
    assert_eq!(probes, 3);
    let (path, probes) = resolve_among("/a/b", &["/", "/a", "/a/b"]);
    assert_eq!(path, PathBuf::from("/a/b"));
    assert_eq!(probes, 1);
}

#[test]
fn probing_stops_at_the_root() {
    let (path, probes) = resolve_among("/a/b", &[]);
    assert_eq!(path, PathBuf::from("/a/b"));
    assert_eq!(probes, 3);
}

#[test]
fn the_missing_tail_follows_the_canonical_part() {
    let mut resolver = PathResolver::new(&PathBuf::from("/link/new/file"));
    assert_eq!(resolver.probe(), Some(PathBuf::from("/link/new/file")));
    resolver.answer(false);
    assert_eq!(resolver.probe(), Some(PathBuf::from("/link/new")));
    resolver.answer(false);
    assert_eq!(resolver.probe(), Some(PathBuf::from("/link")));
    resolver.answer(true);
    assert_eq!(resolver.probe(), None);
    assert_eq!(resolver.prefix(), PathBuf::from("/link"));
    assert_eq!(
        resolver.finish(Some(PathBuf::from("/real/target"))),
        PathBuf::from("/real/target/new/file")
    );
}

#[test]
fn resolving_twice_is_resolving_once() {
    let temp = tempfile::TempDir::new().expect("tempdir");
    for path in [
        temp.path().join("a").join("..").join("missing").join("file"),
        temp.path().to_path_buf(),
        PathBuf::from("/../etc"),
        PathBuf::from("/"),
        PathBuf::from("relative/./file"),
    ] {
        let once = resolve_path(&path);
        assert!(once.is_absolute());
        assert_eq!(resolve_path(&once), once);
    }
}

#[test]
fn only_the_empty_path_is_empty() {
    assert!(is_empty_path(&PathBuf::from("")));
    assert!(!is_empty_path(&PathBuf::from(".")));
    assert!(!is_empty_path(&PathBuf::from("/")));
}

#[test]
fn names_outside_ascii_are_kept() {
    let odd = PathBuf::from("/a/b\u{fffd}");
    let mut resolver = PathResolver::new(&odd.join("..").join("c"));
    resolver.answer(false);
    resolver.answer(true);
    assert_eq!(
        resolver.finish(Some(odd.clone())),
        odd.join("c")
    );
}
