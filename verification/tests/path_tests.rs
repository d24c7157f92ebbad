use shoko_external_importer::path::{is_root_component, FilePath};

fn path(parts: &[&str]) -> FilePath {
    FilePath::new(parts.iter().map(|p| p.to_string()).collect())
}

#[test]
fn new_keeps_the_components() {
    let p = FilePath::new(vec!["/".to_string(), "a".to_string()]);
    assert_eq!(p.components, vec!["/".to_string(), "a".to_string()]);
    assert_eq!(p.len(), 2);
    assert_eq!(path(&[]).len(), 0);
}

#[test]
fn clone_is_equal() {
    let p = path(&["/", "a", "b"]);
    assert_eq!(p.clone(), p);
    assert_eq!(path(&[]).clone(), path(&[]));
}

#[test]
fn root_component_is_recognised() {
    assert!(is_root_component("/"));
    assert!(!is_root_component(""));
    assert!(!is_root_component("a"));
    assert!(!is_root_component("//"));
    assert!(!is_root_component("/a"));
}

#[test]
fn absolute_paths_begin_at_the_root() {
    assert!(path(&["/"]).is_absolute());
    assert!(path(&["/", "a"]).is_absolute());
    assert!(!path(&[]).is_absolute());
    assert!(!path(&["a", "/"]).is_absolute());
    assert!(!path(&["a"]).is_absolute());
}

#[test]
fn starts_with_compares_whole_components() {
    let file = path(&["/", "a", "x", "y.mkv"]);
    assert!(file.starts_with(&path(&["/", "a"])));
    assert!(file.starts_with(&path(&["/", "a", "x", "y.mkv"])));
    assert!(file.starts_with(&path(&[])));
    assert!(!file.starts_with(&path(&["/", "a", "x", "y.mkv", "z"])));
    assert!(!file.starts_with(&path(&["/", "b"])));
    assert!(!path(&["/", "ab", "x"]).starts_with(&path(&["/", "a"])));
    assert!(!file.starts_with(&path(&["a"])));
}

#[test]
fn strip_prefix_leaves_the_relative_path() {
    let file = path(&["/", "a", "x", "y.mkv"]);
    assert_eq!(file.strip_prefix(&path(&["/", "a"])), Some(path(&["x", "y.mkv"])));
    assert_eq!(file.strip_prefix(&path(&["/"])), Some(path(&["a", "x", "y.mkv"])));
    assert_eq!(file.strip_prefix(&file.clone()), Some(path(&[])));
    assert_eq!(file.strip_prefix(&path(&[])), Some(file.clone()));
    assert_eq!(file.strip_prefix(&path(&["/", "b"])), None);
    assert_eq!(file.strip_prefix(&path(&["/", "a", "x", "y.mkv", "z"])), None);
    assert_eq!(path(&["/", "ab"]).strip_prefix(&path(&["/", "a"])), None);
}

#[test]
fn join_appends_a_relative_path() {
    assert_eq!(path(&["/", "b"]).join(&path(&["x", "y.mkv"])), path(&["/", "b", "x", "y.mkv"]));
    assert_eq!(path(&["/", "b"]).join(&path(&[])), path(&["/", "b"]));
    assert_eq!(path(&[]).join(&path(&["x"])), path(&["x"]));
}

#[test]
fn join_with_an_absolute_path_gives_that_path() {
    assert_eq!(path(&["/", "b"]).join(&path(&["/", "a", "x"])), path(&["/", "a", "x"]));
    assert_eq!(path(&["/", "b"]).join(&path(&["/"])), path(&["/"]));
}

#[test]
fn parent_drops_the_last_component() {
    assert_eq!(path(&["/", "b", "x", "y.mkv"]).parent(), Some(path(&["/", "b", "x"])));
    assert_eq!(path(&["/", "b"]).parent(), Some(path(&["/"])));
    assert_eq!(path(&["a"]).parent(), Some(path(&[])));
}

#[test]
fn root_and_empty_path_have_no_parent() {
    assert_eq!(path(&["/"]).parent(), None);
    assert_eq!(path(&[]).parent(), None);
}

#[test]
fn render_writes_the_path_text() {
    assert_eq!(path(&["/", "a", "x", "y.mkv"]).render(), "/a/x/y.mkv");
    assert_eq!(path(&["/"]).render(), "/");
    assert_eq!(path(&[]).render(), "");
    assert_eq!(path(&["a"]).render(), "a");
    assert_eq!(path(&["a", "b"]).render(), "a/b");
    assert_eq!(path(&[".", "a"]).render(), "./a");
    assert_eq!(path(&["..", "a"]).render(), "../a");
}

#[test]
fn render_starts_again_at_a_rooted_component() {
    assert_eq!(path(&["a", "/", "b"]).render(), "/b");
    assert_eq!(path(&["a", "/b"]).render(), "/b");
}

#[test]
fn render_adds_no_second_separator() {
    assert_eq!(path(&["a/", "b"]).render(), "a/b");
    assert_eq!(path(&["a", "", "b"]).render(), "a/b");
    assert_eq!(path(&["", "b"]).render(), "b");
    assert_eq!(path(&["a", ""]).render(), "a/");
}

#[test]
fn render_keeps_other_scripts() {
    assert_eq!(path(&["/", "アニメ", "第1話.mkv"]).render(), "/アニメ/第1話.mkv");
}
