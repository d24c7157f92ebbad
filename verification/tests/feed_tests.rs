use shoko_external_importer::feed::{
    extension, feed_plan, is_media_file, watch_decision, EventKind, FeedDecision, FeedPlan,
};
use shoko_external_importer::models::WorkItem;
use shoko_external_importer::path::FilePath;

fn path(parts: &[&str]) -> FilePath {
    FilePath::new(parts.iter().map(|p| p.to_string()).collect())
}

#[test]
fn extension_follows_the_last_dot() {
    assert_eq!(extension("ep1.mkv"), Some("mkv".to_string()));
    assert_eq!(extension("ep1.part.MKV"), Some("MKV".to_string()));
    assert_eq!(extension("archive.tar.gz"), Some("gz".to_string()));
    assert_eq!(extension("第1話.mkv"), Some("mkv".to_string()));
}

#[test]
fn extension_may_be_empty() {
    assert_eq!(extension("ep1."), Some("".to_string()));
}

#[test]
fn names_without_extension() {
    assert_eq!(extension("ep1"), None);
    assert_eq!(extension(""), None);
    assert_eq!(extension(".mkv"), None);
    assert_eq!(extension(".hidden"), None);
}

#[test]
fn hidden_file_with_extension() {
    assert_eq!(extension(".hidden.mkv"), Some("mkv".to_string()));
}

#[test]
fn media_files_end_in_mkv() {
    assert!(is_media_file(&path(&["/", "src", "show", "ep1.mkv"])));
    assert!(is_media_file(&path(&["/", "src", "ep1.MKV"])));
    assert!(is_media_file(&path(&["ep1.mKv"])));
    assert!(is_media_file(&path(&["/", "src", "a.b.Mkv"])));
}

#[test]
fn other_files_are_no_media_files() {
    assert!(!is_media_file(&path(&["/", "src", "ep1.mp4"])));
    assert!(!is_media_file(&path(&["/", "src", "ep1.mkv.part"])));
    assert!(!is_media_file(&path(&["/", "src", "ep1"])));
    assert!(!is_media_file(&path(&["/", "src", ".mkv"])));
    assert!(!is_media_file(&path(&["/", "src", "ep1.mkvx"])));
    assert!(!is_media_file(&path(&["/", "src", "ep1.mk"])));
    assert!(!is_media_file(&path(&["/", "src.mkv", "ep1"])));
}

#[test]
fn paths_without_file_name_are_no_media_files() {
    assert!(!is_media_file(&path(&[])));
    assert!(!is_media_file(&path(&["/"])));
    assert!(!is_media_file(&path(&["."])));
    assert!(!is_media_file(&path(&["/", "src", ".."])));
}

#[test]
fn settled_media_file_is_enqueued() {
    let decision = watch_decision(
        EventKind::Any,
        path(&["/", "src", "show", "ep1.mkv"]),
        true,
        &path(&["/", "src"]),
    );
    assert_eq!(
        decision,
        FeedDecision::Enqueue(WorkItem {
            file: path(&["/", "src", "show", "ep1.mkv"]),
            src_base_dir: path(&["/", "src"]),
        })
    );
}

#[test]
fn other_notices_are_ignored() {
    let base = path(&["/", "src"]);
    assert_eq!(
        watch_decision(EventKind::AnyContinuous, path(&["/", "src", "ep1.mkv"]), true, &base),
        FeedDecision::Continuous
    );
    assert_eq!(
        watch_decision(EventKind::Any, path(&["/", "src", "ep1.mkv"]), false, &base),
        FeedDecision::NotAFile
    );
    assert_eq!(
        watch_decision(EventKind::Any, path(&["/", "src", "ep1.nfo"]), true, &base),
        FeedDecision::NotMedia
    );
    assert_eq!(
        watch_decision(EventKind::Any, path(&["/", "src", "ep1"]), true, &base),
        FeedDecision::NotMedia
    );
    assert_eq!(
        watch_decision(EventKind::AnyContinuous, path(&["/", "src", "ep1.nfo"]), false, &base),
        FeedDecision::Continuous
    );
    assert_eq!(
        watch_decision(EventKind::Any, path(&["/", "src", "ep1.nfo"]), false, &base),
        FeedDecision::NotAFile
    );
}

#[test]
fn feeds_of_each_mode() {
    assert_eq!(feed_plan(false, false), FeedPlan { scan: true, watch: false });
    assert_eq!(feed_plan(false, true), FeedPlan { scan: true, watch: false });
    assert_eq!(feed_plan(true, false), FeedPlan { scan: false, watch: true });
    assert_eq!(feed_plan(true, true), FeedPlan { scan: true, watch: true });
}

#[test]
fn scan_looks_for_mkv_files_at_any_depth() {
    assert_eq!(shoko_external_importer::feed::scan_pattern(), "**/*.[mM][kK][vV]");
    let found = globmatch::Builder::new(shoko_external_importer::feed::scan_pattern())
        .build_glob()
        .unwrap();
    assert!(found.is_match("show/ep1.mkv"));
    assert!(found.is_match("show/season/ep1.MKV"));
    assert!(!found.is_match("show/ep1.mp4"));
}
