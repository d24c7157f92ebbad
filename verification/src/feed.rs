use crate::models::{WorkItem, WorkItemView};
use crate::path::{root_component, FilePath};
use vstd::prelude::*;
use vstd::string::*;

verus! {

/// The position of the last dot in a name.
pub open spec fn spec_last_dot(name: Seq<char>) -> Option<int>
    decreases name.len(),
{
    if name.len() == 0 {
        None
    } else if name.last() == '.' {
        Some(name.len() - 1)
    } else {
        spec_last_dot(name.drop_last())
    }
}

/// The extension of a file name: what follows its last dot. A name without
/// a dot has none, nor has one whose only dot is its first character.
pub open spec fn spec_extension(name: Seq<char>) -> Option<Seq<char>> {
    match spec_last_dot(name) {
        None => None,
        Some(dot) => if dot == 0 {
            None
        } else {
            Some(name.skip(dot + 1))
        },
    }
}

/// The name of the file that a path ends in. A path that ends in the root,
/// in `.` or in `..` names no file.
pub open spec fn spec_file_name(path: Seq<Seq<char>>) -> Option<Seq<char>> {
    if path.len() == 0 || path.last() == root_component() || path.last() == seq!['.']
        || path.last() == seq!['.', '.'] {
        None
    } else {
        Some(path.last())
    }
}

/// Whether an extension is `mkv`, in capitals or not.
pub open spec fn spec_is_mkv(ext: Seq<char>) -> bool {
    &&& ext.len() == 3
    &&& (ext[0] == 'm' || ext[0] == 'M')
    &&& (ext[1] == 'k' || ext[1] == 'K')
    &&& (ext[2] == 'v' || ext[2] == 'V')
}

/// Whether a path names a media file: one whose extension is `mkv`.
pub open spec fn spec_is_media_file(path: Seq<Seq<char>>) -> bool {
    match spec_file_name(path) {
        None => false,
        Some(name) => match spec_extension(name) {
            None => false,
            Some(ext) => spec_is_mkv(ext),
        },
    }
}

/// The last dot of a name is a dot, and none follows it.
pub proof fn lemma_last_dot(name: Seq<char>)
    ensures
        match spec_last_dot(name) {
            Some(dot) => 0 <= dot < name.len() && name[dot] == '.' && forall|k: int|
                dot < k < name.len() ==> name[k] != '.',
            None => forall|k: int| 0 <= k < name.len() ==> name[k] != '.',
        },
    decreases name.len(),
{
    if name.len() > 0 && name.last() != '.' {
        let front = name.drop_last();
        lemma_last_dot(front);
        assert forall|k: int| 0 <= k < front.len() implies front[k] == name[k] by {}
    }
}

/// The extension of a file name, where it has one.
pub fn extension(name: &str) -> (ext: Option<String>)
    ensures
        match ext {
            Some(e) => spec_extension(name@) == Some(e@),
            None => spec_extension(name@).is_none(),
        },
{
    let n: usize = name.unicode_len();
    let mut i: usize = n;
    while i > 0
        invariant
            i <= n,
            n == name@.len(),
            forall|k: int| i <= k < n ==> name@[k] != '.',
        decreases i,
    {
        if name.get_char(i - 1) == '.' {
            proof {
                lemma_last_dot(name@);
            }
            if i == 1 {
                return None;
            }
            return Some(String::from_str(name.substring_char(i, n)));
        }
        i = i - 1;
    }
    proof {
        lemma_last_dot(name@);
    }
    None
}

/// Whether `path` names a media file.
pub fn is_media_file(path: &FilePath) -> (media: bool)
    ensures
        media == spec_is_media_file(path@),
{
    let n: usize = path.components.len();
    if n == 0 {
        return false;
    }
    let name = path.components[n - 1].as_str();
    let len: usize = name.unicode_len();
    if len == 1 && (name.get_char(0) == '/' || name.get_char(0) == '.') {
        assert(name@ =~= seq![name@[0]]);
        return false;
    }
    if len == 2 && name.get_char(0) == '.' && name.get_char(1) == '.' {
        return false;
    }
    match extension(name) {
        None => false,
        Some(ext) => {
            let e = ext.as_str();
            if e.unicode_len() != 3 {
                return false;
            }
            let c0 = e.get_char(0);
            let c1 = e.get_char(1);
            let c2 = e.get_char(2);
            (c0 == 'm' || c0 == 'M') && (c1 == 'k' || c1 == 'K') && (c2 == 'v' || c2 == 'V')
        },
    }
}

/// The pattern by which a scan finds the media files below a directory: at
/// any depth, every name that ends in `.mkv`, in capitals or not.
pub fn scan_pattern() -> (pattern: &'static str)
    ensures
        pattern@ == "**/*.[mM][kK][vV]"@,
{
    "**/*.[mM][kK][vV]"
}

/// What a change notice says of its path.
#[derive(Clone, Copy, Debug, PartialEq, Eq, Structural)]
pub enum EventKind {
    /// Something changed, and the path has been quiet since.
    Any,
    /// Changes are still coming in.
    AnyContinuous,
}

/// What becomes of a change notice.
#[derive(Clone, Debug, PartialEq, Eq)]
pub enum FeedDecision {
    /// The file is queued for import.
    Enqueue(WorkItem),
    /// The path does not name a media file.
    NotMedia,
    /// No file is at the path: it was deleted, or it is a directory.
    NotAFile,
    /// The path has not come to rest yet.
    Continuous,
}

pub enum FeedDecisionView {
    Enqueue(WorkItemView),
    NotMedia,
    NotAFile,
    Continuous,
}

impl View for FeedDecision {
    type V = FeedDecisionView;

    open spec fn view(&self) -> FeedDecisionView {
        match self {
            FeedDecision::Enqueue(item) => FeedDecisionView::Enqueue(item@),
            FeedDecision::NotMedia => FeedDecisionView::NotMedia,
            FeedDecision::NotAFile => FeedDecisionView::NotAFile,
            FeedDecision::Continuous => FeedDecisionView::Continuous,
        }
    }
}

/// A notice leads to an import where the path has come to rest, a file is
/// there, and it is a media file.
pub open spec fn spec_watch_decision(
    kind: EventKind,
    path: Seq<Seq<char>>,
    is_file: bool,
    src_base_dir: Seq<Seq<char>>,
) -> FeedDecisionView {
    if kind != EventKind::Any {
        FeedDecisionView::Continuous
    } else if !is_file {
        FeedDecisionView::NotAFile
    } else if !spec_is_media_file(path) {
        FeedDecisionView::NotMedia
    } else {
        FeedDecisionView::Enqueue(WorkItemView { file: path, src_base_dir })
    }
}

/// Decides what becomes of a change notice for `path` under the watched
/// directory `src_base_dir`; `is_file` tells whether a file is at the path
/// now.
pub fn watch_decision(
    kind: EventKind,
    path: FilePath,
    is_file: bool,
    src_base_dir: &FilePath,
) -> (decision: FeedDecision)
    ensures
        decision@ == spec_watch_decision(kind, path@, is_file, src_base_dir@),
{
    match kind {
        EventKind::AnyContinuous => FeedDecision::Continuous,
        EventKind::Any => {
            if !is_file {
                FeedDecision::NotAFile
            } else if !is_media_file(&path) {
                FeedDecision::NotMedia
            } else {
                FeedDecision::Enqueue(WorkItem { file: path, src_base_dir: src_base_dir.clone() })
            }
        },
    }
}

/// Which feeds a run starts.
#[derive(Clone, Copy, Debug, PartialEq, Eq, Structural)]
pub struct FeedPlan {
    /// The watched directories are scanned once.
    pub scan: bool,
    /// The watched directories are watched for changes.
    pub watch: bool,
}

/// A run that is no daemon scans; a daemon watches, and scans first only
/// where it is asked to.
pub open spec fn spec_feed_plan(daemon: bool, init_run: bool) -> FeedPlan {
    FeedPlan { scan: !daemon || init_run, watch: daemon }
}

/// The feeds for a run.
pub fn feed_plan(daemon: bool, init_run: bool) -> (plan: FeedPlan)
    ensures
        plan == spec_feed_plan(daemon, init_run),
{
    FeedPlan { scan: !daemon || init_run, watch: daemon }
}

} // verus!
