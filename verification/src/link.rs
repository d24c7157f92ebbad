use crate::path::{
    root_component, spec_is_absolute, spec_parent, spec_render, spec_starts_with, FilePath,
};
use vstd::prelude::*;
use vstd::string::*;

verus! {

/// What has to happen on disk to link one source file into the destination
/// tree: every missing directory down to `dst_parent_dir` is created, then
/// `dst_file` becomes a hard link to `src_file`.
#[derive(Clone, Debug, PartialEq, Eq)]
pub struct LinkPlan {
    pub src_file: FilePath,
    pub dst_file: FilePath,
    pub dst_parent_dir: FilePath,
}

pub struct LinkPlanView {
    pub src_file: Seq<Seq<char>>,
    pub dst_file: Seq<Seq<char>>,
    pub dst_parent_dir: Seq<Seq<char>>,
}

impl View for LinkPlan {
    type V = LinkPlanView;

    open spec fn view(&self) -> LinkPlanView {
        LinkPlanView {
            src_file: self.src_file@,
            dst_file: self.dst_file@,
            dst_parent_dir: self.dst_parent_dir@,
        }
    }
}

/// Why a file could not be linked.
#[derive(Clone, Debug, PartialEq, Eq)]
pub enum LinkError {
    /// The source file does not lie under the source base directory.
    StripPrefix { src_base_dir: FilePath, src_file: FilePath },
    /// The destination has no directory that could hold it.
    NoParent { dst_file: FilePath },
    /// The destination directory could not be created.
    CreateDir { dir: FilePath, detail: String },
    /// The hard link could not be created.
    HardLink { src_file: FilePath, dst_file: FilePath, detail: String },
}

pub enum LinkErrorView {
    StripPrefix { src_base_dir: Seq<Seq<char>>, src_file: Seq<Seq<char>> },
    NoParent { dst_file: Seq<Seq<char>> },
    CreateDir { dir: Seq<Seq<char>>, detail: Seq<char> },
    HardLink { src_file: Seq<Seq<char>>, dst_file: Seq<Seq<char>>, detail: Seq<char> },
}

impl View for LinkError {
    type V = LinkErrorView;

    open spec fn view(&self) -> LinkErrorView {
        match self {
            LinkError::StripPrefix { src_base_dir, src_file } => LinkErrorView::StripPrefix {
                src_base_dir: src_base_dir@,
                src_file: src_file@,
            },
            LinkError::NoParent { dst_file } => LinkErrorView::NoParent { dst_file: dst_file@ },
            LinkError::CreateDir { dir, detail } => LinkErrorView::CreateDir {
                dir: dir@,
                detail: detail@,
            },
            LinkError::HardLink { src_file, dst_file, detail } => LinkErrorView::HardLink {
                src_file: src_file@,
                dst_file: dst_file@,
                detail: detail@,
            },
        }
    }
}

/// What a link error says of itself.
pub open spec fn spec_link_error_message(e: LinkErrorView) -> Seq<char> {
    match e {
        LinkErrorView::StripPrefix { src_base_dir, src_file } => "Fail to strip path "@
            + spec_render(src_base_dir) + " from path "@ + spec_render(src_file),
        LinkErrorView::NoParent { dst_file } => "Invalid parent path for file path: "@
            + spec_render(dst_file),
        LinkErrorView::CreateDir { dir, detail } => "Cannot create directory at path: "@
            + spec_render(dir),
        LinkErrorView::HardLink { src_file, dst_file, detail } => "Failed to hardlink from "@
            + spec_render(src_file) + " to "@ + spec_render(dst_file),
    }
}

/// What lies behind a link error, where it was passed on from the disk.
pub open spec fn spec_link_error_cause(e: LinkErrorView) -> Option<Seq<char>> {
    match e {
        LinkErrorView::StripPrefix { .. } => None,
        LinkErrorView::NoParent { .. } => None,
        LinkErrorView::CreateDir { dir, detail } => Some(detail),
        LinkErrorView::HardLink { src_file, dst_file, detail } => Some(detail),
    }
}

impl LinkError {
    /// The message of the error: what was tried, and on which paths.
    pub fn message(&self) -> (text: String)
        ensures
            text@ == spec_link_error_message(self@),
    {
        match self {
            LinkError::StripPrefix { src_base_dir, src_file } => {
                let mut text = String::from_str("Fail to strip path ");
                text.append(src_base_dir.render().as_str());
                text.append(" from path ");
                text.append(src_file.render().as_str());
                text
            },
            LinkError::NoParent { dst_file } => {
                let mut text = String::from_str("Invalid parent path for file path: ");
                text.append(dst_file.render().as_str());
                text
            },
            LinkError::CreateDir { dir, detail } => {
                let mut text = String::from_str("Cannot create directory at path: ");
                text.append(dir.render().as_str());
                text
            },
            LinkError::HardLink { src_file, dst_file, detail } => {
                let mut text = String::from_str("Failed to hardlink from ");
                text.append(src_file.render().as_str());
                text.append(" to ");
                text.append(dst_file.render().as_str());
                text
            },
        }
    }

    /// What the disk said, where the error was passed on from it.
    pub fn cause(&self) -> (text: Option<String>)
        ensures
            match text {
                Some(t) => spec_link_error_cause(self@) == Some(t@),
                None => spec_link_error_cause(self@).is_none(),
            },
    {
        match self {
            LinkError::StripPrefix { .. } => None,
            LinkError::NoParent { .. } => None,
            LinkError::CreateDir { dir, detail } => Some(detail.clone()),
            LinkError::HardLink { src_file, dst_file, detail } => Some(detail.clone()),
        }
    }
}

/// `file` is a descendant of `base`: it has the components of `base` and at
/// least one more, and what follows `base` does not begin at the root
/// again. A directory is no descendant of itself.
pub open spec fn spec_is_descendant(file: Seq<Seq<char>>, base: Seq<Seq<char>>) -> bool {
    &&& spec_starts_with(file, base)
    &&& file.len() > base.len()
    &&& !spec_is_absolute(file.skip(base.len() as int))
}

/// The plan for linking `src_file`, found under `src_base_dir`, into the tree
/// at `dst_base_dir`: the destination is the destination base followed by the
/// source file's path relative to its own base. A file that is no
/// descendant of its base has no plan.
pub open spec fn spec_link_file(
    src_base_dir: Seq<Seq<char>>,
    src_file: Seq<Seq<char>>,
    dst_base_dir: Seq<Seq<char>>,
) -> Result<LinkPlanView, LinkErrorView> {
    if !spec_is_descendant(src_file, src_base_dir) {
        Err(LinkErrorView::StripPrefix { src_base_dir, src_file })
    } else {
        let dst_file = dst_base_dir + src_file.skip(src_base_dir.len() as int);
        match spec_parent(dst_file) {
            None => Err(LinkErrorView::NoParent { dst_file }),
            Some(dst_parent_dir) => Ok(LinkPlanView { src_file, dst_file, dst_parent_dir }),
        }
    }
}

/// Works out where `src_file` is to be linked. Nothing on disk is touched:
/// the plan that comes back says which directory to create and which link to
/// make. It fails where the source file is no descendant of its base
/// directory, which the base directory itself is not, and where the
/// destination has no parent directory.
pub fn link_file(src_base_dir: &FilePath, src_file: &FilePath, dst_base_dir: &FilePath) -> (planned:
    Result<LinkPlan, LinkError>)
    ensures
        match planned {
            Ok(plan) => spec_link_file(src_base_dir@, src_file@, dst_base_dir@) == Ok::<
                LinkPlanView,
                LinkErrorView,
            >(plan@),
            Err(e) => spec_link_file(src_base_dir@, src_file@, dst_base_dir@) == Err::<
                LinkPlanView,
                LinkErrorView,
            >(e@),
        },
        !spec_starts_with(src_file@, src_base_dir@) || src_file@.len() == src_base_dir@.len()
            ==> planned is Err,
        planned is Ok ==> spec_is_descendant(src_file@, src_base_dir@),
{
    match src_file.strip_prefix(src_base_dir) {
        None => Err(
            LinkError::StripPrefix {
                src_base_dir: src_base_dir.clone(),
                src_file: src_file.clone(),
            },
        ),
        Some(relative) => {
            if relative.len() == 0 || relative.is_absolute() {
                return Err(
                    LinkError::StripPrefix {
                        src_base_dir: src_base_dir.clone(),
                        src_file: src_file.clone(),
                    },
                );
            }
            let dst_file = dst_base_dir.join(&relative);
            match dst_file.parent() {
                None => Err(LinkError::NoParent { dst_file }),
                Some(dst_parent_dir) => Ok(
                    LinkPlan { src_file: src_file.clone(), dst_file, dst_parent_dir },
                ),
            }
        },
    }
}

/// A file that is no descendant of its base directory is never linked:
/// neither one that lies elsewhere nor the base directory itself.
pub proof fn lemma_outside_base_is_refused(
    src_base_dir: Seq<Seq<char>>,
    src_file: Seq<Seq<char>>,
    dst_base_dir: Seq<Seq<char>>,
)
    requires
        !spec_starts_with(src_file, src_base_dir) || src_file == src_base_dir,
    ensures
        spec_link_file(src_base_dir, src_file, dst_base_dir) == Err::<LinkPlanView, LinkErrorView>(
            LinkErrorView::StripPrefix { src_base_dir, src_file },
        ),
{
}

/// The destination mirrors the source: a file found at `relative` below its
/// base directory is linked at `relative` below the destination directory,
/// inside the directory that `relative` without its last component names.
pub proof fn lemma_destination_mirrors_source(
    src_base_dir: Seq<Seq<char>>,
    relative: Seq<Seq<char>>,
    dst_base_dir: Seq<Seq<char>>,
)
    requires
        relative.len() > 0,
        !spec_is_absolute(relative),
        relative.last() != root_component(),
    ensures
        spec_link_file(src_base_dir, src_base_dir + relative, dst_base_dir) == Ok::<
            LinkPlanView,
            LinkErrorView,
        >(
            LinkPlanView {
                src_file: src_base_dir + relative,
                dst_file: dst_base_dir + relative,
                dst_parent_dir: dst_base_dir + relative.drop_last(),
            },
        ),
{
    let src_file = src_base_dir + relative;
    assert(src_file.take(src_base_dir.len() as int) =~= src_base_dir);
    assert(src_file.skip(src_base_dir.len() as int) =~= relative);
    let dst_file = dst_base_dir + relative;
    assert(dst_file.drop_last() =~= dst_base_dir + relative.drop_last());
}

/// A plan never leaves the destination tree: what it links lies below the
/// destination directory, and the directory it creates lies at or below it.
pub proof fn lemma_plan_stays_in_destination(
    src_base_dir: Seq<Seq<char>>,
    src_file: Seq<Seq<char>>,
    dst_base_dir: Seq<Seq<char>>,
)
    requires
        spec_link_file(src_base_dir, src_file, dst_base_dir) is Ok,
    ensures
        spec_is_descendant(
            spec_link_file(src_base_dir, src_file, dst_base_dir)->Ok_0.dst_file,
            dst_base_dir,
        ),
        spec_starts_with(
            spec_link_file(src_base_dir, src_file, dst_base_dir)->Ok_0.dst_parent_dir,
            dst_base_dir,
        ),
{
    let relative = src_file.skip(src_base_dir.len() as int);
    let dst_file = dst_base_dir + relative;
    assert(dst_file.take(dst_base_dir.len() as int) =~= dst_base_dir);
    assert(dst_file.skip(dst_base_dir.len() as int) =~= relative);
    assert(dst_file.drop_last().take(dst_base_dir.len() as int) =~= dst_base_dir);
}

} // verus!
