use crate::path::FilePath;
use vstd::prelude::*;

verus! {

/// One row of the processed-file table: the path of a source file that has
/// already been imported.
#[derive(Clone, Debug, PartialEq, Eq)]
pub struct ProcessedFile {
    pub file_path: String,
}

/// The value handed to the store when a file is recorded as imported.
#[derive(Clone, Debug, PartialEq, Eq)]
pub struct NewProcessedFile {
    pub file_path: String,
}

impl View for ProcessedFile {
    type V = Seq<char>;

    open spec fn view(&self) -> Seq<char> {
        self.file_path@
    }
}

impl View for NewProcessedFile {
    type V = Seq<char>;

    open spec fn view(&self) -> Seq<char> {
        self.file_path@
    }
}

/// One unit of work: a source file and the watched directory under which it
/// was found.
#[derive(Clone, Debug, PartialEq, Eq)]
pub struct WorkItem {
    pub file: FilePath,
    pub src_base_dir: FilePath,
}

pub struct WorkItemView {
    pub file: Seq<Seq<char>>,
    pub src_base_dir: Seq<Seq<char>>,
}

impl View for WorkItem {
    type V = WorkItemView;

    open spec fn view(&self) -> WorkItemView {
        WorkItemView { file: self.file@, src_base_dir: self.src_base_dir@ }
    }
}

} // verus!
