use crate::models::{NewProcessedFile, ProcessedFile};
use crate::text::{decimal, spec_decimal};
use vstd::multiset::Multiset;
use vstd::prelude::*;
use vstd::string::*;

verus! {

/// The operations of the processed-file store.
#[derive(Clone, Copy, Debug, PartialEq, Eq, Structural)]
pub enum StoreOperation {
    RunMigrations,
    AddProcessedFile,
    IsPathProcessed,
}

/// The side of the lock over the store that an operation holds while it runs.
/// Holders of the read side run together; the holder of the write side runs
/// alone.
#[derive(Clone, Copy, Debug, PartialEq, Eq, Structural)]
pub enum LockMode {
    Read,
    Write,
}

/// Only a lookup leaves the table as it is, so only a lookup shares the lock.
pub open spec fn spec_lock_mode(operation: StoreOperation) -> LockMode {
    match operation {
        StoreOperation::IsPathProcessed => LockMode::Read,
        StoreOperation::RunMigrations => LockMode::Write,
        StoreOperation::AddProcessedFile => LockMode::Write,
    }
}

/// The side of the lock to take before `operation` locks its connection.
pub fn lock_mode(operation: StoreOperation) -> (mode: LockMode)
    ensures
        mode == spec_lock_mode(operation),
{
    match operation {
        StoreOperation::IsPathProcessed => LockMode::Read,
        StoreOperation::RunMigrations => LockMode::Write,
        StoreOperation::AddProcessedFile => LockMode::Write,
    }
}

/// Who holds the lock over the store: the operations on its read side, and
/// the one on its write side. Operations are told apart by a number.
pub struct LockView {
    pub readers: Set<nat>,
    pub writer: Option<nat>,
}

/// The lock with no holder.
pub open spec fn spec_free_lock() -> LockView {
    LockView { readers: Set::empty(), writer: None }
}

/// Whether the lock can be had on the side `mode`: the read side while no
/// one writes, the write side while no one holds either side.
pub open spec fn spec_lock_granted(lock: LockView, mode: LockMode) -> bool {
    match mode {
        LockMode::Read => lock.writer is None,
        LockMode::Write => lock.writer is None && lock.readers.is_empty(),
    }
}

/// The lock after operation `id`, which runs `operation`, has asked for
/// it: where its side can be had it holds it, else it waits and nothing has
/// changed.
pub open spec fn spec_acquire(lock: LockView, id: nat, operation: StoreOperation) -> LockView {
    if !spec_lock_granted(lock, spec_lock_mode(operation)) || spec_holds(lock, id) {
        lock
    } else {
        match spec_lock_mode(operation) {
            LockMode::Read => LockView { readers: lock.readers.insert(id), ..lock },
            LockMode::Write => LockView { writer: Some(id), ..lock },
        }
    }
}

/// The lock after operation `id` has given up what it held.
pub open spec fn spec_release(lock: LockView, id: nat) -> LockView {
    LockView {
        readers: lock.readers.remove(id),
        writer: if lock.writer == Some(id) {
            None
        } else {
            lock.writer
        },
    }
}

/// Whether operation `id` holds a side of the lock.
pub open spec fn spec_holds(lock: LockView, id: nat) -> bool {
    lock.readers.contains(id) || lock.writer == Some(id)
}

/// A writer holds the lock alone.
pub open spec fn spec_writer_is_alone(lock: LockView) -> bool {
    lock.writer is Some ==> lock.readers.is_empty()
}

/// One thing that happens to the lock.
pub enum LockEvent {
    Acquire { id: nat, operation: StoreOperation },
    Release { id: nat },
}

/// The lock after a run of events.
pub open spec fn spec_lock_after(events: Seq<LockEvent>) -> LockView
    decreases events.len(),
{
    if events.len() == 0 {
        spec_free_lock()
    } else {
        let before = spec_lock_after(events.drop_last());
        match events.last() {
            LockEvent::Acquire { id, operation } => spec_acquire(before, id, operation),
            LockEvent::Release { id } => spec_release(before, id),
        }
    }
}

/// Whatever operations come and go, in whatever order: while an insert or a
/// migration holds the lock no other operation holds it, so writes run one
/// by one and apart from every lookup.
pub proof fn lemma_writes_run_alone(events: Seq<LockEvent>, id: nat, other: nat)
    requires
        spec_lock_after(events).writer == Some(id),
        spec_holds(spec_lock_after(events), other),
    ensures
        other == id,
{
    lemma_writer_is_alone(events);
}

/// After every run of events a writer holds the lock alone.
pub proof fn lemma_writer_is_alone(events: Seq<LockEvent>)
    ensures
        spec_writer_is_alone(spec_lock_after(events)),
    decreases events.len(),
{
    if events.len() > 0 {
        lemma_writer_is_alone(events.drop_last());
    }
}

/// Lookups share the lock: while no one writes, a lookup gets its side
/// however many lookups hold theirs.
pub proof fn lemma_lookups_run_together(lock: LockView, id: nat)
    requires
        lock.writer is None,
        !spec_holds(lock, id),
    ensures
        spec_holds(spec_acquire(lock, id, StoreOperation::IsPathProcessed), id),
        spec_acquire(lock, id, StoreOperation::IsPathProcessed).readers == lock.readers.insert(id),
{
}

/// Why the store could not answer.
#[derive(Clone, Debug, PartialEq, Eq)]
pub enum StoreError {
    /// The lock or a connection could not be had.
    Unavailable { detail: String },
    /// The lookup of `path` failed.
    Lookup { path: String, detail: String },
    /// The insert of `path` failed.
    Insert { path: String, detail: String },
    /// The insert of `path` reported a number of rows other than one.
    InvalidCount { path: String, count: usize },
}

pub enum StoreErrorView {
    Unavailable { detail: Seq<char> },
    Lookup { path: Seq<char>, detail: Seq<char> },
    Insert { path: Seq<char>, detail: Seq<char> },
    InvalidCount { path: Seq<char>, count: usize },
}

impl View for StoreError {
    type V = StoreErrorView;

    open spec fn view(&self) -> StoreErrorView {
        match self {
            StoreError::Unavailable { detail } => StoreErrorView::Unavailable { detail: detail@ },
            StoreError::Lookup { path, detail } => StoreErrorView::Lookup {
                path: path@,
                detail: detail@,
            },
            StoreError::Insert { path, detail } => StoreErrorView::Insert {
                path: path@,
                detail: detail@,
            },
            StoreError::InvalidCount { path, count } => StoreErrorView::InvalidCount {
                path: path@,
                count: *count,
            },
        }
    }
}

/// What a store error says of itself: what was tried, and for which path.
pub open spec fn spec_store_error_message(e: StoreErrorView) -> Seq<char> {
    match e {
        StoreErrorView::Unavailable { detail } => detail,
        StoreErrorView::Lookup { path, detail } => "Error checking file entry exists: "@ + path,
        StoreErrorView::Insert { path, detail } => "Failed to add processed entry to db: "@ + path,
        StoreErrorView::InvalidCount { path, count } => "Failed to add processed entry to db: "@
            + path,
    }
}

/// What lies behind a store error.
pub open spec fn spec_store_error_cause(e: StoreErrorView) -> Option<Seq<char>> {
    match e {
        StoreErrorView::Unavailable { detail } => None,
        StoreErrorView::Lookup { path, detail } => Some(detail),
        StoreErrorView::Insert { path, detail } => Some(detail),
        StoreErrorView::InvalidCount { path, count } => Some(
            "SQL return invalid count when add a processed path: "@ + spec_decimal(count as nat),
        ),
    }
}

impl StoreError {
    /// The message of the error.
    pub fn message(&self) -> (text: String)
        ensures
            text@ == spec_store_error_message(self@),
    {
        match self {
            StoreError::Unavailable { detail } => detail.clone(),
            StoreError::Lookup { path, detail } => {
                let mut text = String::from_str("Error checking file entry exists: ");
                text.append(path.as_str());
                text
            },
            StoreError::Insert { path, detail } => {
                let mut text = String::from_str("Failed to add processed entry to db: ");
                text.append(path.as_str());
                text
            },
            StoreError::InvalidCount { path, count } => {
                let mut text = String::from_str("Failed to add processed entry to db: ");
                text.append(path.as_str());
                text
            },
        }
    }

    /// What lies behind the error: what the store said, or the count that
    /// it should not have reported.
    pub fn cause(&self) -> (text: Option<String>)
        ensures
            match text {
                Some(t) => spec_store_error_cause(self@) == Some(t@),
                None => spec_store_error_cause(self@).is_none(),
            },
    {
        match self {
            StoreError::Unavailable { detail } => None,
            StoreError::Lookup { path, detail } => Some(detail.clone()),
            StoreError::Insert { path, detail } => Some(detail.clone()),
            StoreError::InvalidCount { path, count } => {
                let mut text = String::from_str(
                    "SQL return invalid count when add a processed path: ",
                );
                text.append(decimal(*count).as_str());
                Some(text)
            },
        }
    }
}

/// What came back from the query for one path.
#[derive(Clone, Debug, PartialEq, Eq)]
pub enum LookupReply {
    /// A row with that path.
    Found(ProcessedFile),
    /// No row has that path.
    NotFound,
    /// The query failed.
    Failed { detail: String },
    /// The lock or a connection could not be had.
    Unavailable { detail: String },
}

pub enum LookupReplyView {
    Found(Seq<char>),
    NotFound,
    Failed { detail: Seq<char> },
    Unavailable { detail: Seq<char> },
}

impl View for LookupReply {
    type V = LookupReplyView;

    open spec fn view(&self) -> LookupReplyView {
        match self {
            LookupReply::Found(row) => LookupReplyView::Found(row@),
            LookupReply::NotFound => LookupReplyView::NotFound,
            LookupReply::Failed { detail } => LookupReplyView::Failed { detail: detail@ },
            LookupReply::Unavailable { detail } => LookupReplyView::Unavailable {
                detail: detail@,
            },
        }
    }
}

/// What came back from the insert of one row.
#[derive(Clone, Debug, PartialEq, Eq)]
pub enum InsertReply {
    /// The insert ran and reported this many new rows.
    Inserted { count: usize },
    /// The insert failed.
    Failed { detail: String },
    /// The lock or a connection could not be had.
    Unavailable { detail: String },
}

pub enum InsertReplyView {
    Inserted { count: usize },
    Failed { detail: Seq<char> },
    Unavailable { detail: Seq<char> },
}

impl View for InsertReply {
    type V = InsertReplyView;

    open spec fn view(&self) -> InsertReplyView {
        match self {
            InsertReply::Inserted { count } => InsertReplyView::Inserted { count: *count },
            InsertReply::Failed { detail } => InsertReplyView::Failed { detail: detail@ },
            InsertReply::Unavailable { detail } => InsertReplyView::Unavailable {
                detail: detail@,
            },
        }
    }
}

/// Whether `path` is recorded, as the reply to its lookup tells: a row means
/// yes, no row means no, and anything else is an error that names the path.
pub open spec fn spec_is_path_processed(path: Seq<char>, reply: LookupReplyView) -> Result<
    bool,
    StoreErrorView,
> {
    match reply {
        LookupReplyView::Found(_) => Ok(true),
        LookupReplyView::NotFound => Ok(false),
        LookupReplyView::Failed { detail } => Err(StoreErrorView::Lookup { path, detail }),
        LookupReplyView::Unavailable { detail } => Err(StoreErrorView::Unavailable { detail }),
    }
}

/// Whether the row was recorded, as the reply to its insert tells: exactly
/// one new row is success, any other count is an inconsistency.
pub open spec fn spec_add_processed_file(path: Seq<char>, reply: InsertReplyView) -> Result<
    (),
    StoreErrorView,
> {
    match reply {
        InsertReplyView::Inserted { count } => if count == 1 {
            Ok(())
        } else {
            Err(StoreErrorView::InvalidCount { path, count })
        },
        InsertReplyView::Failed { detail } => Err(StoreErrorView::Insert { path, detail }),
        InsertReplyView::Unavailable { detail } => Err(StoreErrorView::Unavailable { detail }),
    }
}

/// Reads the reply to the lookup of `path`.
pub fn is_path_processed(path: &String, reply: LookupReply) -> (processed: Result<
    bool,
    StoreError,
>)
    ensures
        match processed {
            Ok(found) => spec_is_path_processed(path@, reply@) == Ok::<bool, StoreErrorView>(
                found,
            ),
            Err(e) => spec_is_path_processed(path@, reply@) == Err::<bool, StoreErrorView>(e@),
        },
{
    match reply {
        LookupReply::Found(_) => Ok(true),
        LookupReply::NotFound => Ok(false),
        LookupReply::Failed { detail } => Err(StoreError::Lookup { path: path.clone(), detail }),
        LookupReply::Unavailable { detail } => Err(StoreError::Unavailable { detail }),
    }
}

/// Reads the reply to the insert of `entry`.
pub fn add_processed_file(entry: &NewProcessedFile, reply: InsertReply) -> (added: Result<
    (),
    StoreError,
>)
    ensures
        match added {
            Ok(_) => spec_add_processed_file(entry@, reply@) == Ok::<(), StoreErrorView>(()),
            Err(e) => spec_add_processed_file(entry@, reply@) == Err::<(), StoreErrorView>(e@),
        },
{
    match reply {
        InsertReply::Inserted { count } => {
            if count == 1 {
                Ok(())
            } else {
                Err(StoreError::InvalidCount { path: entry.file_path.clone(), count })
            }
        },
        InsertReply::Failed { detail } => Err(
            StoreError::Insert { path: entry.file_path.clone(), detail },
        ),
        InsertReply::Unavailable { detail } => Err(StoreError::Unavailable { detail }),
    }
}

/// The reply of a sound store that holds `rows` to the lookup of `path`.
pub open spec fn spec_lookup_in(rows: Multiset<Seq<char>>, path: Seq<char>) -> LookupReplyView {
    if rows.count(path) > 0 {
        LookupReplyView::Found(path)
    } else {
        LookupReplyView::NotFound
    }
}

/// The rows of a store after one row with `path` was inserted.
pub open spec fn spec_rows_after_insert(rows: Multiset<Seq<char>>, path: Seq<char>) -> Multiset<
    Seq<char>,
> {
    rows.insert(path)
}

/// A path that no row holds is not processed; once one row with it has been
/// inserted it is, and no other path's answer has changed.
pub proof fn lemma_recorded_after_insert(
    rows: Multiset<Seq<char>>,
    path: Seq<char>,
    other: Seq<char>,
)
    requires
        rows.count(path) == 0,
        other != path,
    ensures
        spec_is_path_processed(path, spec_lookup_in(rows, path)) == Ok::<bool, StoreErrorView>(
            false,
        ),
        spec_is_path_processed(path, spec_lookup_in(spec_rows_after_insert(rows, path), path))
            == Ok::<bool, StoreErrorView>(true),
        spec_lookup_in(spec_rows_after_insert(rows, path), other) == spec_lookup_in(rows, other),
{
}

} // verus!
