use crate::link::{
    link_file, spec_is_descendant, spec_link_error_cause, spec_link_error_message,
    spec_link_file, LinkError, LinkErrorView, LinkPlan, LinkPlanView,
};
use crate::models::{NewProcessedFile, WorkItem, WorkItemView};
use crate::path::{spec_render, FilePath};
use crate::store::{
    add_processed_file, is_path_processed, spec_add_processed_file, spec_is_path_processed,
    spec_lookup_in, spec_rows_after_insert, spec_store_error_cause, spec_store_error_message,
    InsertReply, InsertReplyView, LookupReply, LookupReplyView, StoreError, StoreErrorView,
};
use vstd::multiset::Multiset;
use vstd::prelude::*;

verus! {

/// Why a file was not imported.
#[derive(Clone, Debug, PartialEq, Eq)]
pub enum ImportError {
    Store(StoreError),
    Link(LinkError),
}

pub enum ImportErrorView {
    Store(StoreErrorView),
    Link(LinkErrorView),
}

impl View for ImportError {
    type V = ImportErrorView;

    open spec fn view(&self) -> ImportErrorView {
        match self {
            ImportError::Store(e) => ImportErrorView::Store(e@),
            ImportError::Link(e) => ImportErrorView::Link(e@),
        }
    }
}

/// What an import error says of itself.
pub open spec fn spec_import_error_message(e: ImportErrorView) -> Seq<char> {
    match e {
        ImportErrorView::Store(e) => spec_store_error_message(e),
        ImportErrorView::Link(e) => spec_link_error_message(e),
    }
}

/// What lies behind an import error.
pub open spec fn spec_import_error_cause(e: ImportErrorView) -> Option<Seq<char>> {
    match e {
        ImportErrorView::Store(e) => spec_store_error_cause(e),
        ImportErrorView::Link(e) => spec_link_error_cause(e),
    }
}

impl ImportError {
    /// The message of the error.
    pub fn message(&self) -> (text: String)
        ensures
            text@ == spec_import_error_message(self@),
    {
        match self {
            ImportError::Store(e) => e.message(),
            ImportError::Link(e) => e.message(),
        }
    }

    /// What lies behind the error, where anything does.
    pub fn cause(&self) -> (text: Option<String>)
        ensures
            match text {
                Some(t) => spec_import_error_cause(self@) == Some(t@),
                None => spec_import_error_cause(self@).is_none(),
            },
    {
        match self {
            ImportError::Store(e) => e.cause(),
            ImportError::Link(e) => e.cause(),
        }
    }
}

/// How the import of one file ended: `Ok(true)` where it was linked and
/// recorded, `Ok(false)` where it had been recorded before and was skipped.
pub open spec fn spec_outcome_view(outcome: Result<bool, ImportError>) -> Result<
    bool,
    ImportErrorView,
> {
    match outcome {
        Ok(imported) => Ok(imported),
        Err(e) => Err(e@),
    }
}

/// Where the import of one file stands. Every state but `Done` names the one
/// request that is to be carried out next; its answer moves the import on.
#[derive(Debug, PartialEq, Eq)]
pub enum ImportState {
    /// Ask the store whether `key` is recorded.
    Lookup { key: String, src_file: FilePath, src_base_dir: FilePath, dst_base_dir: FilePath },
    /// Create `plan.dst_parent_dir` with every directory above it that is
    /// missing.
    CreateDir { plan: LinkPlan },
    /// Make `plan.dst_file` a hard link to `plan.src_file`.
    HardLink { plan: LinkPlan },
    /// Insert `entry` into the store.
    Record { entry: NewProcessedFile },
    /// Nothing is left to do.
    Done { outcome: Result<bool, ImportError> },
}

pub enum ImportStateView {
    Lookup {
        key: Seq<char>,
        src_file: Seq<Seq<char>>,
        src_base_dir: Seq<Seq<char>>,
        dst_base_dir: Seq<Seq<char>>,
    },
    CreateDir { plan: LinkPlanView },
    HardLink { plan: LinkPlanView },
    Record { entry: Seq<char> },
    Done { outcome: Result<bool, ImportErrorView> },
}

impl View for ImportState {
    type V = ImportStateView;

    open spec fn view(&self) -> ImportStateView {
        match self {
            ImportState::Lookup {
                key,
                src_file,
                src_base_dir,
                dst_base_dir,
            } => ImportStateView::Lookup {
                key: key@,
                src_file: src_file@,
                src_base_dir: src_base_dir@,
                dst_base_dir: dst_base_dir@,
            },
            ImportState::CreateDir { plan } => ImportStateView::CreateDir { plan: plan@ },
            ImportState::HardLink { plan } => ImportStateView::HardLink { plan: plan@ },
            ImportState::Record { entry } => ImportStateView::Record { entry: entry@ },
            ImportState::Done { outcome } => ImportStateView::Done {
                outcome: spec_outcome_view(*outcome),
            },
        }
    }
}

/// The answer to a request.
#[derive(Debug, PartialEq, Eq)]
pub enum ImportEvent {
    /// The store answered the lookup.
    Looked(LookupReply),
    /// The directory was created, or could not be.
    DirCreated(Result<(), String>),
    /// The hard link was made, or could not be.
    Linked(Result<(), String>),
    /// The store answered the insert.
    Recorded(InsertReply),
}

pub enum ImportEventView {
    Looked(LookupReplyView),
    DirCreated(Result<(), Seq<char>>),
    Linked(Result<(), Seq<char>>),
    Recorded(InsertReplyView),
}

pub open spec fn spec_io_view(done: Result<(), String>) -> Result<(), Seq<char>> {
    match done {
        Ok(_) => Ok(()),
        Err(detail) => Err(detail@),
    }
}

impl View for ImportEvent {
    type V = ImportEventView;

    open spec fn view(&self) -> ImportEventView {
        match self {
            ImportEvent::Looked(reply) => ImportEventView::Looked(reply@),
            ImportEvent::DirCreated(done) => ImportEventView::DirCreated(spec_io_view(*done)),
            ImportEvent::Linked(done) => ImportEventView::Linked(spec_io_view(*done)),
            ImportEvent::Recorded(reply) => ImportEventView::Recorded(reply@),
        }
    }
}

/// The first state of the import of `item` into `dst_base_dir`: the store
/// is asked for the text of the file's path.
pub open spec fn spec_start(item: WorkItemView, dst_base_dir: Seq<Seq<char>>) -> ImportStateView {
    ImportStateView::Lookup {
        key: spec_render(item.file),
        src_file: item.file,
        src_base_dir: item.src_base_dir,
        dst_base_dir,
    }
}

/// The import decision. A file that the store knows is skipped. One that it
/// does not know is planned, its directory created, the link made and the
/// file recorded, in this order, and the first failure ends the import with
/// nothing further asked. An event that does not answer the pending request
/// changes nothing.
pub open spec fn spec_step(state: ImportStateView, event: ImportEventView) -> ImportStateView {
    match (state, event) {
        (
            ImportStateView::Lookup { key, src_file, src_base_dir, dst_base_dir },
            ImportEventView::Looked(reply),
        ) => match spec_is_path_processed(key, reply) {
            Err(e) => ImportStateView::Done { outcome: Err(ImportErrorView::Store(e)) },
            Ok(true) => ImportStateView::Done { outcome: Ok(false) },
            Ok(false) => match spec_link_file(src_base_dir, src_file, dst_base_dir) {
                Err(e) => ImportStateView::Done { outcome: Err(ImportErrorView::Link(e)) },
                Ok(plan) => ImportStateView::CreateDir { plan },
            },
        },
        (ImportStateView::CreateDir { plan }, ImportEventView::DirCreated(done)) => match done {
            Ok(_) => ImportStateView::HardLink { plan },
            Err(detail) => ImportStateView::Done {
                outcome: Err(
                    ImportErrorView::Link(
                        LinkErrorView::CreateDir { dir: plan.dst_parent_dir, detail },
                    ),
                ),
            },
        },
        (ImportStateView::HardLink { plan }, ImportEventView::Linked(done)) => match done {
            Ok(_) => ImportStateView::Record { entry: spec_render(plan.src_file) },
            Err(detail) => ImportStateView::Done {
                outcome: Err(
                    ImportErrorView::Link(
                        LinkErrorView::HardLink {
                            src_file: plan.src_file,
                            dst_file: plan.dst_file,
                            detail,
                        },
                    ),
                ),
            },
        },
        (ImportStateView::Record { entry }, ImportEventView::Recorded(reply)) => {
            match spec_add_processed_file(entry, reply) {
                Ok(_) => ImportStateView::Done { outcome: Ok(true) },
                Err(e) => ImportStateView::Done { outcome: Err(ImportErrorView::Store(e)) },
            }
        },
        _ => state,
    }
}

impl ImportState {
    /// Begins the import of `item` into the tree at `dst_base_dir`.
    pub fn start(item: WorkItem, dst_base_dir: &FilePath) -> (state: ImportState)
        ensures
            state@ == spec_start(item@, dst_base_dir@),
    {
        let key = item.file.render();
        ImportState::Lookup {
            key,
            src_file: item.file,
            src_base_dir: item.src_base_dir,
            dst_base_dir: dst_base_dir.clone(),
        }
    }

    /// The state after `event` has come in.
    pub fn step(self, event: ImportEvent) -> (next: ImportState)
        ensures
            next@ == spec_step(self@, event@),
    {
        match self {
            ImportState::Lookup { key, src_file, src_base_dir, dst_base_dir } => match event {
                ImportEvent::Looked(reply) => match is_path_processed(&key, reply) {
                    Err(e) => ImportState::Done { outcome: Err(ImportError::Store(e)) },
                    Ok(true) => ImportState::Done { outcome: Ok(false) },
                    Ok(false) => match link_file(&src_base_dir, &src_file, &dst_base_dir) {
                        Err(e) => ImportState::Done { outcome: Err(ImportError::Link(e)) },
                        Ok(plan) => ImportState::CreateDir { plan },
                    },
                },
                _ => ImportState::Lookup { key, src_file, src_base_dir, dst_base_dir },
            },
            ImportState::CreateDir { plan } => match event {
                ImportEvent::DirCreated(Ok(_)) => ImportState::HardLink { plan },
                ImportEvent::DirCreated(Err(detail)) => ImportState::Done {
                    outcome: Err(
                        ImportError::Link(LinkError::CreateDir { dir: plan.dst_parent_dir, detail }),
                    ),
                },
                _ => ImportState::CreateDir { plan },
            },
            ImportState::HardLink { plan } => match event {
                ImportEvent::Linked(Ok(_)) => {
                    let file_path = plan.src_file.render();
                    ImportState::Record { entry: NewProcessedFile { file_path } }
                },
                ImportEvent::Linked(Err(detail)) => ImportState::Done {
                    outcome: Err(
                        ImportError::Link(
                            LinkError::HardLink {
                                src_file: plan.src_file,
                                dst_file: plan.dst_file,
                                detail,
                            },
                        ),
                    ),
                },
                _ => ImportState::HardLink { plan },
            },
            ImportState::Record { entry } => match event {
                ImportEvent::Recorded(reply) => match add_processed_file(&entry, reply) {
                    Ok(_) => ImportState::Done { outcome: Ok(true) },
                    Err(e) => ImportState::Done { outcome: Err(ImportError::Store(e)) },
                },
                _ => ImportState::Record { entry },
            },
            ImportState::Done { outcome } => ImportState::Done { outcome },
        }
    }

    /// Whether the import has ended.
    pub fn is_done(&self) -> (done: bool)
        ensures
            done == (self@ is Done),
    {
        match self {
            ImportState::Done { .. } => true,
            _ => false,
        }
    }
}

/// What imports leave behind: the rows of the store, and the directories
/// and links that were made on disk.
pub struct World {
    pub rows: Multiset<Seq<char>>,
    pub dirs: Set<Seq<Seq<char>>>,
    pub links: Set<Seq<Seq<char>>>,
}

/// The answers that the requests of one import get.
pub struct Replies {
    pub looked: LookupReplyView,
    pub dir_created: Result<(), Seq<char>>,
    pub linked: Result<(), Seq<char>>,
    pub recorded: InsertReplyView,
}

/// The event that answers the request pending in `state`.
pub open spec fn spec_answer(state: ImportStateView, replies: Replies) -> ImportEventView {
    match state {
        ImportStateView::Lookup { .. } => ImportEventView::Looked(replies.looked),
        ImportStateView::CreateDir { .. } => ImportEventView::DirCreated(replies.dir_created),
        ImportStateView::HardLink { .. } => ImportEventView::Linked(replies.linked),
        ImportStateView::Record { .. } => ImportEventView::Recorded(replies.recorded),
        ImportStateView::Done { .. } => ImportEventView::Looked(replies.looked),
    }
}

/// What the request pending in `state` has done once it is answered by
/// `event`: a directory or a link that was made exists, a row whose insert
/// succeeded is there, and nothing else has changed.
pub open spec fn spec_effect(state: ImportStateView, event: ImportEventView, world: World) -> World {
    match (state, event) {
        (ImportStateView::CreateDir { plan }, ImportEventView::DirCreated(Ok(_))) => World {
            dirs: world.dirs.insert(plan.dst_parent_dir),
            ..world
        },
        (ImportStateView::HardLink { plan }, ImportEventView::Linked(Ok(_))) => World {
            links: world.links.insert(plan.dst_file),
            ..world
        },
        (ImportStateView::Record { entry }, ImportEventView::Recorded(reply)) => {
            if spec_add_processed_file(entry, reply) is Ok {
                World { rows: spec_rows_after_insert(world.rows, entry), ..world }
            } else {
                world
            }
        },
        _ => world,
    }
}

/// The import driven for at most `steps` requests, each answered from
/// `replies`.
pub open spec fn spec_run(state: ImportStateView, world: World, replies: Replies, steps: nat) -> (
    ImportStateView,
    World,
)
    decreases steps,
{
    if steps == 0 || state is Done {
        (state, world)
    } else {
        let event = spec_answer(state, replies);
        spec_run(
            spec_step(state, event),
            spec_effect(state, event, world),
            replies,
            (steps - 1) as nat,
        )
    }
}

/// One whole import of `item` into `dst_base_dir`: an import makes at most
/// four requests.
pub open spec fn spec_import(
    item: WorkItemView,
    dst_base_dir: Seq<Seq<char>>,
    world: World,
    replies: Replies,
) -> (ImportStateView, World) {
    spec_run(spec_start(item, dst_base_dir), world, replies, 4)
}

/// The number of requests that an import in `state` may still make.
pub open spec fn spec_requests_left(state: ImportStateView) -> nat {
    match state {
        ImportStateView::Lookup { .. } => 4,
        ImportStateView::CreateDir { .. } => 3,
        ImportStateView::HardLink { .. } => 2,
        ImportStateView::Record { .. } => 1,
        ImportStateView::Done { .. } => 0,
    }
}

/// Whether `event` answers the request pending in `state`.
pub open spec fn spec_answers(state: ImportStateView, event: ImportEventView) -> bool {
    match (state, event) {
        (ImportStateView::Lookup { .. }, ImportEventView::Looked(_)) => true,
        (ImportStateView::CreateDir { .. }, ImportEventView::DirCreated(_)) => true,
        (ImportStateView::HardLink { .. }, ImportEventView::Linked(_)) => true,
        (ImportStateView::Record { .. }, ImportEventView::Recorded(_)) => true,
        _ => false,
    }
}

/// Every answer brings the import nearer to its end, and an event that is
/// no answer leaves it where it was.
pub proof fn lemma_step_progress(state: ImportStateView, event: ImportEventView)
    ensures
        spec_answers(state, event) ==> spec_requests_left(spec_step(state, event))
            < spec_requests_left(state),
        !spec_answers(state, event) ==> spec_step(state, event) == state,
{
}

/// An import whose requests are all answered ends within four of them.
pub proof fn lemma_import_finishes(
    item: WorkItemView,
    dst_base_dir: Seq<Seq<char>>,
    world: World,
    replies: Replies,
)
    ensures
        spec_import(item, dst_base_dir, world, replies).0 is Done,
{
    reveal_with_fuel(spec_run, 5);
}

/// A file that the store holds is skipped: the import ends after the lookup
/// and leaves the store and the disk as they were.
pub proof fn lemma_recorded_file_is_skipped(
    item: WorkItemView,
    dst_base_dir: Seq<Seq<char>>,
    world: World,
    replies: Replies,
)
    requires
        world.rows.count(spec_render(item.file)) > 0,
        replies.looked == spec_lookup_in(world.rows, spec_render(item.file)),
    ensures
        spec_import(item, dst_base_dir, world, replies) == (
            ImportStateView::Done { outcome: Ok(false) },
            world,
        ),
{
    reveal_with_fuel(spec_run, 5);
}

/// An import that ends as imported has made the directory and the link
/// that the plan names, and has added the one row for the file.
pub proof fn lemma_imported_file_is_recorded(
    item: WorkItemView,
    dst_base_dir: Seq<Seq<char>>,
    world: World,
    replies: Replies,
)
    requires
        spec_import(item, dst_base_dir, world, replies).0 == (ImportStateView::Done {
            outcome: Ok(true),
        }),
    ensures
        spec_link_file(item.src_base_dir, item.file, dst_base_dir) is Ok,
        spec_import(item, dst_base_dir, world, replies).1 == (World {
            rows: world.rows.insert(spec_render(item.file)),
            dirs: world.dirs.insert(
                spec_link_file(item.src_base_dir, item.file, dst_base_dir)->Ok_0.dst_parent_dir,
            ),
            links: world.links.insert(
                spec_link_file(item.src_base_dir, item.file, dst_base_dir)->Ok_0.dst_file,
            ),
        }),
{
    reveal_with_fuel(spec_run, 5);
}

/// Running the import of one file twice in a row: where the first run
/// imported the file and the store answers the second lookup truthfully,
/// the second run is skipped and changes nothing.
pub proof fn lemma_second_import_is_skipped(
    item: WorkItemView,
    dst_base_dir: Seq<Seq<char>>,
    world: World,
    first: Replies,
    second: Replies,
)
    requires
        spec_import(item, dst_base_dir, world, first).0 == (ImportStateView::Done {
            outcome: Ok(true),
        }),
        second.looked == spec_lookup_in(
            spec_import(item, dst_base_dir, world, first).1.rows,
            spec_render(item.file),
        ),
    ensures
        spec_import(
            item,
            dst_base_dir,
            spec_import(item, dst_base_dir, world, first).1,
            second,
        ) == (
            ImportStateView::Done { outcome: Ok(false) },
            spec_import(item, dst_base_dir, world, first).1,
        ),
{
    lemma_imported_file_is_recorded(item, dst_base_dir, world, first);
    lemma_recorded_file_is_skipped(
        item,
        dst_base_dir,
        spec_import(item, dst_base_dir, world, first).1,
        second,
    );
}

/// An import that does not end as imported leaves the store as it was, so
/// a file that was not recorded is still found unrecorded, and is looked
/// at again the next time it comes up.
pub proof fn lemma_failed_import_records_nothing(
    item: WorkItemView,
    dst_base_dir: Seq<Seq<char>>,
    world: World,
    replies: Replies,
)
    requires
        spec_import(item, dst_base_dir, world, replies).0 != (ImportStateView::Done {
            outcome: Ok(true),
        }),
    ensures
        spec_import(item, dst_base_dir, world, replies).1.rows == world.rows,
        world.rows.count(spec_render(item.file)) == 0 ==> spec_is_path_processed(
            spec_render(item.file),
            spec_lookup_in(
                spec_import(item, dst_base_dir, world, replies).1.rows,
                spec_render(item.file),
            ),
        ) == Ok::<bool, StoreErrorView>(false),
{
    reveal_with_fuel(spec_run, 5);
}

/// Where the hard link cannot be made, the import of a file that the store
/// does not hold ends with an error, whatever else was answered, and no
/// link and no row is added.
pub proof fn lemma_link_failure_is_reported(
    item: WorkItemView,
    dst_base_dir: Seq<Seq<char>>,
    world: World,
    replies: Replies,
)
    requires
        replies.looked == LookupReplyView::NotFound,
        replies.linked is Err,
    ensures
        (spec_import(item, dst_base_dir, world, replies).0 matches ImportStateView::Done {
            outcome: Err(_),
        }),
        spec_import(item, dst_base_dir, world, replies).1.rows == world.rows,
        spec_import(item, dst_base_dir, world, replies).1.links == world.links,
{
    reveal_with_fuel(spec_run, 5);
}

/// A file that the store does not hold is imported once every request
/// succeeds: also after any number of failed imports, which have left the
/// store as it was.
pub proof fn lemma_unrecorded_file_is_imported(
    item: WorkItemView,
    dst_base_dir: Seq<Seq<char>>,
    world: World,
    replies: Replies,
)
    requires
        world.rows.count(spec_render(item.file)) == 0,
        replies.looked == spec_lookup_in(world.rows, spec_render(item.file)),
        spec_link_file(item.src_base_dir, item.file, dst_base_dir) is Ok,
        replies.dir_created is Ok,
        replies.linked is Ok,
        replies.recorded == (InsertReplyView::Inserted { count: 1 }),
    ensures
        spec_import(item, dst_base_dir, world, replies).0 == (ImportStateView::Done {
            outcome: Ok(true),
        }),
{
    reveal_with_fuel(spec_run, 5);
}

/// A file that is no descendant of its base directory, as the base
/// directory itself, is refused before anything is asked of the disk: no
/// directory and no link is made and no row is added.
pub proof fn lemma_file_outside_base_changes_nothing(
    item: WorkItemView,
    dst_base_dir: Seq<Seq<char>>,
    world: World,
    replies: Replies,
)
    requires
        !spec_is_descendant(item.file, item.src_base_dir),
    ensures
        spec_import(item, dst_base_dir, world, replies).1 == world,
        !(spec_import(item, dst_base_dir, world, replies).0 matches ImportStateView::Done {
            outcome: Ok(true),
        }),
        spec_is_path_processed(spec_render(item.file), replies.looked) == Ok::<
            bool,
            StoreErrorView,
        >(false) ==> spec_import(item, dst_base_dir, world, replies).0 == (ImportStateView::Done {
            outcome: Err(
                ImportErrorView::Link(
                    LinkErrorView::StripPrefix {
                        src_base_dir: item.src_base_dir,
                        src_file: item.file,
                    },
                ),
            ),
        }),
{
    reveal_with_fuel(spec_run, 5);
}

/// Where the plan stands and its directory is there, a hard link that
/// cannot be made ends the import with the error that names the source
/// file and the destination.
pub proof fn lemma_link_failure_names_both_paths(
    item: WorkItemView,
    dst_base_dir: Seq<Seq<char>>,
    world: World,
    replies: Replies,
    detail: Seq<char>,
)
    requires
        replies.looked == LookupReplyView::NotFound,
        spec_link_file(item.src_base_dir, item.file, dst_base_dir) is Ok,
        replies.dir_created is Ok,
        replies.linked == Err::<(), Seq<char>>(detail),
    ensures
        spec_import(item, dst_base_dir, world, replies).0 == (ImportStateView::Done {
            outcome: Err(
                ImportErrorView::Link(
                    LinkErrorView::HardLink {
                        src_file: item.file,
                        dst_file: spec_link_file(
                            item.src_base_dir,
                            item.file,
                            dst_base_dir,
                        )->Ok_0.dst_file,
                        detail,
                    },
                ),
            ),
        }),
        spec_import_error_message(
            ImportErrorView::Link(
                LinkErrorView::HardLink {
                    src_file: item.file,
                    dst_file: spec_link_file(
                        item.src_base_dir,
                        item.file,
                        dst_base_dir,
                    )->Ok_0.dst_file,
                    detail,
                },
            ),
        ) == "Failed to hardlink from "@ + spec_render(item.file) + " to "@ + spec_render(
            spec_link_file(item.src_base_dir, item.file, dst_base_dir)->Ok_0.dst_file,
        ),
{
    reveal_with_fuel(spec_run, 5);
}

/// A failed import is made good by the next one: where the first run did
/// not import a file that the store did not hold, and in the second run the
/// store answers truthfully and every request succeeds, the second run
/// imports the file, the link is there, and the store holds exactly one row
/// for it.
pub proof fn lemma_retry_after_failure_imports(
    item: WorkItemView,
    dst_base_dir: Seq<Seq<char>>,
    world: World,
    first: Replies,
    second: Replies,
)
    requires
        world.rows.count(spec_render(item.file)) == 0,
        spec_import(item, dst_base_dir, world, first).0 != (ImportStateView::Done {
            outcome: Ok(true),
        }),
        second.looked == spec_lookup_in(
            spec_import(item, dst_base_dir, world, first).1.rows,
            spec_render(item.file),
        ),
        spec_link_file(item.src_base_dir, item.file, dst_base_dir) is Ok,
        second.dir_created is Ok,
        second.linked is Ok,
        second.recorded == (InsertReplyView::Inserted { count: 1 }),
    ensures
        spec_import(
            item,
            dst_base_dir,
            spec_import(item, dst_base_dir, world, first).1,
            second,
        ).0 == (ImportStateView::Done { outcome: Ok(true) }),
        spec_import(
            item,
            dst_base_dir,
            spec_import(item, dst_base_dir, world, first).1,
            second,
        ).1.rows.count(spec_render(item.file)) == 1,
        spec_import(
            item,
            dst_base_dir,
            spec_import(item, dst_base_dir, world, first).1,
            second,
        ).1.links.contains(
            spec_link_file(item.src_base_dir, item.file, dst_base_dir)->Ok_0.dst_file,
        ),
{
    let after_first = spec_import(item, dst_base_dir, world, first).1;
    lemma_failed_import_records_nothing(item, dst_base_dir, world, first);
    lemma_unrecorded_file_is_imported(item, dst_base_dir, after_first, second);
    lemma_imported_file_is_recorded(item, dst_base_dir, after_first, second);
}

} // verus!
