use crate::import::{spec_outcome_view, ImportError, ImportErrorView};
use crate::models::WorkItem;
use crate::path::{spec_render, FilePath};
use crossbeam_channel::Receiver;
use dashmap::DashSet;
use std::sync::Arc;
use threadpool::ThreadPool;
use vstd::prelude::*;

verus! {

/// `dashmap::DashSet`, the concurrent hash set that holds the claims. It is
/// shared between the workers and changes under their hands, so nothing is
/// said of what it holds.
#[verifier::external_type_specification]
#[verifier::external_body]
#[verifier::reject_recursive_types(K)]
#[verifier::reject_recursive_types(S)]
pub struct ExDashSet<K, S>(DashSet<K, S>);

/// `DashSet::new`: a set of its own, with nothing in it yet.
#[verifier::external_body]
fn dash_set_new() -> DashSet<String> {
    DashSet::new()
}

/// `DashSet::insert`: puts `key` into the set and tells whether it was
/// absent. Other holders of the set insert and remove meanwhile, so nothing
/// is promised of the answer. The call waits while the caller holds a
/// reference into the set; this library never takes one.
#[verifier::external_body]
fn dash_set_insert(set: &DashSet<String>, key: String) -> bool {
    set.insert(key)
}

/// `DashSet::remove`: takes `key` out of the set and hands back the key that
/// was held, if one was. Nothing is promised of the answer, for the reason
/// given at the insert. The call does not panic: it locks one shard, hashes
/// the string and takes the entry out.
#[verifier::external_body]
fn dash_set_remove(set: &DashSet<String>, key: &String) -> Option<String>
    opens_invariants none
    no_unwind
{
    set.remove(key)
}

/// The paths that some worker is handling at this moment. The workers share
/// the set without a lock and claim and release as they go, so what it
/// holds at one moment says nothing of the next: the answers of its
/// methods are taken as they come.
pub struct ClaimSet {
    paths: DashSet<String>,
}

impl ClaimSet {
    /// A claim set that holds no path.
    pub fn new() -> ClaimSet {
        ClaimSet { paths: dash_set_new() }
    }

    /// Tries to claim `path` for the caller. `true` means that no one held
    /// the path and the caller holds it now, until `release` is called for
    /// it; `false` means that someone else holds it.
    pub fn try_claim(&self, path: &FilePath) -> bool {
        dash_set_insert(&self.paths, path.render())
    }

    /// Gives up the claim on `path`, and tells whether one was held.
    pub fn release(&self, path: &FilePath) -> bool {
        let key = path.render();
        dash_set_remove(&self.paths, &key).is_some()
    }

    /// Tries to claim `path` for the caller. Where the claim is granted it
    /// comes back as a value that stands for it: the path is held for as
    /// long as that value lives, and is given up when it is dropped.
    pub fn claim(&self, path: &FilePath) -> (granted: Option<Claim<'_>>)
        ensures
            granted matches Some(claim) ==> claim.path() == spec_render(path@),
    {
        let key = path.render();
        if dash_set_insert(&self.paths, key.clone()) {
            Some(Claim { claims: self, key })
        } else {
            None
        }
    }
}

/// A claim that was granted. Dropping it gives the path up, also where the
/// holder leaves by a panic.
pub struct Claim<'a> {
    claims: &'a ClaimSet,
    key: String,
}

impl<'a> Claim<'a> {
    /// The text of the path that is held.
    pub closed spec fn path(&self) -> Seq<char> {
        self.key@
    }
}

impl<'a> Drop for Claim<'a> {
    fn drop(&mut self)
        opens_invariants none
        no_unwind
    {
        dash_set_remove(&self.claims.paths, &self.key);
    }
}

/// What is done with a file once a worker holds it, and where the outcome
/// goes. Whoever implements it may say by the two predicates what its
/// methods promise; the pool passes these promises on. Left as they are,
/// the predicates promise nothing.
pub trait FileProcessor {
    /// What `process` promises of a call on `file` and `src_base_dir` that
    /// came back with `outcome`.
    open spec fn spec_processed(
        &self,
        file: Seq<Seq<char>>,
        src_base_dir: Seq<Seq<char>>,
        outcome: Result<bool, ImportErrorView>,
    ) -> bool {
        true
    }

    /// What `report` promises of a call on `file` and `outcome`.
    open spec fn spec_reported(
        &self,
        file: Seq<Seq<char>>,
        outcome: Result<bool, ImportErrorView>,
    ) -> bool {
        true
    }

    /// Handles `file`, which was found under `src_base_dir`.
    fn process(&self, file: &FilePath, src_base_dir: &FilePath) -> (outcome: Result<
        bool,
        ImportError,
    >)
        ensures
            self.spec_processed(file@, src_base_dir@, spec_outcome_view(outcome)),
    ;

    /// Takes note of how the handling of `file` ended.
    fn report(&self, file: &FilePath, outcome: Result<bool, ImportError>)
        ensures
            self.spec_reported(file@, spec_outcome_view(outcome)),
    ;
}

/// How a work item left its worker.
#[derive(Clone, Copy, Debug, PartialEq, Eq, Structural)]
pub enum ItemEnd {
    /// The path was held by another worker: the item was dropped, and
    /// nothing was reported.
    Rejected,
    /// The item was handled, its outcome reported and its claim given up.
    Released,
}

/// The end of an item whose claim was answered with `claimed`.
pub open spec fn spec_item_end(claimed: bool) -> ItemEnd {
    if claimed {
        ItemEnd::Released
    } else {
        ItemEnd::Rejected
    }
}

/// What the workers share: the claim set and the processor.
pub struct FileProcessingResource<P: FileProcessor> {
    in_process: ClaimSet,
    processor: P,
}

impl<P: FileProcessor> FileProcessingResource<P> {
    /// The shared state of a pool with no item in flight, whose items
    /// `processor` handles.
    pub fn new(processor: P) -> (resource: FileProcessingResource<P>)
        ensures
            resource.processor() == processor,
    {
        FileProcessingResource { in_process: ClaimSet::new(), processor }
    }

    /// The processor that handles the items.
    pub closed spec fn processor(&self) -> P {
        self.processor
    }

    /// Handles one work item: claims its path, and where the claim is
    /// granted, processes the file, reports the outcome and gives the claim
    /// up again, whatever the outcome was. An item that ends as released
    /// was processed under its own base directory, and what came of that
    /// was reported.
    pub fn process_file(&self, file: FilePath, drop_src_dir: FilePath) -> (end: ItemEnd)
        ensures
            end == ItemEnd::Released ==> spec_handled(self.processor(), file@, drop_src_dir@),
    {
        let granted = self.in_process.claim(&file);
        self.finish_item(granted, file, drop_src_dir)
    }

    /// The rest of an item's way once its claim was answered. An item whose
    /// claim was granted is processed and reported, and the claim is given up
    /// when it goes out of scope, however the processing ended. An item
    /// without a claim is dropped, and nothing is released for it.
    fn finish_item(&self, granted: Option<Claim<'_>>, file: FilePath, drop_src_dir: FilePath) -> (end:
        ItemEnd)
        requires
            granted matches Some(claim) ==> claim.path() == spec_render(file@),
        ensures
            end == spec_item_end(granted is Some),
            granted is Some ==> spec_handled(self.processor(), file@, drop_src_dir@),
    {
        match granted {
            Some(_held) => {
                let outcome = self.processor.process(&file, &drop_src_dir);
                let ghost seen = spec_outcome_view(outcome);
                self.processor.report(&file, outcome);
                assert(self.processor.spec_processed(file@, drop_src_dir@, seen)
                    && self.processor.spec_reported(file@, seen));
                ItemEnd::Released
            },
            None => ItemEnd::Rejected,
        }
    }
}

/// `file` was processed under `src_base_dir`, and the outcome of that was
/// reported.
pub open spec fn spec_handled<P: FileProcessor>(
    processor: P,
    file: Seq<Seq<char>>,
    src_base_dir: Seq<Seq<char>>,
) -> bool {
    exists|outcome: Result<bool, ImportErrorView>|
        #![trigger processor.spec_reported(file, outcome)]
        processor.spec_processed(file, src_base_dir, outcome) && processor.spec_reported(
            file,
            outcome,
        )
}

/// `crossbeam_channel::Receiver`, the receiving end of the work queue.
#[verifier::external_type_specification]
#[verifier::external_body]
#[verifier::reject_recursive_types(T)]
pub struct ExReceiver<T>(Receiver<T>);

/// `threadpool::ThreadPool`, the worker threads.
#[verifier::external_type_specification]
#[verifier::external_body]
pub struct ExThreadPool(ThreadPool);

/// The number of worker threads that a pool was made with.
pub uninterp spec fn spec_thread_count(pool: ThreadPool) -> nat;

/// `ThreadPool::new`: a pool made with `n_thread` worker threads. The call
/// panics on a pool of no threads, which is left out here. It also panics
/// where the system refuses a new thread, which no argument can rule out.
#[verifier::external_body]
fn thread_pool_new(n_thread: usize) -> (pool: ThreadPool)
    requires
        n_thread > 0,
    ensures
        spec_thread_count(pool) == n_thread,
{
    ThreadPool::new(n_thread)
}

/// `Receiver::recv`: waits for the next item of the queue. `None` stands
/// for the error that the call returns once the queue is empty and every
/// sender is gone. Which of the two comes back lies with the senders.
#[verifier::external_body]
fn receiver_recv(queue: &Receiver<WorkItem>) -> Option<WorkItem> {
    queue.recv().ok()
}

/// `ThreadPool::execute`: hands a job to the pool and comes back at once.
/// The job is one call of `process_file` on the shared resource.
#[verifier::external_body]
fn thread_pool_execute<P: FileProcessor + Send + Sync + 'static>(
    pool: &ThreadPool,
    resource: &Arc<FileProcessingResource<P>>,
    item: WorkItem,
) {
    let resource = resource.clone();
    pool.execute(
        move ||
            {
                resource.process_file(item.file, item.src_base_dir);
            },
    );
}

/// The work queue is empty and no one is left to fill it.
#[derive(Clone, Copy, Debug, PartialEq, Eq, Structural)]
pub struct QueueClosed;

/// Takes work items from the queue and hands each to a pool of workers.
pub struct FileProcessingManager<P: FileProcessor + Send + Sync + 'static> {
    pool: ThreadPool,
    work_queue: Receiver<WorkItem>,
    shared_resource: Arc<FileProcessingResource<P>>,
}

impl<P: FileProcessor + Send + Sync + 'static> FileProcessingManager<P> {
    /// A manager with `n_thread` workers that reads from `recv` and has
    /// `processor` handle and report every item.
    pub fn new(n_thread: usize, recv: Receiver<WorkItem>, processor: P) -> (manager:
        FileProcessingManager<P>)
        requires
            n_thread > 0,
        ensures
            manager.workers() == n_thread,
            manager.work_queue() == recv,
            manager.processor() == processor,
    {
        FileProcessingManager {
            pool: thread_pool_new(n_thread),
            work_queue: recv,
            shared_resource: Arc::new(FileProcessingResource::new(processor)),
        }
    }

    /// The number of workers that the manager's pool was made with.
    pub closed spec fn workers(&self) -> nat {
        spec_thread_count(self.pool)
    }

    /// The queue that the manager reads from.
    pub closed spec fn work_queue(&self) -> Receiver<WorkItem> {
        self.work_queue
    }

    /// The processor that handles the items.
    pub closed spec fn processor(&self) -> P {
        self.shared_resource.processor()
    }

    /// Waits for one item of the queue and hands it to a worker, without
    /// waiting for the worker. It fails once the queue is closed.
    pub fn process_once(&self) -> Result<(), QueueClosed> {
        let received = receiver_recv(&self.work_queue);
        self.dispatch(received)
    }

    /// Hands what came from the queue to a worker: an item is dispatched,
    /// the end of the queue is passed on as the error.
    pub fn dispatch(&self, received: Option<WorkItem>) -> (dispatched: Result<(), QueueClosed>)
        ensures
            dispatched is Ok <==> received is Some,
    {
        match received {
            Some(item) => {
                thread_pool_execute(&self.pool, &self.shared_resource, item);
                Ok(())
            },
            None => Err(QueueClosed),
        }
    }
}

/// A pool of workers seen from outside: the paths that are claimed, and for
/// each worker that is handling an item, the path of that item.
pub struct PoolView {
    pub claims: Set<Seq<char>>,
    pub working: Map<nat, Seq<char>>,
}

/// A pool in which no item is in flight.
pub open spec fn spec_idle_pool() -> PoolView {
    PoolView { claims: Set::empty(), working: Map::empty() }
}

/// Whether `worker` gets the claim on `path`: it does where the path is
/// claimed by no one.
pub open spec fn spec_claim_granted(pool: PoolView, worker: nat, path: Seq<char>) -> bool {
    !pool.claims.contains(path) && !pool.working.dom().contains(worker)
}

/// The pool after the idle worker `worker` has taken an item for `path`
/// from the queue: with the claim granted it is handling the item, without
/// it the item is dropped and nothing has changed.
pub open spec fn spec_accept(pool: PoolView, worker: nat, path: Seq<char>) -> PoolView {
    if spec_claim_granted(pool, worker, path) {
        PoolView { claims: pool.claims.insert(path), working: pool.working.insert(worker, path) }
    } else {
        pool
    }
}

/// The pool after `worker` is through with its item: the claim is given up.
pub open spec fn spec_finish(pool: PoolView, worker: nat) -> PoolView {
    if pool.working.dom().contains(worker) {
        PoolView {
            claims: pool.claims.remove(pool.working[worker]),
            working: pool.working.remove(worker),
        }
    } else {
        pool
    }
}

/// One thing that happens in a pool.
pub enum PoolEvent {
    /// `worker` takes an item for `path` from the queue.
    Accept { worker: nat, path: Seq<char> },
    /// `worker` is through with its item.
    Finish { worker: nat },
}

/// The pool after one event.
pub open spec fn spec_pool_step(pool: PoolView, event: PoolEvent) -> PoolView {
    match event {
        PoolEvent::Accept { worker, path } => spec_accept(pool, worker, path),
        PoolEvent::Finish { worker } => spec_finish(pool, worker),
    }
}

/// The pool after a run of events, in whatever order the workers took
/// their turns.
pub open spec fn spec_pool_after(events: Seq<PoolEvent>) -> PoolView
    decreases events.len(),
{
    if events.len() == 0 {
        spec_idle_pool()
    } else {
        spec_pool_step(spec_pool_after(events.drop_last()), events.last())
    }
}

/// No path is handled by two workers at once, and every path that is being
/// handled is claimed.
pub open spec fn spec_exclusive(pool: PoolView) -> bool {
    &&& forall|w: nat| #[trigger]
        pool.working.dom().contains(w) ==> pool.claims.contains(pool.working[w])
    &&& forall|w1: nat, w2: nat|
        #![trigger pool.working[w1], pool.working[w2]]
        pool.working.dom().contains(w1) && pool.working.dom().contains(w2) && pool.working[w1]
            == pool.working[w2] ==> w1 == w2
}

/// Whatever happens in a pool where no path is handled twice at once, none
/// is afterwards.
pub proof fn lemma_step_keeps_exclusive(pool: PoolView, event: PoolEvent)
    requires
        spec_exclusive(pool),
    ensures
        spec_exclusive(spec_pool_step(pool, event)),
{
}

/// At every moment of every run, however many items for one path are
/// handed out and in whatever order the workers take their turns, at most
/// one worker is handling that path.
pub proof fn lemma_one_worker_per_path(events: Seq<PoolEvent>, w1: nat, w2: nat)
    requires
        spec_pool_after(events).working.dom().contains(w1),
        spec_pool_after(events).working.dom().contains(w2),
        spec_pool_after(events).working[w1] == spec_pool_after(events).working[w2],
    ensures
        w1 == w2,
{
    lemma_pool_is_exclusive(events);
}

/// Every run of events leaves a pool in which no path is handled twice at
/// once.
pub proof fn lemma_pool_is_exclusive(events: Seq<PoolEvent>)
    ensures
        spec_exclusive(spec_pool_after(events)),
    decreases events.len(),
{
    if events.len() > 0 {
        lemma_pool_is_exclusive(events.drop_last());
        lemma_step_keeps_exclusive(spec_pool_after(events.drop_last()), events.last());
    }
}

/// A path may be handled again once its worker is through with it: the
/// claim that was given up is granted to the next idle worker that asks.
pub proof fn lemma_released_path_can_be_claimed(pool: PoolView, worker: nat, next: nat)
    requires
        spec_exclusive(pool),
        pool.working.dom().contains(worker),
        next == worker || !pool.working.dom().contains(next),
    ensures
        spec_claim_granted(spec_finish(pool, worker), next, pool.working[worker]),
{
}

/// While a worker is handling a path, an item for the same path that any
/// worker takes from the queue is dropped.
pub proof fn lemma_held_path_is_rejected(pool: PoolView, holder: nat, worker: nat)
    requires
        spec_exclusive(pool),
        pool.working.dom().contains(holder),
    ensures
        spec_accept(pool, worker, pool.working[holder]) == pool,
        spec_item_end(spec_claim_granted(pool, worker, pool.working[holder]))
            == ItemEnd::Rejected,
{
}

} // verus!
