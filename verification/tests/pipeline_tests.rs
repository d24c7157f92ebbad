use shoko_external_importer::import::ImportError;
use shoko_external_importer::path::FilePath;
use shoko_external_importer::pipeline::{ClaimSet, FileProcessingResource, FileProcessor, ItemEnd};
use shoko_external_importer::store::StoreError;
use std::sync::atomic::{AtomicUsize, Ordering};
use std::sync::{Arc, Mutex, OnceLock};
use threadpool::ThreadPool;

fn path(parts: &[&str]) -> FilePath {
    FilePath::new(parts.iter().map(|p| p.to_string()).collect())
}

#[test]
fn claim_is_granted_once() {
    let claims = ClaimSet::new();
    let file = path(&["/", "src", "ep1.mkv"]);
    assert!(claims.try_claim(&file));
    assert!(!claims.try_claim(&file));
    assert!(!claims.try_claim(&path(&["/", "src", "ep1.mkv"])));
}

#[test]
fn claims_on_other_paths_are_independent() {
    let claims = ClaimSet::new();
    assert!(claims.try_claim(&path(&["/", "src", "ep1.mkv"])));
    assert!(claims.try_claim(&path(&["/", "src", "ep2.mkv"])));
    assert!(!claims.try_claim(&path(&["/", "src", "ep2.mkv"])));
}

#[test]
fn released_claim_is_granted_again() {
    let claims = ClaimSet::new();
    let file = path(&["/", "src", "ep1.mkv"]);
    assert!(claims.try_claim(&file));
    assert!(claims.release(&file));
    assert!(claims.try_claim(&file));
}

#[test]
fn release_without_claim_changes_nothing() {
    let claims = ClaimSet::new();
    let file = path(&["/", "src", "ep1.mkv"]);
    assert!(!claims.release(&file));
    assert!(claims.try_claim(&file));
    assert!(claims.release(&file));
    assert!(!claims.release(&file));
}

#[test]
fn granted_claim_holds_the_path_while_it_lives() {
    let claims = ClaimSet::new();
    let file = path(&["/", "src", "ep1.mkv"]);
    let held = claims.claim(&file);
    assert!(held.is_some());
    assert!(claims.claim(&file).is_none());
    assert!(!claims.try_claim(&file));
    assert!(claims.claim(&path(&["/", "src", "ep2.mkv"])).is_some());
    drop(held);
    assert!(claims.claim(&file).is_some());
}

#[test]
fn dropped_claim_gives_the_path_up() {
    let claims = ClaimSet::new();
    let file = path(&["/", "src", "ep1.mkv"]);
    {
        let _held = claims.claim(&file).unwrap();
        assert!(!claims.try_claim(&file));
    }
    assert!(claims.try_claim(&file));
    assert!(claims.release(&file));
}

#[test]
fn refused_claim_releases_nothing() {
    let claims = ClaimSet::new();
    let file = path(&["/", "src", "ep1.mkv"]);
    assert!(claims.try_claim(&file));
    let refused = claims.claim(&file);
    assert!(refused.is_none());
    drop(refused);
    assert!(!claims.try_claim(&file));
}

/// Fails by a panic the first time it is asked, and works from then on.
struct Fragile {
    calls: Arc<AtomicUsize>,
    reports: Arc<AtomicUsize>,
}

impl FileProcessor for Fragile {
    fn process(&self, _file: &FilePath, _src_base_dir: &FilePath) -> Result<bool, ImportError> {
        if self.calls.fetch_add(1, Ordering::SeqCst) == 0 {
            panic!("the handler gave way");
        }
        Ok(true)
    }

    fn report(&self, _file: &FilePath, _outcome: Result<bool, ImportError>) {
        self.reports.fetch_add(1, Ordering::SeqCst);
    }
}

#[test]
fn claim_is_released_when_the_handler_panics() {
    let calls = Arc::new(AtomicUsize::new(0));
    let reports = Arc::new(AtomicUsize::new(0));
    let resource = Arc::new(FileProcessingResource::new(Fragile {
        calls: calls.clone(),
        reports: reports.clone(),
    }));
    let pool = ThreadPool::new(1);
    let shared = resource.clone();
    pool.execute(move || {
        shared.process_file(path(&["/", "src", "ep1.mkv"]), path(&["/", "src"]));
    });
    pool.join();
    assert_eq!(pool.panic_count(), 1);
    assert_eq!(calls.load(Ordering::SeqCst), 1);
    assert_eq!(reports.load(Ordering::SeqCst), 0);
    let end = resource.process_file(path(&["/", "src", "ep1.mkv"]), path(&["/", "src"]));
    assert_eq!(end, ItemEnd::Released);
    assert_eq!(reports.load(Ordering::SeqCst), 1);
}

/// Keeps what it was asked to do.
struct Recorder {
    calls: Arc<Mutex<Vec<String>>>,
    outcome: Result<bool, ImportError>,
}

impl FileProcessor for Recorder {
    fn process(&self, file: &FilePath, src_base_dir: &FilePath) -> Result<bool, ImportError> {
        self.calls
            .lock()
            .unwrap()
            .push(format!("process {} {}", file.render(), src_base_dir.render()));
        self.outcome.clone()
    }

    fn report(&self, file: &FilePath, outcome: Result<bool, ImportError>) {
        self.calls.lock().unwrap().push(format!("report {} {:?}", file.render(), outcome));
    }
}

#[test]
fn claimed_item_is_processed_then_reported() {
    let calls = Arc::new(Mutex::new(Vec::new()));
    let resource =
        FileProcessingResource::new(Recorder { calls: calls.clone(), outcome: Ok(true) });
    let end = resource.process_file(path(&["/", "src", "ep1.mkv"]), path(&["/", "src"]));
    assert_eq!(end, ItemEnd::Released);
    assert_eq!(
        *calls.lock().unwrap(),
        vec![
            "process /src/ep1.mkv /src".to_string(),
            "report /src/ep1.mkv Ok(true)".to_string(),
        ]
    );
}

#[test]
fn path_is_handled_again_after_it_was_released() {
    let calls = Arc::new(Mutex::new(Vec::new()));
    let resource =
        FileProcessingResource::new(Recorder { calls: calls.clone(), outcome: Ok(false) });
    for _ in 0..3 {
        let end = resource.process_file(path(&["/", "src", "ep1.mkv"]), path(&["/", "src"]));
        assert_eq!(end, ItemEnd::Released);
    }
    assert_eq!(calls.lock().unwrap().len(), 6);
}

#[test]
fn claim_is_released_after_a_failure() {
    let calls = Arc::new(Mutex::new(Vec::new()));
    let failure = ImportError::Store(StoreError::Unavailable { detail: "timed out".to_string() });
    let resource =
        FileProcessingResource::new(Recorder { calls: calls.clone(), outcome: Err(failure) });
    assert_eq!(
        resource.process_file(path(&["/", "src", "ep1.mkv"]), path(&["/", "src"])),
        ItemEnd::Released
    );
    assert_eq!(
        resource.process_file(path(&["/", "src", "ep1.mkv"]), path(&["/", "src"])),
        ItemEnd::Released
    );
    let calls = calls.lock().unwrap();
    assert_eq!(calls.len(), 4);
    assert!(calls[1].starts_with("report /src/ep1.mkv Err("));
}

/// Hands the file it is handling to the pool once more, while it holds it.
struct Reentrant {
    pool: Arc<OnceLock<Arc<FileProcessingResource<Reentrant>>>>,
    inner: Arc<Mutex<Vec<ItemEnd>>>,
    reports: Arc<AtomicUsize>,
}

impl FileProcessor for Reentrant {
    fn process(&self, file: &FilePath, src_base_dir: &FilePath) -> Result<bool, ImportError> {
        let pool = self.pool.get().unwrap();
        let again = pool.process_file(file.clone(), src_base_dir.clone());
        self.inner.lock().unwrap().push(again);
        Ok(true)
    }

    fn report(&self, _file: &FilePath, _outcome: Result<bool, ImportError>) {
        self.reports.fetch_add(1, Ordering::SeqCst);
    }
}

#[test]
fn item_for_a_held_path_is_dropped_without_report() {
    let slot = Arc::new(OnceLock::new());
    let inner = Arc::new(Mutex::new(Vec::new()));
    let reports = Arc::new(AtomicUsize::new(0));
    let resource = Arc::new(FileProcessingResource::new(Reentrant {
        pool: slot.clone(),
        inner: inner.clone(),
        reports: reports.clone(),
    }));
    assert!(slot.set(resource.clone()).is_ok());
    let end = resource.process_file(path(&["/", "src", "ep1.mkv"]), path(&["/", "src"]));
    assert_eq!(end, ItemEnd::Released);
    assert_eq!(*inner.lock().unwrap(), vec![ItemEnd::Rejected]);
    assert_eq!(reports.load(Ordering::SeqCst), 1);
}

/// Counts how many workers are inside `process` at once.
struct Gauge {
    inside: Arc<AtomicUsize>,
    most: Arc<AtomicUsize>,
    handled: Arc<AtomicUsize>,
}

impl FileProcessor for Gauge {
    fn process(&self, _file: &FilePath, _src_base_dir: &FilePath) -> Result<bool, ImportError> {
        let now = self.inside.fetch_add(1, Ordering::SeqCst) + 1;
        self.most.fetch_max(now, Ordering::SeqCst);
        for _ in 0..20_000 {
            std::hint::spin_loop();
        }
        self.inside.fetch_sub(1, Ordering::SeqCst);
        Ok(true)
    }

    fn report(&self, _file: &FilePath, _outcome: Result<bool, ImportError>) {
        self.handled.fetch_add(1, Ordering::SeqCst);
    }
}

#[test]
fn one_path_is_never_handled_by_two_workers_at_once() {
    let inside = Arc::new(AtomicUsize::new(0));
    let most = Arc::new(AtomicUsize::new(0));
    let handled = Arc::new(AtomicUsize::new(0));
    let resource = Arc::new(FileProcessingResource::new(Gauge {
        inside: inside.clone(),
        most: most.clone(),
        handled: handled.clone(),
    }));
    let released = Arc::new(AtomicUsize::new(0));
    let rejected = Arc::new(AtomicUsize::new(0));
    let pool = ThreadPool::new(8);
    for _ in 0..200 {
        let resource = resource.clone();
        let released = released.clone();
        let rejected = rejected.clone();
        pool.execute(move || {
            match resource.process_file(path(&["/", "src", "ep1.mkv"]), path(&["/", "src"])) {
                ItemEnd::Released => released.fetch_add(1, Ordering::SeqCst),
                ItemEnd::Rejected => rejected.fetch_add(1, Ordering::SeqCst),
            };
        });
    }
    pool.join();
    assert_eq!(most.load(Ordering::SeqCst), 1);
    assert_eq!(inside.load(Ordering::SeqCst), 0);
    assert!(released.load(Ordering::SeqCst) >= 1);
    assert_eq!(released.load(Ordering::SeqCst) + rejected.load(Ordering::SeqCst), 200);
    assert_eq!(handled.load(Ordering::SeqCst), released.load(Ordering::SeqCst));
}

#[test]
fn different_paths_are_all_handled() {
    let inside = Arc::new(AtomicUsize::new(0));
    let most = Arc::new(AtomicUsize::new(0));
    let handled = Arc::new(AtomicUsize::new(0));
    let resource = Arc::new(FileProcessingResource::new(Gauge {
        inside: inside.clone(),
        most: most.clone(),
        handled: handled.clone(),
    }));
    let pool = ThreadPool::new(8);
    for i in 0..50 {
        let resource = resource.clone();
        pool.execute(move || {
            let name = format!("ep{}.mkv", i);
            resource.process_file(path(&["/", "src", name.as_str()]), path(&["/", "src"]));
        });
    }
    pool.join();
    assert_eq!(handled.load(Ordering::SeqCst), 50);
}
