use std::sync::atomic::{AtomicBool, AtomicUsize, Ordering};
use std::sync::Arc;

use cfpack::manifest::FileInfo;
use cfpack::threadpool::{BranchedExecutor, ContextFactory, CountdownLatch, ThreadPool, Wait, Worker};

#[derive(Clone)]
struct CountWorker(Arc<AtomicUsize>);

impl Worker<u64, ()> for CountWorker {
    fn work(&self, _task: u64, _context: &mut ()) {
        self.0.fetch_add(1, Ordering::SeqCst);
    }
}

#[derive(Clone)]
struct SlotWorker(Arc<Vec<AtomicUsize>>);

impl Worker<FileInfo, ()> for SlotWorker {
    fn work(&self, task: FileInfo, _context: &mut ()) {
        self.0[task.file_id as usize].fetch_add(1, Ordering::SeqCst);
    }
}

#[derive(Clone)]
struct NoContext;

impl ContextFactory<()> for NoContext {
    fn make_context(&self) {}
}

/// A context factory that counts how many contexts it made: one per thread.
#[derive(Clone)]
struct CountingContext(Arc<AtomicUsize>);

impl ContextFactory<u64> for CountingContext {
    fn make_context(&self) -> u64 {
        self.0.fetch_add(1, Ordering::SeqCst) as u64
    }
}

fn tasks(n: u64) -> Vec<u64> {
    (0..n).collect()
}

#[test]
fn batch_then_wait_runs_all() {
    let count = Arc::new(AtomicUsize::new(0));
    let mut pool: ThreadPool<u64> = ThreadPool::new(3, CountWorker(count.clone()), NoContext);
    let wait = pool.send_all(tasks(10)).expect("live pool must accept the batch");
    wait.wait();
    assert_eq!(count.load(Ordering::SeqCst), 10);
    pool.die();
}

#[test]
fn empty_batch_wait_returns_immediately() {
    let count = Arc::new(AtomicUsize::new(0));
    let mut pool: ThreadPool<u64> = ThreadPool::new(2, CountWorker(count.clone()), NoContext);
    let wait = pool.send_all(Vec::new()).expect("live pool must accept the batch");
    wait.wait();
    assert_eq!(count.load(Ordering::SeqCst), 0);
    pool.die();
}

#[test]
fn single_send_then_wait_runs_it() {
    let count = Arc::new(AtomicUsize::new(0));
    let mut pool: ThreadPool<u64> = ThreadPool::new(1, CountWorker(count.clone()), NoContext);
    let wait = pool.send(7).expect("live pool must accept the task");
    wait.wait();
    assert_eq!(count.load(Ordering::SeqCst), 1);
    pool.die();
}

#[test]
fn send_after_die_returns_batch_unmodified() {
    let count = Arc::new(AtomicUsize::new(0));
    let mut pool: ThreadPool<u64> = ThreadPool::new(2, CountWorker(count.clone()), NoContext);
    pool.die();
    match pool.send(41) {
        Err(task) => assert_eq!(task, 41),
        Ok(_) => panic!("dead pool accepted a task"),
    }
    match pool.send_all(vec![1, 2, 3]) {
        Err(batch) => assert_eq!(batch, vec![1, 2, 3]),
        Ok(_) => panic!("dead pool accepted a batch"),
    }
    assert_eq!(count.load(Ordering::SeqCst), 0);
}

#[test]
fn die_twice_still_rejects() {
    let count = Arc::new(AtomicUsize::new(0));
    let mut pool: ThreadPool<u64> = ThreadPool::new(2, CountWorker(count.clone()), NoContext);
    pool.die();
    pool.die();
    match pool.send(1) {
        Err(task) => assert_eq!(task, 1),
        Ok(_) => panic!("dead pool accepted a task"),
    }
}

#[derive(Clone)]
struct CtxWorker(Arc<AtomicUsize>);

impl Worker<u64, u64> for CtxWorker {
    fn work(&self, _task: u64, _context: &mut u64) {
        self.0.fetch_add(1, Ordering::SeqCst);
    }
}

#[test]
fn context_factory_runs_once_per_thread() {
    let contexts = Arc::new(AtomicUsize::new(0));
    let count = Arc::new(AtomicUsize::new(0));
    let counter = count.clone();
    let mut pool: ThreadPool<u64> =
        ThreadPool::new(4, CtxWorker(counter), CountingContext(contexts.clone()));
    let wait = pool.send_all(tasks(20)).expect("live pool must accept the batch");
    wait.wait();
    pool.die();
    assert_eq!(contexts.load(Ordering::SeqCst), 4);
    assert_eq!(count.load(Ordering::SeqCst), 20);
}

#[test]
fn latch_zero_wait_returns_immediately() {
    let latch = CountdownLatch::new(0);
    latch.wait();
}

#[test]
fn latch_releases_waiter_after_full_count() {
    let latch = Arc::new(CountdownLatch::new(3));
    let woken = Arc::new(AtomicBool::new(false));
    crossbeam_utils::thread::scope(|s| {
        let waiter_latch = latch.clone();
        let waiter_woken = woken.clone();
        s.spawn(move |_| {
            waiter_latch.wait();
            waiter_woken.store(true, Ordering::SeqCst);
        });
        latch.countdown();
        latch.countdown();
        // Two countdowns of three: the waiter must still be blocked. Give
        // it ample time to wake wrongly before checking.
        let mut spin = 0u64;
        while spin < 50_000_000 {
            spin += 1;
            std::hint::black_box(spin);
        }
        assert!(!woken.load(Ordering::SeqCst));
        latch.countdown();
    })
    .expect("waiter thread must exit cleanly");
    assert!(woken.load(Ordering::SeqCst));
}

#[test]
fn latch_tolerates_extra_countdowns() {
    let latch = CountdownLatch::new(1);
    latch.countdown();
    latch.countdown();
    latch.countdown();
    latch.wait();
}

#[test]
fn wait_handle_is_shareable() {
    let count = Arc::new(AtomicUsize::new(0));
    let mut pool: ThreadPool<u64> = ThreadPool::new(2, CountWorker(count.clone()), NoContext);
    let wait = pool.send_all(tasks(5)).expect("live pool must accept the batch");
    let second = wait.clone();
    wait.wait();
    second.wait();
    assert_eq!(count.load(Ordering::SeqCst), 5);
    pool.die();
}

#[test]
fn inline_executor_runs_in_input_order() {
    let seen = std::rc::Rc::new(std::cell::RefCell::new(Vec::new()));
    let sink = seen.clone();
    let exec = BranchedExecutor::<u64, _>::ThisThread(move |task: u64| {
        sink.borrow_mut().push(task);
    });
    let wait = exec.exec(vec![5, 1, 4, 1, 3]).expect("inline execution cannot be rejected");
    assert!(matches!(wait, Wait::Noop));
    wait.wait();
    assert_eq!(*seen.borrow(), vec![5, 1, 4, 1, 3]);
}

#[test]
fn pooled_executor_runs_each_task_exactly_once() {
    let slots: Arc<Vec<AtomicUsize>> = Arc::new((0..100).map(|_| AtomicUsize::new(0)).collect());
    let pool: ThreadPool<FileInfo> = ThreadPool::new(4, SlotWorker(slots.clone()), NoContext);
    let exec: BranchedExecutor<FileInfo, fn(FileInfo)> = BranchedExecutor::Pooled(pool);
    let batch: Vec<FileInfo> = (0..100)
        .map(|i| FileInfo { project_id: 1000 + i, file_id: i, required: true })
        .collect();
    let wait = exec.exec(batch).expect("live pool must accept the batch");
    wait.wait();
    for slot in slots.iter() {
        assert_eq!(slot.load(Ordering::SeqCst), 1);
    }
}

#[test]
fn pooled_executor_dead_pool_hands_batch_back() {
    let count = Arc::new(AtomicUsize::new(0));
    let mut pool: ThreadPool<u64> = ThreadPool::new(2, CountWorker(count.clone()), NoContext);
    pool.die();
    let exec = BranchedExecutor::<u64, fn(u64)>::Pooled(pool);
    match exec.exec(vec![9, 8, 7]) {
        Err(batch) => assert_eq!(batch, vec![9, 8, 7]),
        Ok(_) => panic!("dead pool accepted a batch"),
    }
    assert_eq!(count.load(Ordering::SeqCst), 0);
}

#[test]
fn die_with_tasks_in_flight_finishes_them() {
    let count = Arc::new(AtomicUsize::new(0));
    let mut pool: ThreadPool<u64> = ThreadPool::new(3, CountWorker(count.clone()), NoContext);
    let _wait = pool.send_all(tasks(50)).expect("live pool must accept the batch");
    // Tear down immediately, without waiting on the handle: die must block
    // until the in-flight tasks ran and every worker thread exited.
    pool.die();
    assert_eq!(count.load(Ordering::SeqCst), 50);
}

#[test]
fn inline_executor_empty_batch() {
    let exec = BranchedExecutor::<u64, fn(u64)>::ThisThread(|_task: u64| {
        panic!("no task may run for an empty batch");
    });
    let wait = exec.exec(Vec::new()).expect("inline execution cannot be rejected");
    wait.wait();
}
