//! A fixed-size worker pool with batch-completion synchronization.
//!
//! A [`ThreadPool`] owns a set of persistent worker threads sharing one
//! concurrent queue. Submitting a task or a batch hands back a [`Wait`]: a
//! shareable handle that blocks until that submission's work is done, backed
//! by a one-shot [`CountdownLatch`]. A [`BranchedExecutor`] wraps either a
//! pool or an inline callback behind one uniform submission contract, so
//! calling code is agnostic to whether concurrency is actually used.
//!
//! The queue is crossbeam's unbounded channel and the latch's blocking side
//! is a parking_lot mutex/condvar pair, both behind the trusted wrappers of
//! [`crate::sync`]; their contents are shared across threads, so the
//! contracts here pin down everything that is decided on this thread (which
//! submissions are accepted, what is handed back, how a latch is sized) and
//! leave cross-thread timing to the primitives.

use core::sync::atomic::{AtomicI64, Ordering};
use std::sync::Arc;
use vstd::prelude::*;
use vstd::*;

use crate::sync::arc_clone;
use crate::sync::channel_recv;
use crate::sync::channel_receiver_clone;
use crate::sync::channel_send;
use crate::sync::channel_unbounded;
use crate::sync::FlagGate;

verus! {

/// One-shot countdown synchronization object: an atomic counter initialized
/// to a batch size, plus a "released" flag with blocking support. Created
/// per batch and discarded after waiting; it cannot be reset or reused.
pub struct CountdownLatch {
    status: FlagGate,
    count: AtomicI64,
    initial: Ghost<int>,
}

impl CountdownLatch {
    /// The count this latch was constructed with: the number of countdown
    /// calls owed before waiters are released.
    pub closed spec fn initial_count(&self) -> int {
        self.initial@
    }

    /// A latch that releases its waiters after `count` countdowns.
    ///
    /// The counter is kept signed so that extra `countdown` calls beyond
    /// `count` (a caller bug the latch tolerates) drive it negative instead
    /// of wrapping: any non-positive value means "released".
    pub fn new(count: u32) -> (r: CountdownLatch)
        ensures
            r.initial_count() == count as int,
    {
        CountdownLatch {
            status: FlagGate::new(),
            count: AtomicI64::new(count as i64),
            initial: Ghost(count as int),
        }
    }

    /// Blocks until the latch is released. Fast path: if the counter is
    /// already non-positive the blocking primitive is never touched.
    pub fn wait(&self) {
        if self.count.load(Ordering::Relaxed) > 0 {
            self.status.wait_if_unset();
        }
    }

    /// Decrements the counter by one; the call whose decrement makes the
    /// counter reach zero or below releases the waiters. That resolution
    /// uses the atomic operation's own return value (`prev <= 1`, i.e. the
    /// decremented value is non-positive), never a separate re-read, so
    /// exactly the right call wakes the waiters even when several threads
    /// count down concurrently.
    pub fn countdown(&self) {
        let prev = self.count.fetch_sub(1, Ordering::Relaxed);
        if prev <= 1 {
            self.status.set_and_notify_all();
        }
    }
}

/// The value a submission hands back: blocks until that submission's tasks
/// are done. Shareable; any number of observers may wait on one submission.
#[derive(Clone)]
pub enum Wait {
    /// Backed by the batch's latch.
    Latch(Arc<CountdownLatch>),
    /// Nothing to wait for: the work is already complete.
    Noop,
}

impl Wait {
    /// Blocks on the underlying latch if there is one; returns immediately
    /// for the no-op case.
    pub fn wait(&self) {
        match self {
            Wait::Latch(latch) => latch.wait(),
            Wait::Noop => (),
        }
    }
}

/// What travels through the shared queue: either a task with the latch it
/// must count down on completion, or an order to shut one worker down.
enum ThreadCommand<T> {
    Command(T, Option<Arc<CountdownLatch>>),
    Die,
}

/// The callable executed once per task, with mutable access to the worker
/// thread's own context. Implemented by the pool's users; a task's failure
/// must be handled inside `work` itself (report and continue), since the
/// pool has no channel to hand a per-task error back to the submitter.
pub trait Worker<T, C>: Sized {
    fn work(&self, task: T, context: &mut C);
}

/// Makes the per-thread mutable context. Called exactly once per spawned
/// worker thread, at that thread's startup; the context it returns is owned
/// by that thread alone for the thread's whole life.
pub trait ContextFactory<C>: Sized {
    fn make_context(&self) -> C;
}

/// A fixed set of persistent worker threads sharing one concurrent queue.
/// The thread count is fixed at construction; once the pool is marked dead
/// no new task is accepted, though already-enqueued tasks still run.
///
/// Call [`ThreadPool::die`] to tear the pool down: it drains, stops and
/// joins every worker. A pool dropped without it still stops its workers —
/// dropping the last sender disconnects the queue, and each worker exits
/// its receive loop after draining prior work — but nothing then waits for
/// them to finish.
#[verifier::reject_recursive_types(T)]
pub struct ThreadPool<T: Send + 'static> {
    threadcount: u32,
    send: crossbeam_channel::Sender<ThreadCommand<T>>,
    dead: bool,
    handles: Vec<thread::JoinHandle<()>>,
}

/// The receive loop of one worker thread: makes the thread's context once,
/// then executes commands until a `Die` arrives or the queue disconnects,
/// counting down each task's latch after the task ran.
///
/// Every verified loop needs a termination measure; this one counts down
/// from `u64::MAX` commands, a bound no real run can reach.
fn worker_loop<T, C, W, I>(
    recv: crossbeam_channel::Receiver<ThreadCommand<T>>,
    worker: W,
    init: I,
) where W: Worker<T, C>, I: ContextFactory<C> {
    let mut context = init.make_context();
    let mut running = true;
    let mut fuel: u64 = u64::MAX;
    while running && fuel > 0
        decreases fuel,
    {
        fuel = fuel - 1;
        match channel_recv(&recv) {
            Some(ThreadCommand::Command(task, countdown)) => {
                worker.work(task, &mut context);
                if let Some(c) = countdown {
                    c.countdown();
                }
            },
            _ => {
                running = false;
            },
        }
    }
}

impl<T: Send + 'static> ThreadPool<T> {
    /// Whether the pool has been shut down and rejects new submissions.
    pub closed spec fn is_dead(&self) -> bool {
        self.dead
    }

    /// The thread count the pool was constructed with.
    pub closed spec fn thread_count(&self) -> u32 {
        self.threadcount
    }

    /// How many worker threads are still unaccounted for (not yet joined).
    pub closed spec fn live_handles(&self) -> int {
        self.handles@.len() as int
    }

    /// Spawns `threadcount` worker threads, each with its own context from
    /// `init`, all receiving from one shared queue: a single total order of
    /// submissions, dequeued by whichever thread is idle first. A failure
    /// to spawn a thread is fatal to pool creation (the process aborts); it
    /// is never silently ignored.
    pub fn new<C, W, I>(threadcount: u32, worker: W, init: I) -> (r: ThreadPool<T>)
        where
            C: 'static,
            W: Worker<T, C> + Clone + Send + 'static,
            I: ContextFactory<C> + Clone + Send + 'static,
        ensures
            !r.is_dead(),
            r.thread_count() == threadcount,
            r.live_handles() == threadcount as int,
    {
        let (send, recv) = channel_unbounded::<ThreadCommand<T>>();

        let mut handles: Vec<thread::JoinHandle<()>> = Vec::new();
        let mut i: u32 = 0;
        while i < threadcount
            invariant
                i <= threadcount,
                handles@.len() == i as int,
            decreases threadcount - i,
        {
            let thread_recv = channel_receiver_clone(&recv);
            let thread_fn = worker.clone();
            let thread_init = init.clone();
            let handle = thread::spawn(move || {
                worker_loop(thread_recv, thread_fn, thread_init);
            });
            handles.push(handle);
            i = i + 1;
        }

        ThreadPool { threadcount, send, dead: false, handles }
    }

    /// Submits one task. If the pool is alive it is wrapped in a fresh
    /// one-count latch and enqueued, and the latch's handle comes back; if
    /// the pool is already shut down the task comes back to the caller
    /// unchanged, and no worker ever sees it.
    pub fn send(&self, task: T) -> (r: Result<Wait, T>)
        ensures
            self.is_dead() ==> (r matches Err(t) && t == task),
            !self.is_dead() ==> (r matches Ok(w) && w matches Wait::Latch(l)
                && l.initial_count() == 1),
    {
        if !self.dead {
            let latch = Arc::new(CountdownLatch::new(1));
            let _ = channel_send(
                &self.send,
                ThreadCommand::Command(task, Some(arc_clone(&latch))),
            );
            Ok(Wait::Latch(latch))
        } else {
            Err(task)
        }
    }

    /// Submits a batch. One latch sized to the batch length is shared by
    /// all its tasks, so the returned handle releases only when every task
    /// of the batch has run. Enqueue order is the batch's order. If the
    /// pool is already shut down the entire batch comes back untouched.
    pub fn send_all(&self, tasks: Vec<T>) -> (r: Result<Wait, Vec<T>>)
        requires
            tasks@.len() <= u32::MAX,
        ensures
            self.is_dead() ==> (r matches Err(v) && v == tasks),
            !self.is_dead() ==> (r matches Ok(w) && w matches Wait::Latch(l)
                && l.initial_count() == tasks@.len() as int),
    {
        if !self.dead {
            let latch = Arc::new(CountdownLatch::new(tasks.len() as u32));
            let mut rest = tasks;
            while rest.len() > 0
                decreases rest@.len(),
            {
                let task = rest.remove(0);
                let _ = channel_send(
                    &self.send,
                    ThreadCommand::Command(task, Some(arc_clone(&latch))),
                );
            }
            Ok(Wait::Latch(latch))
        } else {
            Err(tasks)
        }
    }

    /// Shuts the pool down: marks it dead, enqueues exactly one `Die` per
    /// worker thread so each exits its receive loop after draining prior
    /// work, then blocks until every worker thread has exited. Idempotent
    /// in effect: on a dead pool there is no thread left to stop.
    pub fn die(&mut self)
        ensures
            final(self).is_dead(),
            final(self).live_handles() == 0,
            final(self).thread_count() == old(self).thread_count(),
    {
        self.dead = true;
        let mut i: u32 = 0;
        while i < self.threadcount
            invariant
                self.dead,
                self.threadcount == old(self).threadcount,
            decreases self.threadcount - i,
        {
            let _ = channel_send(&self.send, ThreadCommand::Die);
            i = i + 1;
        }
        while self.handles.len() > 0
            invariant
                self.dead,
                self.threadcount == old(self).threadcount,
            decreases self.handles@.len(),
        {
            match self.handles.pop() {
                Some(handle) => {
                    let _ = handle.join();
                },
                None => (),
            }
        }
    }
}

/// A configuration-time choice between two interchangeable execution
/// strategies: run every task inline on the calling thread, or forward
/// batches to a worker pool. Chosen once, immutable for the executor's
/// life.
#[verifier::reject_recursive_types(T)]
pub enum BranchedExecutor<T: Send + 'static, F> {
    /// Runs each task synchronously, in input order, on the calling thread.
    ThisThread(F),
    /// Forwards whole batches to the pool.
    Pooled(ThreadPool<T>),
}

impl<T: Send + 'static, F: Fn(T)> BranchedExecutor<T, F> {
    /// Submits a batch under the chosen strategy.
    ///
    /// Inline: every command is executed (the callback's postcondition
    /// holds of each), sequentially and in input order, before the call
    /// returns, so the handle that comes back is already satisfied.
    /// Pooled: the batch is forwarded to [`ThreadPool::send_all`], with its
    /// contract; a dead pool hands the batch back untouched.
    pub fn exec(&self, commands: Vec<T>) -> (r: Result<Wait, Vec<T>>)
        requires
            self matches BranchedExecutor::Pooled(_) ==> commands@.len() <= u32::MAX,
            self matches BranchedExecutor::ThisThread(f) ==> forall|i: int|
                0 <= i < commands@.len() ==> call_requires(f, (commands@[i],)),
        ensures
            self matches BranchedExecutor::ThisThread(f) ==> (r matches Ok(w)
                && w matches Wait::Noop
                && forall|i: int| 0 <= i < commands@.len()
                    ==> call_ensures(f, (commands@[i],), ())),
            (self matches BranchedExecutor::Pooled(p) && p.is_dead()) ==> (r matches Err(v)
                && v == commands),
            (self matches BranchedExecutor::Pooled(p) && !p.is_dead()) ==> (r matches Ok(w)
                && w matches Wait::Latch(l) && l.initial_count() == commands@.len() as int),
    {
        match self {
            BranchedExecutor::ThisThread(f) => {
                let ghost all = commands@;
                let mut rest = commands;
                let ghost done: int = 0;
                while rest.len() > 0
                    invariant
                        0 <= done <= all.len(),
                        rest@ == all.skip(done),
                        forall|i: int| 0 <= i < all.len() ==> call_requires(f, (all[i],)),
                        forall|i: int| 0 <= i < done ==> call_ensures(f, (all[i],), ()),
                    decreases rest@.len(),
                {
                    let cmd = rest.remove(0);
                    assert(cmd == all[done]);
                    f(cmd);
                    proof {
                        done = done + 1;
                    }
                }
                Ok(Wait::Noop)
            },
            BranchedExecutor::Pooled(pool) => pool.send_all(commands),
        }
    }
}

} // verus!
