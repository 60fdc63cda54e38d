//! The reliable-queue protocol: push, atomic fetch-and-park, and
//! guard-based acknowledgment.
//!
//! A [`Queue`] owns the state of the two lists it works on: the queue list
//! of not-yet-fetched payloads and the worker-private backup list of fetched
//! but unacknowledged payloads. Fetching moves the head payload of the queue
//! list to the head of the backup list in one step, so a task is never in
//! neither list; it stays parked there until [`Queue::resolve`] removes it
//! for a successfully processed guard. A failed guard, or a payload that
//! does not decode, leaves its entry in the backup list for manual recovery.
//!
//! A deployment against a networked list store drives exactly these
//! transitions: the unverified shell performs the store calls and classifies
//! each fetch reply through [`fetch_outcome`].

use vstd::prelude::*;

use crate::codec::{TaskDecodable, TaskEncodable};
use crate::naming::{
    backup_key, lemma_keys_distinct, queue_key, spec_backup_key, spec_queue_key,
};

verus! {

/// Failure of an operation against the backing store.
#[derive(Clone, Copy, Debug, PartialEq, Eq, Structural)]
pub enum StoreError {
    /// The store could not be reached or refused the operation.
    Transport,
}

/// Failure of a fetch attempt.
#[derive(Clone, Copy, Debug, PartialEq, Eq, Structural)]
pub enum FetchError {
    /// The blocking move operation itself failed.
    Transport,
    /// The store replied with something that is not a byte payload.
    UnexpectedReply,
    /// The payload was moved to the backup list but does not decode; it
    /// stays parked there for manual recovery.
    Decode,
    /// The wait for an available entry ended before one arrived.
    Timeout,
}

/// The shape of a store reply to a fetch, as far as the protocol reads it.
#[derive(Clone, Debug, PartialEq, Eq)]
pub enum StoreReply {
    /// A byte payload: the entry that was moved.
    Payload(Vec<u8>),
    /// An empty reply.
    Nil,
    /// A reply of any other shape.
    Other,
}

/// The abstract state of a queue: its two key names, the stop flag, and the
/// contents of the queue list and of the backup list, head first.
#[verifier::ext_equal]
pub struct QueueModel {
    /// Key of the queue list.
    pub name: Seq<char>,
    /// Key of this worker's backup list.
    pub backup_name: Seq<char>,
    /// Whether fetching has been stopped.
    pub stopped: bool,
    /// Payloads awaiting a fetch, head (next to fetch) first.
    pub tasks: Seq<Seq<u8>>,
    /// Fetched, unacknowledged payloads, most recently parked first.
    pub backup: Seq<Seq<u8>>,
}

/// The byte contents of a sequence of payload vectors.
pub open spec fn payloads_view(s: Seq<Vec<u8>>) -> Seq<Seq<u8>> {
    Seq::new(s.len(), |i: int| s[i]@)
}

/// The state of a freshly created queue: derived keys, not stopped, both
/// lists empty.
pub open spec fn spec_new(name: Seq<char>, pid: u64, worker: Seq<char>) -> QueueModel {
    QueueModel {
        name: spec_queue_key(name),
        backup_name: spec_backup_key(name, pid, worker),
        stopped: false,
        tasks: Seq::empty(),
        backup: Seq::empty(),
    }
}

/// Appending a payload at the tail of the queue list.
pub open spec fn spec_push(q: QueueModel, payload: Seq<u8>) -> QueueModel {
    QueueModel { tasks: q.tasks.push(payload), ..q }
}

/// Setting the stop flag.
pub open spec fn spec_stop(q: QueueModel) -> QueueModel {
    QueueModel { stopped: true, ..q }
}

/// The payload a fetch on `q` moves: the head of the queue list.
pub open spec fn spec_fetched(q: QueueModel) -> Seq<u8> {
    q.tasks[0]
}

/// The atomic move of a fetch: the head of the queue list becomes the head
/// of the backup list, in one step.
pub open spec fn spec_fetch(q: QueueModel) -> QueueModel {
    QueueModel {
        tasks: q.tasks.drop_first(),
        backup: seq![q.tasks[0]] + q.backup,
        ..q
    }
}

/// Acknowledging success: the head entry of the backup list is removed.
pub open spec fn spec_ack(q: QueueModel) -> QueueModel {
    QueueModel { backup: q.backup.drop_first(), ..q }
}

/// A fetched, successfully decoded task, together with the record of
/// whether its processing failed.
///
/// The guard is the acknowledgment point: handing it back through
/// [`Queue::resolve`] removes the parked backup entry unless [`TaskGuard::fail`]
/// was called first, in which case the entry stays for manual recovery.
pub struct TaskGuard<T> {
    task: T,
    failed: bool,
}

impl<T> TaskGuard<T> {
    /// The task this guard wraps.
    pub closed spec fn spec_task(&self) -> T {
        self.task
    }

    /// Whether this guard was marked as failed.
    pub closed spec fn spec_failed(&self) -> bool {
        self.failed
    }

    /// Mark the task as failed, so that it is kept in the backup list.
    /// Idempotent; never unset again.
    pub fn fail(&mut self)
        ensures
            final(self).spec_failed(),
            final(self).spec_task() == old(self).spec_task(),
    {
        self.failed = true;
    }

    /// Whether this guard was marked as failed.
    pub fn is_failed(&self) -> (r: bool)
        ensures
            r == self.spec_failed(),
    {
        self.failed
    }

    /// Read-only access to the wrapped task.
    pub fn inner(&self) -> (r: &T)
        ensures
            *r == self.spec_task(),
    {
        &self.task
    }
}

/// A task queue with a worker-private backup list.
///
/// Producers [`Queue::push`] encoded tasks onto the queue list; a worker
/// repeatedly calls [`Queue::next`] to move the head payload to its backup
/// list and decode it, and [`Queue::resolve`] to acknowledge the outcome.
pub struct Queue {
    queue_name: String,
    backup_queue: String,
    stopped: bool,
    tasks: Vec<Vec<u8>>,
    backup: Vec<Vec<u8>>,
}

impl View for Queue {
    type V = QueueModel;

    closed spec fn view(&self) -> QueueModel {
        QueueModel {
            name: self.queue_name@,
            backup_name: self.backup_queue@,
            stopped: self.stopped,
            tasks: payloads_view(self.tasks@),
            backup: payloads_view(self.backup@),
        }
    }
}

impl Queue {
    /// The queue's key names never collide: the backup list is the worker's
    /// own, not the queue list.
    pub open spec fn wf(&self) -> bool {
        self@.name != self@.backup_name
    }

    /// Create a queue for the given name, with a backup list private to the
    /// worker identified by `pid` and `worker`.
    ///
    /// Both keys are computed here, once, and stay fixed for the queue's
    /// lifetime.
    pub fn new(name: String, pid: u64, worker: String) -> (q: Queue)
        ensures
            q@ == spec_new(name@, pid, worker@),
            q.wf(),
    {
        let q = Queue {
            queue_name: queue_key(name.as_str()),
            backup_queue: backup_key(name.as_str(), pid, worker.as_str()),
            stopped: false,
            tasks: Vec::new(),
            backup: Vec::new(),
        };
        proof {
            lemma_keys_distinct(name@, pid, worker@);
            assert(q@ =~= spec_new(name@, pid, worker@));
        }
        q
    }

    /// Stop processing the queue: the next call to `next` returns `None`.
    /// Idempotent; nothing else of the state changes.
    pub fn stop(&mut self)
        ensures
            final(self)@ == spec_stop(old(self)@),
    {
        self.stopped = true;
        proof {
            assert(self@ =~= spec_stop(old(self)@));
        }
    }

    /// Whether queue processing has been stopped.
    pub fn is_stopped(&self) -> (r: bool)
        ensures
            r == self@.stopped,
    {
        self.stopped
    }

    /// The full key of the queue list.
    pub fn queue(&self) -> (r: &str)
        ensures
            r@ == self@.name,
    {
        self.queue_name.as_str()
    }

    /// The full key of this worker's backup list.
    pub fn backup_queue(&self) -> (r: &str)
        ensures
            r@ == self@.backup_name,
    {
        self.backup_queue.as_str()
    }

    /// The number of payloads waiting in the queue list.
    pub fn size(&self) -> (r: u64)
        ensures
            r == self@.tasks.len(),
    {
        self.tasks.len() as u64
    }

    /// The number of payloads parked in the backup list.
    pub fn backup_len(&self) -> (r: u64)
        ensures
            r == self@.backup.len(),
    {
        self.backup.len() as u64
    }

    /// The payloads parked in the backup list, most recently parked first.
    pub fn backup_range(&self) -> (r: &Vec<Vec<u8>>)
        ensures
            payloads_view(r@) == self@.backup,
    {
        &self.backup
    }

    /// Encode a task and append its payload to the tail of the queue list.
    ///
    /// Encoding is total, so the push itself always succeeds; the `Result`
    /// is the operation's store-facing shape.
    pub fn push<T: TaskEncodable>(&mut self, task: T) -> (r: Result<(), StoreError>)
        ensures
            r is Ok,
            final(self)@ == spec_push(old(self)@, task.spec_encode()),
    {
        let payload = task.encode_task();
        self.tasks.push(payload);
        proof {
            assert(self@ =~= spec_push(old(self)@, task.spec_encode()));
        }
        Ok(())
    }

    /// Append a raw payload to the tail of the queue list, bypassing the
    /// codec. This is the store's plain `PUSH`, useful for inspection and
    /// for exercising the decode-failure path.
    pub fn push_raw(&mut self, payload: Vec<u8>)
        ensures
            final(self)@ == spec_push(old(self)@, payload@),
    {
        let ghost p = payload@;
        self.tasks.push(payload);
        proof {
            assert(self@ =~= spec_push(old(self)@, p));
        }
    }

    /// Fetch the next task.
    ///
    /// Returns `None`, touching nothing, once the queue is stopped. If the
    /// queue list is empty the bounded wait ends without an entry and the
    /// outcome is a `Timeout`. Otherwise the head payload is moved, in one
    /// step, to the head of the backup list; a payload that decodes is
    /// handed out in a fresh (not failed) guard, and one that does not
    /// yields a `Decode` error while staying parked in the backup list.
    pub fn next<T: TaskDecodable>(&mut self) -> (r: Option<Result<TaskGuard<T>, FetchError>>)
        ensures
            old(self)@.stopped ==> final(self)@ == old(self)@ && r is None,
            !old(self)@.stopped && old(self)@.tasks.len() == 0 ==> final(self)@ == old(self)@
                && r == Some(Err::<TaskGuard<T>, FetchError>(FetchError::Timeout)),
            !old(self)@.stopped && old(self)@.tasks.len() > 0 ==> final(self)@ == spec_fetch(
                old(self)@,
            ) && (match T::spec_decode(spec_fetched(old(self)@)) {
                Some(t) => match r {
                    Some(Ok(g)) => g.spec_task() == t && !g.spec_failed(),
                    _ => false,
                },
                None => r == Some(Err::<TaskGuard<T>, FetchError>(FetchError::Decode)),
            }),
    {
        if self.stopped {
            return None;
        }
        if self.tasks.len() == 0 {
            return Some(Err(FetchError::Timeout));
        }
        let payload = self.tasks.remove(0);
        let decoded = T::decode_task(payload.as_slice());
        self.backup.insert(0, payload);
        proof {
            assert(self@.tasks =~= spec_fetch(old(self)@).tasks);
            assert(self@.backup =~= spec_fetch(old(self)@).backup);
            assert(self@ =~= spec_fetch(old(self)@));
        }
        match decoded {
            Ok(task) => Some(Ok(TaskGuard { task, failed: false })),
            Err(_) => Some(Err(FetchError::Decode)),
        }
    }

    /// Resolve a guard obtained from [`Queue::next`]: the acknowledgment
    /// point.
    ///
    /// For a guard not marked failed, the entry parked for it — the head of
    /// the backup list — is removed; an already empty backup list is left
    /// alone. For a failed guard nothing is removed: its entry stays in the
    /// backup list for manual recovery.
    pub fn resolve<T>(&mut self, guard: TaskGuard<T>)
        ensures
            guard.spec_failed() ==> final(self)@ == old(self)@,
            !guard.spec_failed() && old(self)@.backup.len() == 0 ==> final(self)@ == old(self)@,
            !guard.spec_failed() && old(self)@.backup.len() > 0 ==> final(self)@ == spec_ack(
                old(self)@,
            ),
    {
        if !guard.failed {
            if self.backup.len() > 0 {
                self.backup.remove(0);
                proof {
                    assert(self@.backup =~= spec_ack(old(self)@).backup);
                    assert(self@ =~= spec_ack(old(self)@));
                }
            }
        }
    }
}

/// Classify the reply of a blocking fetch against a real store, exactly as
/// the protocol reads it: a failed call is a transport error, a reply that
/// is not a byte payload is unexpected, and a byte payload either decodes
/// into a task or is reported as a decode failure.
pub fn fetch_outcome<T: TaskDecodable>(reply: Result<StoreReply, StoreError>) -> (r: Result<
    T,
    FetchError,
>)
    ensures
        match reply {
            Err(_) => r == Err::<T, FetchError>(FetchError::Transport),
            Ok(StoreReply::Payload(b)) => (match T::spec_decode(b@) {
                Some(t) => r == Ok::<T, FetchError>(t),
                None => r == Err::<T, FetchError>(FetchError::Decode),
            }),
            Ok(StoreReply::Nil) => r == Err::<T, FetchError>(FetchError::UnexpectedReply),
            Ok(StoreReply::Other) => r == Err::<T, FetchError>(FetchError::UnexpectedReply),
        },
{
    match reply {
        Err(_) => Err(FetchError::Transport),
        Ok(StoreReply::Payload(b)) => match T::decode_task(b.as_slice()) {
            Ok(t) => Ok(t),
            Err(_) => Err(FetchError::Decode),
        },
        Ok(StoreReply::Nil) => Err(FetchError::UnexpectedReply),
        Ok(StoreReply::Other) => Err(FetchError::UnexpectedReply),
    }
}

} // verus!
