//! The laws of the queue protocol, stated over the abstract queue state and
//! proved once and for all. Each law speaks of the spec transitions that the
//! executable operations are contracted to perform.

use vstd::prelude::*;

use crate::codec::{lemma_encode_decode_id, Job, TaskDecodable, TaskEncodable};
use crate::queue::{
    spec_ack, spec_fetch, spec_fetched, spec_new, spec_push, spec_stop, QueueModel,
};

verus! {

/// A fresh queue is empty: both its lists hold nothing.
pub proof fn lemma_new_is_empty(name: Seq<char>, pid: u64, worker: Seq<char>)
    ensures
        spec_new(name, pid, worker).tasks.len() == 0,
        spec_new(name, pid, worker).backup.len() == 0,
        !spec_new(name, pid, worker).stopped,
{
}

/// A push grows the queue list by exactly one entry — its payload, at the
/// tail — and leaves the backup list and the stop flag alone.
pub proof fn lemma_push_size(q: QueueModel, payload: Seq<u8>)
    ensures
        spec_push(q, payload).tasks.len() == q.tasks.len() + 1,
        spec_push(q, payload).tasks.last() == payload,
        spec_push(q, payload).backup == q.backup,
        spec_push(q, payload).stopped == q.stopped,
{
}

/// Round trip: every task's encoded payload decodes back to that task.
pub proof fn lemma_job_round_trip(j: Job)
    ensures
        Job::spec_decode(j.spec_encode()) == Some(j),
{
    lemma_encode_decode_id(j.id);
}

/// A fetch followed by a successful acknowledgment leaves the backup list
/// exactly as it was before the fetch; only the fetched entry has left the
/// queue list.
pub proof fn lemma_ack_restores_backup(q: QueueModel)
    requires
        q.tasks.len() > 0,
    ensures
        spec_ack(spec_fetch(q)).backup == q.backup,
        spec_ack(spec_fetch(q)).tasks == q.tasks.drop_first(),
        spec_ack(spec_fetch(q)).name == q.name,
        spec_ack(spec_fetch(q)).backup_name == q.backup_name,
        spec_ack(spec_fetch(q)).stopped == q.stopped,
{
    assert(spec_ack(spec_fetch(q)).backup =~= q.backup);
}

/// A fetch whose guard is never acknowledged — because the task was marked
/// failed, or because the payload did not decode — leaves the backup list
/// one entry longer than before, and that entry, at its head, is exactly
/// the fetched payload. Nothing removes it on such a path.
pub proof fn lemma_unacknowledged_stays_parked(q: QueueModel)
    requires
        q.tasks.len() > 0,
    ensures
        spec_fetch(q).backup.len() == q.backup.len() + 1,
        spec_fetch(q).backup[0] == spec_fetched(q),
        spec_fetch(q).tasks.len() == q.tasks.len() - 1,
{
}

/// Stopping only sets the stop flag: pending entries in the queue list and
/// parked entries in the backup list are untouched, and stopping again
/// changes nothing more.
pub proof fn lemma_stop_halts(q: QueueModel)
    ensures
        spec_stop(q).stopped,
        spec_stop(q).tasks == q.tasks,
        spec_stop(q).backup == q.backup,
        spec_stop(spec_stop(q)) == spec_stop(q),
{
    assert(spec_stop(spec_stop(q)) =~= spec_stop(q));
}

/// FIFO order: after pushing three payloads onto an empty queue list, a
/// fetch moves the payload pushed first, and the other two remain, in push
/// order.
pub proof fn lemma_fifo(q: QueueModel, a: Seq<u8>, b: Seq<u8>, c: Seq<u8>)
    requires
        q.tasks.len() == 0,
    ensures
        spec_fetched(spec_push(spec_push(spec_push(q, a), b), c)) == a,
        spec_fetch(spec_push(spec_push(spec_push(q, a), b), c)).tasks == seq![b, c],
{
    let q3 = spec_push(spec_push(spec_push(q, a), b), c);
    assert(q3.tasks =~= seq![a, b, c]);
    assert(spec_fetch(q3).tasks =~= seq![b, c]);
}

} // verus!
