//! The in-process job queue: FIFO insertion order, keyed dedupe, and a
//! single-shot watcher that short-circuits the queue on the next add.
//!
//! The entries live in an insertion-ordered keyed map of an outside
//! crate; its behaviour is taken on trust through the contracts below,
//! stated over the abstract entry sequence `queue_entries`.

use vstd::prelude::*;
use crate::job::Job;
use crate::Queue;

verus! {

/// No queue operation fails in a way its callers see; this error type
/// is never constructed.
pub struct Error;

#[verifier::external_type_specification]
#[verifier::external_body]
#[verifier::reject_recursive_types(K)]
#[verifier::reject_recursive_types(V)]
#[verifier::reject_recursive_types(S)]
pub struct ExIndexMap<K, V, S>(indexmap::IndexMap<K, V, S>);

#[verifier::external_type_specification]
#[verifier::external_body]
#[verifier::reject_recursive_types(T)]
pub struct ExSender<T>(async_std::channel::Sender<T>);

#[verifier::external_type_specification]
#[verifier::external_body]
#[verifier::reject_recursive_types(T)]
pub struct ExReceiver<T>(async_std::channel::Receiver<T>);

/// The entries a keyed job map holds: (key, job) pairs in their order.
pub uninterp spec fn queue_entries(m: indexmap::IndexMap<String, Job>) -> Seq<(Seq<char>, Job)>;

/// Whether some entry carries the given key.
pub open spec fn has_key(e: Seq<(Seq<char>, Job)>, k: Seq<char>) -> bool {
    exists|i: int| 0 <= i < e.len() && e[i].0 == k
}

/// The position of the entry carrying the given key.
pub open spec fn key_index(e: Seq<(Seq<char>, Job)>, k: Seq<char>) -> int {
    choose|i: int| 0 <= i < e.len() && e[i].0 == k
}

/// No two entries carry the same key.
pub open spec fn distinct_keys(e: Seq<(Seq<char>, Job)>) -> bool {
    forall|i: int, j: int| 0 <= i < j < e.len() ==> e[i].0 != e[j].0
}

/// What adding a key maps the entries to: an existing key keeps its
/// position and takes the new job; a new key is appended last.
pub open spec fn spec_add(e: Seq<(Seq<char>, Job)>, k: Seq<char>, v: Job) -> Seq<
    (Seq<char>, Job),
> {
    if has_key(e, k) {
        e.update(key_index(e, k), (k, v))
    } else {
        e.push((k, v))
    }
}

/// The position an added key lands on (or keeps).
pub open spec fn spec_add_pos(e: Seq<(Seq<char>, Job)>, k: Seq<char>) -> int {
    if has_key(e, k) {
        key_index(e, k)
    } else {
        e.len() as int
    }
}

/// With distinct keys, any two positions holding the same key coincide.
proof fn lemma_key_index_agrees(e: Seq<(Seq<char>, Job)>, k: Seq<char>, i: int)
    requires
        distinct_keys(e),
        0 <= i < e.len(),
        e[i].0 == k,
    ensures
        has_key(e, k),
        key_index(e, k) == i,
{
    assert(has_key(e, k));
    let j = key_index(e, k);
    assert(0 <= j < e.len() && e[j].0 == k);
    if i < j {
        assert(e[i].0 != e[j].0);
    } else if j < i {
        assert(e[j].0 != e[i].0);
    }
}

/// Law: dequeue order is insertion order. After `add(k, v)` on a queue
/// with entries `e` and no watcher, the front entry — the one `remove`
/// yields — is the earliest added and not yet removed: the old front
/// when the queue held one (an existing key keeps its position, so a
/// re-added front key leaves with the overwritten job), and the added
/// pair when the queue was empty.
pub proof fn lemma_fifo_front(e: Seq<(Seq<char>, Job)>, k: Seq<char>, v: Job)
    requires
        distinct_keys(e),
    ensures
        spec_add(e, k, v).len() > 0,
        e.len() == 0 ==> spec_add(e, k, v)[0] == (k, v),
        e.len() > 0 && !has_key(e, k) ==> spec_add(e, k, v)[0] == e[0],
        has_key(e, k) && key_index(e, k) == 0 ==> spec_add(e, k, v)[0] == (k, v),
        has_key(e, k) && key_index(e, k) != 0 ==> spec_add(e, k, v)[0] == e[0],
{
    if has_key(e, k) {
        let i = key_index(e, k);
        assert(0 <= i < e.len() && e[i].0 == k);
    }
}

/// The entries after a sequence of adds, applied in order.
pub open spec fn spec_add_all(
    e: Seq<(Seq<char>, Job)>,
    kvs: Seq<(Seq<char>, Job)>,
) -> Seq<(Seq<char>, Job)>
    decreases kvs.len(),
{
    if kvs.len() == 0 {
        e
    } else {
        spec_add_all(spec_add(e, kvs[0].0, kvs[0].1), kvs.drop_first())
    }
}

/// Law: jobs leave in insertion order across any sequence of adds. When
/// the keys of the queue and of the added entries are pairwise
/// distinct, the adds append the entries in order — so each remove,
/// which takes the front, yields the earliest added entry that has not
/// yet been removed.
pub proof fn lemma_fifo_appends(e: Seq<(Seq<char>, Job)>, kvs: Seq<(Seq<char>, Job)>)
    requires
        distinct_keys(e + kvs),
    ensures
        spec_add_all(e, kvs) == e + kvs,
        distinct_keys(spec_add_all(e, kvs)),
    decreases kvs.len(),
{
    if kvs.len() == 0 {
        assert(e + kvs =~= e);
    } else {
        let k = kvs[0].0;
        let v = kvs[0].1;
        assert((e + kvs)[e.len() as int].0 == k);
        assert(!has_key(e, k)) by {
            if has_key(e, k) {
                let i = key_index(e, k);
                assert((e + kvs)[i].0 == k);
            }
        }
        assert(spec_add(e, k, v) == e.push((k, v)));
        assert(e.push((k, v)) + kvs.drop_first() =~= e + kvs);
        lemma_fifo_appends(e.push((k, v)), kvs.drop_first());
    }
}

/// Relies on IndexMap::new: the new map holds no entries.
#[verifier::external_body]
fn im_new() -> (r: indexmap::IndexMap<String, Job>)
    ensures
        queue_entries(r) == Seq::<(Seq<char>, Job)>::empty(),
{
    indexmap::IndexMap::new()
}

/// Relies on IndexMap::insert_full: an existing key keeps its place in
/// the order and has its value overwritten, and its index is returned; a
/// new key-value pair is inserted last and its index is returned.
#[verifier::external_body]
fn im_insert_full(m: &mut indexmap::IndexMap<String, Job>, key: String, value: Job) -> (r:
    usize)
    ensures
        has_key(queue_entries(*old(m)), key@) ==> (r < queue_entries(*old(m)).len()
            && queue_entries(*old(m))[r as int].0 == key@ && queue_entries(*final(m))
            == queue_entries(*old(m)).update(r as int, (key@, value))),
        !has_key(queue_entries(*old(m)), key@) ==> (r == queue_entries(*old(m)).len()
            && queue_entries(*final(m)) == queue_entries(*old(m)).push((key@, value))),
{
    m.insert_full(key, value).0
}

/// Relies on IndexMap::shift_remove_index: removes the pair at the index
/// by shifting the pairs that follow, preserving their order; None when
/// the index is out of bounds.
#[verifier::external_body]
fn im_shift_remove_index(m: &mut indexmap::IndexMap<String, Job>, index: usize) -> (r: Option<
    (String, Job),
>)
    ensures
        index < queue_entries(*old(m)).len() ==> (r matches Some(kv)
            && kv.0@ == queue_entries(*old(m))[index as int].0
            && kv.1 == queue_entries(*old(m))[index as int].1
            && queue_entries(*final(m)) == queue_entries(*old(m)).remove(index as int)),
        index >= queue_entries(*old(m)).len() ==> (r is None && queue_entries(*final(m))
            == queue_entries(*old(m))),
{
    m.shift_remove_index(index)
}

/// Relies on IndexMap::get_index_of: the index of the entry whose key
/// equals the given one, None when no entry carries it.
#[verifier::external_body]
fn im_get_index_of(m: &indexmap::IndexMap<String, Job>, key: &String) -> (r: Option<usize>)
    ensures
        r is Some <==> has_key(queue_entries(*m), key@),
        r matches Some(i) ==> (i < queue_entries(*m).len() && queue_entries(*m)[i as int].0
            == key@),
{
    m.get_index_of(key)
}

/// Relies on IndexMap::len: the number of entries.
#[verifier::external_body]
fn im_len(m: &indexmap::IndexMap<String, Job>) -> (r: usize)
    ensures
        r == queue_entries(*m).len(),
{
    m.len()
}

/// Relies on async_std::channel::bounded: a fresh channel with room for
/// `cap` messages (panics on zero capacity, so that is required away).
#[verifier::external_body]
fn new_job_channel(cap: usize) -> (async_std::channel::Sender<Job>, async_std::channel::Receiver<Job>)
    requires
        cap > 0,
{
    async_std::channel::bounded(cap)
}

/// Relies on async_std::channel::Sender::try_send: hands the job to the
/// channel unless it is full or closed; whether it succeeds depends on
/// the receiver's state, and a failure is discarded by callers.
#[verifier::external_body]
fn try_send_job(sender: &async_std::channel::Sender<Job>, job: Job) -> bool {
    sender.try_send(job).is_ok()
}

/// An ordered keyed queue with a single-shot watcher list.
pub struct LocalQueue {
    queue: indexmap::IndexMap<String, Job>,
    watchers: Vec<async_std::channel::Sender<Job>>,
}

impl LocalQueue {
    /// The (key, job) entries in dequeue order.
    pub closed spec fn entries(&self) -> Seq<(Seq<char>, Job)> {
        queue_entries(self.queue)
    }

    /// The waiting watchers, earliest registered first.
    pub closed spec fn watcher_list(&self) -> Seq<async_std::channel::Sender<Job>> {
        self.watchers@
    }

    /// How many watchers are waiting for the next add.
    pub open spec fn watcher_count(&self) -> nat {
        self.watcher_list().len()
    }

    /// The queue's invariant: every key appears at most once.
    pub open spec fn wf(&self) -> bool {
        distinct_keys(self.entries())
    }

    /// An empty queue with no watchers.
    pub fn new() -> (q: LocalQueue)
        ensures
            q.entries() == Seq::<(Seq<char>, Job)>::empty(),
            q.watcher_count() == 0,
            q.wf(),
    {
        let queue = im_new();
        let watchers: Vec<async_std::channel::Sender<Job>> = Vec::new();
        LocalQueue { queue, watchers }
    }

    /// Register a channel to receive the very next added job, bypassing
    /// the queue.
    pub fn register_watcher(&mut self, sender: async_std::channel::Sender<Job>)
        ensures
            final(self).entries() == old(self).entries(),
            final(self).watcher_count() == old(self).watcher_count() + 1,
            old(self).wf() ==> final(self).wf(),
    {
        self.watchers.push(sender);
    }

    /// Add a job under a key and report its position.
    ///
    /// With no watcher, an existing key keeps its position and takes the
    /// new job, and a new key is appended last. With a watcher waiting,
    /// the job is handed to the watcher instead (a delivery failure is
    /// discarded), the queue is left untouched, and the position that
    /// would have been used is reported.
    pub fn add(&mut self, id: String, item: Job) -> (pos: usize)
        ensures
            old(self).wf() ==> final(self).wf(),
            old(self).wf() ==> pos == spec_add_pos(old(self).entries(), id@),
            old(self).wf() && old(self).watcher_count() == 0 ==> (final(self).entries()
                == spec_add(old(self).entries(), id@, item) && final(self).watcher_count()
                == 0),
            old(self).watcher_count() > 0 ==> (final(self).entries() == old(self).entries()
                && final(self).watcher_list() == old(self).watcher_list().drop_first()),
    {
        if self.watchers.len() > 0 {
            let watcher = self.watchers.remove(0);
            let _delivered = try_send_job(&watcher, item);
            match im_get_index_of(&self.queue, &id) {
                Some(i) => {
                    proof {
                        if old(self).wf() {
                            lemma_key_index_agrees(self.entries(), id@, i as int);
                        }
                    }
                    i
                },
                None => im_len(&self.queue),
            }
        } else {
            let ghost before = self.entries();
            let pos = im_insert_full(&mut self.queue, id, item);
            proof {
                let after = self.entries();
                if old(self).wf() && has_key(before, id@) {
                    lemma_key_index_agrees(before, id@, pos as int);
                    assert(after == before.update(pos as int, (id@, item)));
                    assert forall|i: int, j: int| 0 <= i < j < after.len() implies after[i].0
                        != after[j].0 by {
                        assert(before[pos as int].0 == id@);
                        assert(after[i].0 == if i == pos as int { id@ } else { before[i].0 });
                        assert(after[j].0 == if j == pos as int { id@ } else { before[j].0 });
                    }
                } else if old(self).wf() {
                    assert(!has_key(before, id@));
                    assert forall|i: int, j: int| 0 <= i < j < after.len() implies after[i].0
                        != after[j].0 by {
                        if j == before.len() as int {
                            assert(after[i].0 == before[i].0);
                            assert(before[i].0 != id@);
                        }
                    }
                }
            }
            pos
        }
    }

    /// Remove and return the front job; the earliest added key that has
    /// not been removed leaves first.
    pub fn remove(&mut self) -> (r: Option<Job>)
        ensures
            final(self).watcher_list() == old(self).watcher_list(),
            old(self).entries().len() == 0 ==> (r is None
                && final(self).entries() == old(self).entries()),
            old(self).entries().len() > 0 ==> (r matches Some(job)
                && job == old(self).entries()[0].1
                && final(self).entries() == old(self).entries().drop_first()),
            old(self).wf() ==> final(self).wf(),
    {
        let ghost before = self.entries();
        match im_shift_remove_index(&mut self.queue, 0) {
            Some(kv) => {
                proof {
                    let after = self.entries();
                    assert(after =~= before.drop_first());
                    if distinct_keys(before) {
                        assert forall|i: int, j: int| 0 <= i < j < after.len() implies after[i].0
                            != after[j].0 by {
                            assert(before[i + 1].0 != before[j + 1].0);
                        }
                    }
                }
                Some(kv.1)
            },
            None => None,
        }
    }

    /// The number of queued jobs.
    pub fn len(&self) -> (n: usize)
        ensures
            n == self.entries().len(),
    {
        im_len(&self.queue)
    }

    /// The position of the entry with the given key.
    pub fn pos(&self, id: String) -> (r: Option<usize>)
        ensures
            r is Some <==> has_key(self.entries(), id@),
            r matches Some(i) ==> (i < self.entries().len() && self.entries()[i as int].0
                == id@),
    {
        im_get_index_of(&self.queue, &id)
    }

    /// Whether the queue holds no jobs.
    pub fn is_empty(&self) -> (r: bool)
        ensures
            r == (self.entries().len() == 0),
    {
        self.len() == 0
    }
}

impl Default for LocalQueue {
    /// An empty queue with no watchers.
    fn default() -> (q: LocalQueue)
        ensures
            q.entries() == Seq::<(Seq<char>, Job)>::empty(),
            q.watcher_count() == 0,
            q.wf(),
    {
        LocalQueue::new()
    }
}

impl Queue for LocalQueue {
    type Err = Error;

    type Id = String;

    type Item = Job;

    fn add(&mut self, id: String, item: Job) -> usize {
        LocalQueue::add(self, id, item)
    }

    fn remove(&mut self) -> Option<Job> {
        LocalQueue::remove(self)
    }

    fn len(&self) -> usize {
        LocalQueue::len(self)
    }

    fn pos(&self, id: String) -> Option<usize> {
        LocalQueue::pos(self, id)
    }
}

/// What a dequeue request is answered with.
pub enum DequeueOutcome {
    /// A job was available: respond with it.
    Found(Job),
    /// The queue is empty and the caller is not long-polling: not found.
    NotFound,
    /// The queue is empty and the caller long-polls: a watcher is
    /// registered, and the response is whatever arrives on this channel.
    Wait(async_std::channel::Receiver<Job>),
}

/// Serve one dequeue request: hand out the front job when one is
/// queued; otherwise either report an empty queue or, when long-polling,
/// register a watcher for the next added job.
pub fn remove_from_queue(queue: &mut LocalQueue, long_poll: bool) -> (r: DequeueOutcome)
    requires
        old(queue).wf(),
    ensures
        final(queue).wf(),
        old(queue).entries().len() > 0 ==> (r matches DequeueOutcome::Found(job)
            && job == old(queue).entries()[0].1
            && final(queue).entries() == old(queue).entries().drop_first()
            && final(queue).watcher_count() == old(queue).watcher_count()),
        old(queue).entries().len() == 0 && !long_poll ==> (r is NotFound
            && final(queue).entries() == old(queue).entries()
            && final(queue).watcher_count() == old(queue).watcher_count()),
        old(queue).entries().len() == 0 && long_poll ==> (r is Wait
            && final(queue).entries() == old(queue).entries()
            && final(queue).watcher_count() == old(queue).watcher_count() + 1),
{
    match queue.remove() {
        Some(job) => DequeueOutcome::Found(job),
        None => {
            if long_poll {
                let (sender, receiver) = new_job_channel(1);
                queue.register_watcher(sender);
                DequeueOutcome::Wait(receiver)
            } else {
                DequeueOutcome::NotFound
            }
        },
    }
}

} // verus!
