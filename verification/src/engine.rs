//! The engine: the single consumer that owns the commit log.
//!
//! Producers enqueue requests; the engine drains everything that is
//! pending in one step, coalesces each run of consecutive append requests
//! into one physical append, answers reads and offset queries, and
//! consults the flush timer. Each request is answered through its own
//! one-shot completion channel.

use vstd::prelude::*;

use crate::channel::channel_send;
use crate::commitlog_api::log_append;
use crate::commitlog_api::log_entries;
use crate::commitlog_api::log_flush;
use crate::commitlog_api::log_last_offset;
use crate::commitlog_api::log_next_offset;
use crate::commitlog_api::log_read;
use crate::commitlog_api::msgbuf_new;
use crate::errors::LogError;
use crate::messages::Messages;
use crate::pool::BufferPool;

verus! {

/// Where a read starts: a numeric offset, or the position just past the
/// last appended entry.
#[derive(Clone, Copy, Debug, PartialEq, Eq, Structural)]
pub enum ReadPosition {
    /// Start at this offset.
    Offset(u64),
    /// Start just past the end of the log.
    Latest,
}

/// One-shot completion carrying the result of a request.
pub type Completion<R> = std::sync::mpsc::Sender<Result<R, LogError>>;

/// An append request: the payload and the completion to answer.
pub struct AppendRequest {
    /// The opaque bytes to append as one message.
    pub payload: Vec<u8>,
    /// Fired exactly once with the assigned offset or an error.
    pub completion: Completion<u64>,
}

/// A request travelling from a handle to the engine.
pub enum LogRequest {
    /// Append one payload.
    Append(AppendRequest),
    /// Report the highest assigned offset, or zero on an empty log.
    LastOffset(Completion<u64>),
    /// Read messages from a position under a byte budget.
    Read(ReadPosition, usize, Completion<Messages>),
}

/// Engine configuration.
pub struct LogConfig {
    /// Directory for the on-disk segments.
    pub log_dir: String,
    /// Bound on entries per index file, passed through to the log.
    pub index_max_items: usize,
    /// Bound on bytes per segment file, passed through to the log.
    pub segment_max_bytes: usize,
    /// Minimum gap between consecutive fsyncs while dirty.
    pub flush_interval_ms: u64,
    /// Number of reusable batch buffers.
    pub pool_capacity: usize,
    /// Initial storage of each pooled buffer.
    pub pool_buf_initial_bytes: usize,
}

impl LogConfig {
    /// The index bound must survive the log's 8-byte-per-entry sizing.
    pub open spec fn wf(self) -> bool {
        self.index_max_items <= usize::MAX / 8
    }

    /// The default configuration over the given directory.
    pub fn new_for_dir(log_dir: String) -> (r: LogConfig)
        ensures
            r.wf(),
            r.log_dir == log_dir,
            r.index_max_items == 10_000_000usize,
            r.segment_max_bytes == 1_024_000_000usize,
            r.flush_interval_ms == 1000u64,
            r.pool_capacity == 30usize,
            r.pool_buf_initial_bytes == 16384usize,
    {
        LogConfig {
            log_dir,
            index_max_items: 10_000_000,
            segment_max_bytes: 1_024_000_000,
            flush_interval_ms: 1000,
            pool_capacity: 30,
            pool_buf_initial_bytes: 16384,
        }
    }
}

/// The payload views of a vector of payloads, in order.
pub open spec fn views_of(payloads: Seq<Vec<u8>>) -> Seq<Seq<u8>> {
    payloads.map_values(|p: Vec<u8>| p@)
}

/// The payloads carried by a batch of append requests, in order.
pub open spec fn payloads_of(batch: Seq<AppendRequest>) -> Seq<Seq<u8>> {
    batch.map_values(|r: AppendRequest| r.payload@)
}

/// The offset `last_offset` reports for a log with these entries: the
/// highest assigned offset, or zero when the log is empty.
pub open spec fn last_offset_of(entries: Seq<Seq<u8>>) -> int {
    if entries.len() == 0 {
        0
    } else {
        entries.len() - 1
    }
}

/// The offset-payload pairs a successful batch acknowledges: the i-th
/// payload under the i-th offset past the log's prior length.
pub open spec fn acks_of(base: int, payloads: Seq<Seq<u8>>) -> Seq<(u64, Seq<u8>)> {
    Seq::new(payloads.len(), |i: int| (((base + i) as u64), payloads[i]))
}

/// The single consumer owning the commit log, the buffer pool and the
/// flush bookkeeping.
pub struct Engine {
    /// The on-disk commit log.
    pub log: commitlog::CommitLog,
    /// Reusable batch buffers.
    pub pool: BufferPool,
    /// Whether appends have happened since the last successful flush.
    pub dirty: bool,
    /// Reading of the clock at the last successful flush.
    pub last_flush_ms: u64,
    /// Minimum gap between consecutive fsyncs while dirty.
    pub flush_interval_ms: u64,
    /// History of every offset-payload pair this engine has
    /// acknowledged, in acknowledgment order.
    pub acks: Ghost<Seq<(u64, Seq<u8>)>>,
}

impl Engine {
    /// Every acknowledged offset names a live entry of the log holding
    /// exactly the acknowledged payload: appends are never dropped,
    /// overwritten or reordered after being acknowledged.
    pub open spec fn acks_ok(self) -> bool {
        forall|i: int|
            0 <= i < self.acks@.len() ==> {
                &&& (#[trigger] self.acks@[i]).0 < self.entries().len()
                &&& self.entries()[self.acks@[i].0 as int] == self.acks@[i].1
            }
    }

    /// The engine's invariant: the pool is well formed, the log's
    /// entries stay indexable by u64 offsets, and the acknowledgment
    /// history is honoured by the log.
    pub open spec fn wf(self) -> bool {
        &&& self.pool.wf()
        &&& self.entries().len() <= u64::MAX
        &&& self.acks_ok()
    }

    /// The entries of the owned log, indexed by offset.
    pub open spec fn entries(self) -> Seq<Seq<u8>> {
        log_entries(self.log)
    }

    /// Whether the flush policy calls for an fsync at this clock reading.
    pub open spec fn flush_fires(self, now_ms: u64) -> bool {
        &&& self.dirty
        &&& now_ms > self.last_flush_ms
        &&& now_ms - self.last_flush_ms > self.flush_interval_ms
    }

    /// An engine owning the given log, with a full pool, a clean state
    /// and the flush timer anchored at the given clock reading.
    pub fn new(log: commitlog::CommitLog, cfg: &LogConfig, now_ms: u64) -> (r: Engine)
        requires
            log_entries(log).len() <= u64::MAX,
        ensures
            r.wf(),
            r.entries() == log_entries(log),
            !r.dirty,
            r.last_flush_ms == now_ms,
            r.flush_interval_ms == cfg.flush_interval_ms,
            r.acks@.len() == 0,
            r.pool.cap() == cfg.pool_capacity,
            r.pool.available() == cfg.pool_capacity,
    {
        Engine {
            log,
            pool: BufferPool::with_capacity(cfg.pool_capacity, cfg.pool_buf_initial_bytes),
            dirty: false,
            last_flush_ms: now_ms,
            flush_interval_ms: cfg.flush_interval_ms,
            acks: Ghost(Seq::empty()),
        }
    }

    /// Appends a batch of payloads as one physical append.
    ///
    /// On success the batch receives the next contiguous offsets, in
    /// input order, and the engine becomes dirty; on failure the log is
    /// unchanged, and so is the dirty flag, since nothing new needs to
    /// be persisted. The batch buffer is leased from the pool when one
    /// is available and allocated afresh otherwise, so pool exhaustion
    /// never fails an append.
    pub fn apply_append(&mut self, payloads: &Vec<Vec<u8>>) -> (r: Option<Vec<u64>>)
        requires
            old(self).wf(),
            payloads@.len() > 0,
        ensures
            final(self).wf(),
            final(self).flush_interval_ms == old(self).flush_interval_ms,
            final(self).last_flush_ms == old(self).last_flush_ms,
            r matches Some(offs) ==> {
                &&& final(self).entries() == old(self).entries() + views_of(payloads@)
                &&& offs@.len() == payloads@.len()
                &&& forall|i: int|
                    0 <= i < offs@.len() ==> offs@[i] == old(self).entries().len() + i
                &&& final(self).dirty
                &&& final(self).acks@ == old(self).acks@ + acks_of(
                    old(self).entries().len() as int,
                    views_of(payloads@),
                )
            },
            r is None ==> {
                &&& final(self).entries() == old(self).entries()
                &&& final(self).dirty == old(self).dirty
                &&& final(self).acks@ == old(self).acks@
            },
            old(self).entries().len() + payloads@.len() > u64::MAX ==> r is None,
    {
        let mut batch = match self.pool.checkout() {
            Some(b) => Messages::from_pooled(b),
            None => Messages::new(msgbuf_new()),
        };
        if !fill_batch(&mut batch, payloads) {
            let (buf, pooled) = batch.into_parts();
            if pooled {
                self.pool.release(buf);
            }
            return None;
        }
        let next = log_next_offset(&self.log);
        let n = payloads.len();
        if n as u64 > u64::MAX - next {
            // the log cannot assign offsets past u64; unreachable in
            // practice, but refused rather than assumed away
            let (buf, pooled) = batch.into_parts();
            if pooled {
                self.pool.release(buf);
            }
            return None;
        }
        let (mut buf, pooled) = batch.into_parts();
        let result = log_append(&mut self.log, &mut buf);
        if pooled {
            self.pool.release(buf);
        }
        match result {
            Ok(offs) => {
                self.dirty = true;
                self.acks = Ghost(
                    self.acks@ + acks_of(old(self).entries().len() as int, views_of(payloads@)),
                );
                proof {
                    lemma_acks_extend(*old(self), *self, views_of(payloads@));
                }
                Some(offs)
            },
            Err(()) => None,
        }
    }

    /// Splits a batch of requests into payloads and completions, appends
    /// the payloads as one physical append, and fires each completion
    /// positionally: the i-th request gets the i-th assigned offset, or
    /// a uniform append failure.
    pub fn handle_append_batch(&mut self, batch: Vec<AppendRequest>)
        requires
            old(self).wf(),
            batch@.len() > 0,
        ensures
            final(self).wf(),
            final(self).flush_interval_ms == old(self).flush_interval_ms,
            final(self).last_flush_ms == old(self).last_flush_ms,
            old(self).entries().is_prefix_of(final(self).entries()),
            final(self).entries() == old(self).entries() || final(self).entries() == old(
                self,
            ).entries() + payloads_of(batch@),
            final(self).acks@ == old(self).acks@ || final(self).acks@ == old(self).acks@
                + acks_of(old(self).entries().len() as int, payloads_of(batch@)),
            final(self).entries() == old(self).entries() ==> final(self).dirty == old(self).dirty,
            final(self).entries() != old(self).entries() ==> final(self).dirty,
    {
        let mut rest = batch;
        let mut payloads: Vec<Vec<u8>> = Vec::new();
        let mut completions: Vec<Completion<u64>> = Vec::new();
        proof {
            assert(rest@ =~= batch@.subrange(0, batch@.len() as int));
            assert(views_of(payloads@) =~= payloads_of(batch@).subrange(0, 0));
        }
        while rest.len() > 0
            invariant
                payloads@.len() == completions@.len(),
                payloads@.len() + rest@.len() == batch@.len(),
                rest@ == batch@.subrange(payloads@.len() as int, batch@.len() as int),
                views_of(payloads@) == payloads_of(batch@).subrange(0, payloads@.len() as int),
            decreases rest@.len(),
        {
            let ghost k = payloads@.len() as int;
            let req = rest.remove(0);
            payloads.push(req.payload);
            completions.push(req.completion);
            proof {
                assert(rest@ =~= batch@.subrange(k + 1, batch@.len() as int));
                assert(views_of(payloads@) =~= payloads_of(batch@).subrange(0, k + 1));
            }
        }
        proof {
            assert(views_of(payloads@) =~= payloads_of(batch@));
        }
        let acks = self.apply_append(&payloads);
        proof {
            assert(old(self).entries() =~= self.entries().subrange(
                0,
                old(self).entries().len() as int,
            ));
            if acks is Some {
                assert(self.entries().len() == old(self).entries().len() + batch@.len());
            }
        }
        match acks {
            Some(offs) => {
                let mut i: usize = 0;
                while i < completions.len()
                    invariant
                        i <= completions@.len(),
                        offs@.len() == completions@.len(),
                    decreases completions@.len() - i,
                {
                    let _ = channel_send(&completions[i], Ok(offs[i]));
                    i = i + 1;
                }
            },
            None => {
                let mut i: usize = 0;
                while i < completions.len()
                    invariant
                        i <= completions@.len(),
                    decreases completions@.len() - i,
                {
                    let _ = channel_send(&completions[i], Err(LogError::AppendFailed));
                    i = i + 1;
                }
            },
        }
    }

    /// The highest assigned offset, or zero when the log is empty.
    pub fn last_offset_value(&self) -> (r: u64)
        requires
            self.wf(),
        ensures
            r == last_offset_of(self.entries()),
    {
        match log_last_offset(&self.log) {
            Some(o) => o,
            None => 0,
        }
    }

    /// Answers a last-offset request. Never fails.
    pub fn handle_last_offset(&self, completion: Completion<u64>)
        requires
            self.wf(),
    {
        let v = self.last_offset_value();
        let _ = channel_send(&completion, Ok(v));
    }

    /// Reads messages starting at a position, under a byte budget.
    ///
    /// A numeric offset at or past the end of the log fails, as does a
    /// zero budget; an in-range read that succeeds returns at least one
    /// whole message, contiguous from the requested offset. Reading from
    /// the latest position succeeds with an empty batch.
    pub fn apply_read(&self, position: ReadPosition, limit: usize) -> (r: Result<
        Messages,
        LogError,
    >)
        ensures
            r matches Err(e) ==> e == LogError::ReadFailed,
            r matches Ok(m) ==> !m.is_borrowed() && !m.is_pooled(),
            r matches Ok(m) ==> m.bytes_view().len() <= limit,
            position matches ReadPosition::Offset(o) ==> {
                &&& (o >= self.entries().len() || limit == 0) ==> r is Err
                &&& (r matches Ok(m) ==> {
                    &&& o < self.entries().len()
                    &&& m.msgs().len() >= 1
                    &&& o + m.msgs().len() <= self.entries().len()
                    &&& m.msgs() == self.entries().subrange(o as int, o + m.msgs().len())
                })
            },
            position is Latest ==> (r matches Ok(m) && m.msgs().len() == 0),
    {
        match position {
            ReadPosition::Latest => Ok(Messages::new(msgbuf_new())),
            ReadPosition::Offset(o) => {
                if limit == 0 {
                    return Err(LogError::ReadFailed);
                }
                let next = log_next_offset(&self.log);
                if o >= next {
                    return Err(LogError::ReadFailed);
                }
                // the log takes its limit as a u32; a larger budget is
                // capped, which changes nothing a read could return
                let capped: usize = if limit > u32::MAX as usize {
                    u32::MAX as usize
                } else {
                    limit
                };
                match log_read(&self.log, o, capped) {
                    Ok(buf) => Ok(Messages::new(buf)),
                    Err(()) => Err(LogError::ReadFailed),
                }
            },
        }
    }

    /// Answers a read request.
    pub fn handle_read(&self, position: ReadPosition, limit: usize, completion: Completion<
        Messages,
    >)
    {
        let r = self.apply_read(position, limit);
        let _ = channel_send(&completion, r);
    }

    /// Consults the flush timer: fsyncs only while dirty and only once
    /// the interval has passed since the last successful flush. A failed
    /// fsync leaves the state as it was, to be retried on the next poll;
    /// acknowledged offsets stay acknowledged either way.
    pub fn poll_flush_at(&mut self, now_ms: u64) -> (flushed: bool)
        requires
            old(self).wf(),
        ensures
            final(self).wf(),
            final(self).entries() == old(self).entries(),
            final(self).flush_interval_ms == old(self).flush_interval_ms,
            !old(self).flush_fires(now_ms) ==> !flushed,
            flushed ==> final(self).last_flush_ms == now_ms && !final(self).dirty,
            !flushed ==> {
                &&& final(self).last_flush_ms == old(self).last_flush_ms
                &&& final(self).dirty == old(self).dirty
            },
            final(self).acks@ == old(self).acks@,
    {
        if self.dirty && now_ms > self.last_flush_ms && now_ms - self.last_flush_ms
            > self.flush_interval_ms {
            match log_flush(&mut self.log) {
                Ok(()) => {
                    self.last_flush_ms = now_ms;
                    self.dirty = false;
                    true
                },
                Err(()) => false,
            }
        } else {
            false
        }
    }

    /// Applies a drained run of requests in order, coalescing each run
    /// of consecutive append requests into one physical append. Reads
    /// and offset queries are answered in place, between batches.
    pub fn process_batch(&mut self, reqs: Vec<LogRequest>)
        requires
            old(self).wf(),
        ensures
            final(self).wf(),
            final(self).flush_interval_ms == old(self).flush_interval_ms,
            final(self).last_flush_ms == old(self).last_flush_ms,
            old(self).entries().is_prefix_of(final(self).entries()),
            final(self).entries() == old(self).entries() ==> final(self).dirty == old(self).dirty,
            final(self).entries() != old(self).entries() ==> final(self).dirty,
    {
        let mut rest = reqs;
        let mut pending: Vec<AppendRequest> = Vec::new();
        proof {
            lemma_prefix_reflexive(self.entries());
        }
        while rest.len() > 0
            invariant
                self.wf(),
                self.flush_interval_ms == old(self).flush_interval_ms,
                self.last_flush_ms == old(self).last_flush_ms,
                old(self).entries().is_prefix_of(self.entries()),
                self.entries() == old(self).entries() ==> self.dirty == old(self).dirty,
                self.entries() != old(self).entries() ==> self.dirty,
            decreases rest@.len(),
        {
            let ghost mid = self.entries();
            let ghost mid_dirty = self.dirty;
            let req = rest.remove(0);
            match req {
                LogRequest::Append(a) => {
                    pending.push(a);
                },
                LogRequest::LastOffset(c) => {
                    if pending.len() > 0 {
                        let batch = pending;
                        pending = Vec::new();
                        self.handle_append_batch(batch);
                    }
                    self.handle_last_offset(c);
                },
                LogRequest::Read(p, l, c) => {
                    if pending.len() > 0 {
                        let batch = pending;
                        pending = Vec::new();
                        self.handle_append_batch(batch);
                    }
                    self.handle_read(p, l, c);
                },
            }
            proof {
                lemma_prefix_reflexive(self.entries());
                lemma_prefix_transitive(old(self).entries(), mid, self.entries());
                if self.entries() == old(self).entries() {
                    lemma_sandwich_equal(old(self).entries(), mid, self.entries());
                }
            }
        }
        if pending.len() > 0 {
            let ghost mid = self.entries();
            let ghost mid_dirty = self.dirty;
            self.handle_append_batch(pending);
            proof {
                lemma_prefix_transitive(old(self).entries(), mid, self.entries());
                if self.entries() == old(self).entries() {
                    lemma_sandwich_equal(old(self).entries(), mid, self.entries());
                }
            }
        }
    }
}

/// Pushes every payload into the batch in input order; on a push failure
/// the batch is abandoned by the caller.
fn fill_batch(batch: &mut Messages, payloads: &Vec<Vec<u8>>) -> (ok: bool)
    requires
        !old(batch).is_borrowed(),
        old(batch).msgs().len() == 0,
    ensures
        !final(batch).is_borrowed(),
        final(batch).is_pooled() == old(batch).is_pooled(),
        ok ==> final(batch).msgs() == views_of(payloads@),
{
    let n = payloads.len();
    let mut i: usize = 0;
    proof {
        assert(batch.msgs() =~= views_of(payloads@).subrange(0, 0));
    }
    while i < n
        invariant
            i <= n,
            n == payloads@.len(),
            !batch.is_borrowed(),
            batch.is_pooled() == old(batch).is_pooled(),
            batch.msgs() == views_of(payloads@).subrange(0, i as int),
        decreases n - i,
    {
        if payloads[i].len() > (u32::MAX - 20) as usize {
            // the message's framed size would not fit its u32 header;
            // the whole batch is refused instead
            return false;
        }
        match batch.push(payloads[i].as_slice()) {
            Ok(()) => {},
            Err(()) => {
                return false;
            },
        }
        proof {
            assert(views_of(payloads@).subrange(0, i + 1) =~= views_of(payloads@).subrange(
                0,
                i as int,
            ).push(views_of(payloads@)[i as int]));
        }
        i = i + 1;
    }
    proof {
        assert(views_of(payloads@).subrange(0, n as int) =~= views_of(payloads@));
    }
    true
}

/// Acknowledgments stay honoured when a batch lands at the end of the
/// log: the old pairs point at entries the append did not touch, and the
/// new pairs point at the entries the batch just produced.
proof fn lemma_acks_extend(pre: Engine, post: Engine, added: Seq<Seq<u8>>)
    requires
        pre.acks_ok(),
        pre.entries().len() + added.len() <= u64::MAX,
        post.entries() == pre.entries() + added,
        post.acks@ == pre.acks@ + acks_of(pre.entries().len() as int, added),
    ensures
        post.acks_ok(),
{
    assert forall|i: int| 0 <= i < post.acks@.len() implies {
        &&& (#[trigger] post.acks@[i]).0 < post.entries().len()
        &&& post.entries()[post.acks@[i].0 as int] == post.acks@[i].1
    } by {
        if i < pre.acks@.len() {
            assert(post.acks@[i] == pre.acks@[i]);
            assert(post.entries()[pre.acks@[i].0 as int] == pre.entries()[pre.acks@[i].0 as int]);
        } else {
            let j = i - pre.acks@.len();
            assert(post.acks@[i] == acks_of(pre.entries().len() as int, added)[j]);
            assert(post.entries()[pre.entries().len() + j] == added[j]);
        }
    }
}

/// A prefix chain that ends where it began never moved: each link has
/// the same length as the ends, so each link is the same sequence.
proof fn lemma_sandwich_equal(s1: Seq<Seq<u8>>, s2: Seq<Seq<u8>>, s3: Seq<Seq<u8>>)
    requires
        s1.is_prefix_of(s2),
        s2.is_prefix_of(s3),
        s1 == s3,
    ensures
        s1 == s2,
        s2 == s3,
{
    assert(s1 =~= s2);
    assert(s2 =~= s3);
}

/// A sequence is a prefix of itself.
pub proof fn lemma_prefix_reflexive(s: Seq<Seq<u8>>)
    ensures
        s.is_prefix_of(s),
{
    assert(s =~= s.subrange(0, s.len() as int));
}

/// Being a prefix is transitive.
pub proof fn lemma_prefix_transitive(s1: Seq<Seq<u8>>, s2: Seq<Seq<u8>>, s3: Seq<Seq<u8>>)
    requires
        s1.is_prefix_of(s2),
        s2.is_prefix_of(s3),
    ensures
        s1.is_prefix_of(s3),
{
    assert(s1 =~= s3.subrange(0, s1.len() as int));
}

} // verus!
