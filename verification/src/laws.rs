//! Ordering, round-trip and cadence laws of the engine.
//!
//! Each law is stated over the spec values that the engine's contracts
//! expose: the entry sequence of the log, the offset vectors that
//! `apply_append` returns, the value `last_offset_value` reports, and the
//! flush policy's firing condition.

use vstd::prelude::*;

use crate::engine::Engine;
use crate::engine::last_offset_of;

verus! {

/// An offset vector as `apply_append` assigns it: the k-th element is
/// the k-th offset past the length the log had when the batch landed.
pub open spec fn assigned_from(offs: Seq<u64>, base: int) -> bool {
    forall|i: int| 0 <= i < offs.len() ==> offs[i] == base + i
}

/// The offsets of one appended batch form a contiguous range of the
/// batch's length: each offset is one past its predecessor.
pub proof fn lemma_batch_offsets_contiguous(offs: Seq<u64>, base: int)
    requires
        assigned_from(offs, base),
    ensures
        forall|i: int| 0 <= i < offs.len() - 1 ==> offs[i + 1] == #[trigger] offs[i] + 1,
        offs.len() > 0 ==> offs[offs.len() - 1] == offs[0] + offs.len() - 1,
{
}

/// Appends acknowledged in program order carry strictly increasing
/// offsets: a batch that lands on a log extending the first batch's
/// result is assigned offsets above every offset of the first.
pub proof fn lemma_appends_ordered(offs1: Seq<u64>, base1: int, offs2: Seq<u64>, base2: int)
    requires
        assigned_from(offs1, base1),
        assigned_from(offs2, base2),
        base1 + offs1.len() <= base2,
    ensures
        forall|i: int, j: int|
            0 <= i < offs1.len() && 0 <= j < offs2.len() ==> offs1[i] < offs2[j],
{
}

/// After any number of acknowledged appends, the reported last offset
/// covers every acknowledged offset: entries are only ever appended, so
/// a log that extends the batch's landing point keeps every assigned
/// offset strictly inside it.
pub proof fn lemma_last_offset_covers_acks(offs: Seq<u64>, base: int, entries: Seq<Seq<u8>>)
    requires
        assigned_from(offs, base),
        base >= 0,
        base + offs.len() <= entries.len(),
    ensures
        forall|i: int| 0 <= i < offs.len() ==> offs[i] <= last_offset_of(entries),
{
}

/// An acknowledged offset names its payload: after a batch lands, the
/// entry at the i-th assigned offset is the i-th payload of the batch.
pub proof fn lemma_ack_names_payload(
    entries_before: Seq<Seq<u8>>,
    payloads: Seq<Seq<u8>>,
    offs: Seq<u64>,
    i: int,
)
    requires
        assigned_from(offs, entries_before.len() as int),
        offs.len() == payloads.len(),
        0 <= i < offs.len(),
    ensures
        (entries_before + payloads)[offs[i] as int] == payloads[i],
{
}

/// Round trip: a payload appended at some offset is returned, byte for
/// byte, as the first message of any successful read that starts at that
/// offset, however far the log has grown since.
pub proof fn lemma_append_read_round_trip(
    entries_before: Seq<Seq<u8>>,
    payloads: Seq<Seq<u8>>,
    k: int,
    entries_now: Seq<Seq<u8>>,
    result: Seq<Seq<u8>>,
)
    requires
        0 <= k < payloads.len(),
        (entries_before + payloads).is_prefix_of(entries_now),
        result.len() >= 1,
        entries_before.len() + k + result.len() <= entries_now.len(),
        result == entries_now.subrange(
            entries_before.len() + k,
            entries_before.len() + k + result.len(),
        ),
    ensures
        result[0] == payloads[k],
{
    assert(entries_now[entries_before.len() + k] == (entries_before + payloads)[entries_before.len()
        + k]);
}

/// Repeated offset queries with no intervening appends report the same
/// value: the reported offset is a function of the entries alone.
pub proof fn lemma_last_offset_idempotent(entries: Seq<Seq<u8>>, r1: u64, r2: u64)
    requires
        r1 == last_offset_of(entries),
        r2 == last_offset_of(entries),
    ensures
        r1 == r2,
{
}

/// On an empty log the reported last offset is zero.
pub proof fn lemma_last_offset_empty(entries: Seq<Seq<u8>>)
    requires
        entries.len() == 0,
    ensures
        last_offset_of(entries) == 0,
{
}

/// Every acknowledgment the engine has ever fired is honoured by the
/// log: the acknowledged offset names a live entry holding exactly the
/// acknowledged payload.
pub proof fn lemma_acknowledgment_honoured(e: Engine, i: int)
    requires
        e.wf(),
        0 <= i < e.acks@.len(),
    ensures
        e.acks@[i].0 < e.entries().len(),
        e.entries()[e.acks@[i].0 as int] == e.acks@[i].1,
{
}

/// The reported last offset covers the engine's whole acknowledgment
/// history: no offset ever handed to a client exceeds it.
pub proof fn lemma_last_offset_covers_history(e: Engine, i: int)
    requires
        e.wf(),
        0 <= i < e.acks@.len(),
    ensures
        e.acks@[i].0 <= last_offset_of(e.entries()),
{
}

/// Flush cadence: two consecutive successful fsyncs are more than the
/// flush interval apart. The first flush anchors the timer at its own
/// clock reading, and the policy only fires again once the interval has
/// passed since that anchor.
pub proof fn lemma_flush_cadence(e1: Engine, now1: u64, e2: Engine, now2: u64)
    requires
        e1.flush_fires(now1),
        e2.flush_fires(now2),
        e2.last_flush_ms == now1,
        e2.flush_interval_ms == e1.flush_interval_ms,
    ensures
        now2 - now1 > e1.flush_interval_ms,
{
}

} // verus!
