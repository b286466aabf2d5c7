//! Trusted boundary around the `commitlog` crate.
//!
//! The on-disk commit log is a collaborator, not part of the verified
//! logic: the engine consumes it as a black box. Its state is modelled by
//! `log_entries`, the sequence of message payloads the log holds, indexed
//! by offset; a `MessageBuf` is modelled by `msgbuf_msgs`, the sequence of
//! payloads serialized into it. Every function here is believed, not
//! proved: each body only makes the named call and converts its result.

use vstd::prelude::*;

verus! {

#[verifier::external_type_specification]
#[verifier::external_body]
pub struct ExCommitLog(commitlog::CommitLog);

#[verifier::external_type_specification]
#[verifier::external_body]
pub struct ExLogOptions(commitlog::LogOptions);

#[verifier::external_type_specification]
#[verifier::external_body]
pub struct ExMessageBuf(commitlog::message::MessageBuf);

/// The message payloads held by the log, indexed by offset.
pub uninterp spec fn log_entries(log: commitlog::CommitLog) -> Seq<Seq<u8>>;

/// The message payloads serialized into the buffer, in push order.
pub uninterp spec fn msgbuf_msgs(buf: commitlog::message::MessageBuf) -> Seq<Seq<u8>>;

/// The serialized byte form of the buffer's messages.
pub uninterp spec fn msgbuf_bytes_view(buf: commitlog::message::MessageBuf) -> Seq<u8>;

/// Relies on commitlog::LogOptions::new: options for a log stored in the
/// given directory, with the crate's defaults for everything else.
#[verifier::external_body]
pub(crate) fn opts_new(dir: &str) -> commitlog::LogOptions {
    commitlog::LogOptions::new(dir)
}

/// Relies on commitlog::LogOptions::index_max_items: bounds each index
/// file to the given number of entries. The setter multiplies by the
/// 8-byte entry size, so the count must leave that product representable.
#[verifier::external_body]
pub(crate) fn opts_index_max_items(opts: &mut commitlog::LogOptions, items: usize)
    requires
        items <= usize::MAX / 8,
{
    opts.index_max_items(items);
}

/// Relies on commitlog::LogOptions::segment_max_bytes: bounds each log
/// segment file to the given number of bytes.
#[verifier::external_body]
pub(crate) fn opts_segment_max_bytes(opts: &mut commitlog::LogOptions, bytes: usize) {
    opts.segment_max_bytes(bytes);
}

/// Relies on commitlog::CommitLog::new: creates or opens the log in the
/// directory named by the options. Offsets are dense from zero, so the
/// entry sequence of any openable log is indexable by u64. The crate
/// asserts while loading a malformed directory (a segment without its
/// index, an index file with a mangled name), so this can panic on a
/// disk state no precondition can exclude.
#[verifier::external_body]
pub(crate) fn log_new(opts: commitlog::LogOptions) -> (r: Option<commitlog::CommitLog>)
    ensures
        r matches Some(log) ==> log_entries(log).len() <= u64::MAX,
{
    commitlog::CommitLog::new(opts).ok()
}

/// Relies on commitlog::CommitLog::next_offset: the offset the next
/// append will receive, which is the number of entries in the log.
#[verifier::external_body]
pub(crate) fn log_next_offset(log: &commitlog::CommitLog) -> (r: u64)
    ensures
        r == log_entries(*log).len(),
{
    log.next_offset()
}

/// Relies on commitlog::CommitLog::last_offset: `None` on an empty log,
/// otherwise the offset of the last entry.
#[verifier::external_body]
pub(crate) fn log_last_offset(log: &commitlog::CommitLog) -> (r: Option<u64>)
    ensures
        r == if log_entries(*log).len() == 0 {
            Option::<u64>::None
        } else {
            Option::Some((log_entries(*log).len() - 1) as u64)
        },
{
    log.last_offset()
}

/// Relies on commitlog::CommitLog::append and OffsetRange::iter: the
/// messages of the buffer are appended in order and receive the next
/// contiguous offsets; on failure the log's entries are unchanged. The
/// append only rewrites the offset headers of the buffer, so the
/// buffer's payloads are unchanged either way. The crate asserts when a
/// tampered directory reopens with a full, read-only active index, so
/// this can panic on a disk state no precondition can exclude.
#[verifier::external_body]
pub(crate) fn log_append(
    log: &mut commitlog::CommitLog,
    buf: &mut commitlog::message::MessageBuf,
) -> (r: Result<Vec<u64>, ()>)
    requires
        msgbuf_msgs(*old(buf)).len() > 0,
        log_entries(*old(log)).len() + msgbuf_msgs(*old(buf)).len() <= u64::MAX,
    ensures
        msgbuf_msgs(*final(buf)) == msgbuf_msgs(*old(buf)),
        r matches Ok(offs) ==> {
            &&& log_entries(*final(log)) == log_entries(*old(log)) + msgbuf_msgs(*old(buf))
            &&& offs@.len() == msgbuf_msgs(*old(buf)).len()
            &&& forall|i: int|
                0 <= i < offs@.len() ==> offs@[i] == log_entries(*old(log)).len() + i
        },
        r is Err ==> log_entries(*final(log)) == log_entries(*old(log)),
{
    match log.append(buf) {
        Ok(range) => Ok(range.iter().collect()),
        Err(_) => Err(()),
    }
}

/// Relies on commitlog::CommitLog::read: whole messages starting exactly
/// at `start`, as many as fit the byte limit; an empty buffer when
/// `start` is past the end; at least one message otherwise. The crate
/// truncates the limit to u32 and asserts it is nonzero, so the limit
/// must be positive and fit in u32.
#[verifier::external_body]
pub(crate) fn log_read(
    log: &commitlog::CommitLog,
    start: u64,
    max_bytes: usize,
) -> (r: Result<commitlog::message::MessageBuf, ()>)
    requires
        0 < max_bytes <= u32::MAX,
    ensures
        r matches Ok(buf) ==> {
            &&& msgbuf_bytes_view(buf).len() <= max_bytes
            &&& start >= log_entries(*log).len() ==> msgbuf_msgs(buf).len() == 0
            &&& start < log_entries(*log).len() ==> {
                &&& msgbuf_msgs(buf).len() >= 1
                &&& start + msgbuf_msgs(buf).len() <= log_entries(*log).len()
                &&& msgbuf_msgs(buf) == log_entries(*log).subrange(
                    start as int,
                    start + msgbuf_msgs(buf).len(),
                )
            }
        },
{
    log.read(start, commitlog::ReadLimit::max_bytes(max_bytes)).map_err(|_| ())
}

/// Relies on commitlog::CommitLog::flush: flushes the active segment's
/// file and syncs the memory-mapped index; the logical contents are
/// unchanged. The segment half only reaches the OS, so this is a flush
/// request, not a guaranteed fsync.
#[verifier::external_body]
pub(crate) fn log_flush(log: &mut commitlog::CommitLog) -> (r: Result<(), ()>)
    ensures
        log_entries(*final(log)) == log_entries(*old(log)),
{
    log.flush().map_err(|_| ())
}

/// Relies on commitlog::message::MessageBuf::default: an empty buffer.
#[verifier::external_body]
pub(crate) fn msgbuf_new() -> (r: commitlog::message::MessageBuf)
    ensures
        msgbuf_msgs(r).len() == 0,
        msgbuf_bytes_view(r).len() == 0,
{
    commitlog::message::MessageBuf::default()
}

/// Relies on commitlog::message::MessageBuf::from_bytes: an empty vector
/// yields an empty buffer, and the vector's capacity is kept as the
/// buffer's storage.
#[verifier::external_body]
pub(crate) fn msgbuf_with_capacity(bytes: usize) -> (r: commitlog::message::MessageBuf)
    ensures
        msgbuf_msgs(r).len() == 0,
        msgbuf_bytes_view(r).len() == 0,
{
    commitlog::message::MessageBuf::from_bytes(Vec::with_capacity(bytes)).unwrap()
}

/// Relies on commitlog::message::MessageBuf::push: serializes the payload
/// as one more message; on failure the buffer is unchanged. The message
/// size header is a u32, so the payload must leave the framed size
/// representable; the push fails only when the buffer would grow past
/// `isize::MAX` bytes, the bound `Vec` itself enforces.
#[verifier::external_body]
pub(crate) fn msgbuf_push(
    buf: &mut commitlog::message::MessageBuf,
    payload: &[u8],
) -> (r: Result<(), ()>)
    requires
        payload@.len() + 20 <= u32::MAX,
    ensures
        r is Ok ==> msgbuf_msgs(*final(buf)) == msgbuf_msgs(*old(buf)).push(payload@),
        r is Err ==> msgbuf_msgs(*final(buf)) == msgbuf_msgs(*old(buf)),
        msgbuf_bytes_view(*old(buf)).len() + payload@.len() + 20 <= isize::MAX ==> r is Ok,
{
    buf.push(payload).map_err(|_| ())
}

/// Relies on commitlog::message::MessageSet::len: the number of messages
/// in the buffer.
#[verifier::external_body]
pub(crate) fn msgbuf_len(buf: &commitlog::message::MessageBuf) -> (r: usize)
    ensures
        r == msgbuf_msgs(*buf).len(),
{
    commitlog::message::MessageSet::len(buf)
}

/// Relies on commitlog::message::MessageSet::bytes: the serialized form
/// of the buffer's messages.
#[verifier::external_body]
pub(crate) fn msgbuf_bytes(buf: &commitlog::message::MessageBuf) -> (r: &[u8])
    ensures
        r@ == msgbuf_bytes_view(*buf),
{
    commitlog::message::MessageSet::bytes(buf)
}

/// Relies on commitlog::message::MessageBuf::clear: removes every
/// message, keeping the buffer's storage for reuse.
#[verifier::external_body]
pub(crate) fn msgbuf_clear(buf: &mut commitlog::message::MessageBuf)
    ensures
        msgbuf_msgs(*final(buf)).len() == 0,
        msgbuf_bytes_view(*final(buf)).len() == 0,
{
    buf.clear();
}

/// Relies on commitlog::message::MessageSet::iter and Message::payload:
/// the payload bytes of the message at the given position, or `None`
/// past the end.
#[verifier::external_body]
pub(crate) fn msgbuf_payload_at(
    buf: &commitlog::message::MessageBuf,
    i: usize,
) -> (r: Option<Vec<u8>>)
    ensures
        r is Some <==> i < msgbuf_msgs(*buf).len(),
        r matches Some(p) ==> p@ == msgbuf_msgs(*buf)[i as int],
{
    commitlog::message::MessageSet::iter(buf).nth(i).map(|m| m.payload().to_vec())
}

} // verus!
