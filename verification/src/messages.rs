//! The message-batch container.
//!
//! A batch of payloads lives in one of three places: a buffer leased from
//! the engine's pool, a freshly allocated buffer, or a read-only byte
//! view handed in from outside. Only the first two accept appends; the
//! borrowed form is a read-only projection guarded by preconditions.

use vstd::prelude::*;

use crate::commitlog_api::msgbuf_bytes;
use crate::commitlog_api::msgbuf_bytes_view;
use crate::commitlog_api::msgbuf_len;
use crate::commitlog_api::msgbuf_msgs;
use crate::commitlog_api::msgbuf_payload_at;
use crate::commitlog_api::msgbuf_push;

verus! {

/// Where a batch's bytes live.
pub enum BatchBuf {
    /// A buffer leased from the pool; handed back when the batch is done.
    Pooled(commitlog::message::MessageBuf),
    /// A freshly allocated buffer; the fallback when the pool is empty.
    Unpooled(commitlog::message::MessageBuf),
    /// An externally owned byte view; read-only.
    Borrowed(Vec<u8>),
}

/// A batch of raw message payloads.
pub struct Messages {
    /// The backing storage.
    pub inner: BatchBuf,
}

impl Messages {
    /// Whether the batch wraps an external byte view and is read-only.
    pub open spec fn is_borrowed(self) -> bool {
        self.inner is Borrowed
    }

    /// Whether the batch's buffer came from the pool.
    pub open spec fn is_pooled(self) -> bool {
        self.inner is Pooled
    }

    /// The payloads of the batch, in push order. A borrowed batch is an
    /// opaque byte view, so it holds no payloads of its own.
    pub open spec fn msgs(self) -> Seq<Seq<u8>> {
        match self.inner {
            BatchBuf::Pooled(b) => msgbuf_msgs(b),
            BatchBuf::Unpooled(b) => msgbuf_msgs(b),
            BatchBuf::Borrowed(_) => Seq::empty(),
        }
    }

    /// The serialized byte view of the batch.
    pub open spec fn bytes_view(self) -> Seq<u8> {
        match self.inner {
            BatchBuf::Pooled(b) => msgbuf_bytes_view(b),
            BatchBuf::Unpooled(b) => msgbuf_bytes_view(b),
            BatchBuf::Borrowed(v) => v@,
        }
    }

    /// The typed length: the number of payloads for an owned batch, and
    /// the number of bytes for a borrowed one.
    pub open spec fn count_view(self) -> nat {
        if self.is_borrowed() {
            self.bytes_view().len()
        } else {
            self.msgs().len()
        }
    }

    /// A batch owning the given buffer.
    pub fn new(buf: commitlog::message::MessageBuf) -> (r: Messages)
        ensures
            !r.is_borrowed(),
            !r.is_pooled(),
            r.msgs() == msgbuf_msgs(buf),
            r.bytes_view() == msgbuf_bytes_view(buf),
    {
        Messages { inner: BatchBuf::Unpooled(buf) }
    }

    /// A batch owning a buffer leased from the pool.
    pub fn from_pooled(buf: commitlog::message::MessageBuf) -> (r: Messages)
        ensures
            !r.is_borrowed(),
            r.is_pooled(),
            r.msgs() == msgbuf_msgs(buf),
    {
        Messages { inner: BatchBuf::Pooled(buf) }
    }

    /// A read-only batch wrapping an externally owned byte view.
    pub fn from_bytes(bytes: Vec<u8>) -> (r: Messages)
        ensures
            r.is_borrowed(),
            r.bytes_view() == bytes@,
    {
        Messages { inner: BatchBuf::Borrowed(bytes) }
    }

    /// Appends one payload. Defined only on owned batches; a borrowed
    /// batch is read-only. The payload must leave the message's framed
    /// size representable in its u32 header; the push then fails only
    /// when the buffer would grow past `isize::MAX` bytes.
    pub fn push(&mut self, payload: &[u8]) -> (r: Result<(), ()>)
        requires
            !old(self).is_borrowed(),
            payload@.len() + 20 <= u32::MAX,
        ensures
            !final(self).is_borrowed(),
            final(self).is_pooled() == old(self).is_pooled(),
            r is Ok ==> final(self).msgs() == old(self).msgs().push(payload@),
            r is Err ==> final(self).msgs() == old(self).msgs(),
            old(self).bytes_view().len() + payload@.len() + 20 <= isize::MAX ==> r is Ok,
    {
        match &mut self.inner {
            BatchBuf::Pooled(b) => msgbuf_push(b, payload),
            BatchBuf::Unpooled(b) => msgbuf_push(b, payload),
            BatchBuf::Borrowed(_) => {
                proof {
                    assert(false);
                }
                Err(())
            },
        }
    }

    /// The serialized bytes of the batch.
    pub fn bytes(&self) -> (r: &[u8])
        ensures
            r@ == self.bytes_view(),
    {
        match &self.inner {
            BatchBuf::Pooled(b) => msgbuf_bytes(b),
            BatchBuf::Unpooled(b) => msgbuf_bytes(b),
            BatchBuf::Borrowed(v) => v.as_slice(),
        }
    }

    /// The typed length of the batch.
    pub fn len(&self) -> (r: usize)
        ensures
            r == self.count_view(),
    {
        match &self.inner {
            BatchBuf::Pooled(b) => msgbuf_len(b),
            BatchBuf::Unpooled(b) => msgbuf_len(b),
            BatchBuf::Borrowed(v) => v.len(),
        }
    }

    /// The payload at the given position of an owned batch; `None` past
    /// the end or on a borrowed batch.
    pub fn payload_at(&self, i: usize) -> (r: Option<Vec<u8>>)
        ensures
            !self.is_borrowed() ==> (r is Some <==> i < self.msgs().len()),
            r matches Some(p) ==> p@ == self.msgs()[i as int],
            self.is_borrowed() ==> r is None,
    {
        match &self.inner {
            BatchBuf::Pooled(b) => msgbuf_payload_at(b, i),
            BatchBuf::Unpooled(b) => msgbuf_payload_at(b, i),
            BatchBuf::Borrowed(_) => None,
        }
    }

    /// Takes the backing buffer out of an owned batch, reporting whether
    /// it came from the pool.
    pub fn into_parts(self) -> (r: (commitlog::message::MessageBuf, bool))
        requires
            !self.is_borrowed(),
        ensures
            msgbuf_msgs(r.0) == self.msgs(),
            r.1 == self.is_pooled(),
    {
        match self.inner {
            BatchBuf::Pooled(b) => (b, true),
            BatchBuf::Unpooled(b) => (b, false),
            BatchBuf::Borrowed(_) => {
                proof {
                    assert(false);
                }
                (crate::commitlog_api::msgbuf_new(), false)
            },
        }
    }
}

} // verus!
