//! Fixed-capacity pool of reusable message buffers.
//!
//! The pool is owned by the single engine thread, so it needs no
//! synchronization. Checking out yields one buffer or nothing; a buffer
//! handed back is cleared first and re-inserted only while the pool has
//! room, so every buffer the pool holds is empty and the pool never
//! exceeds its configured capacity.

use vstd::prelude::*;

use crate::commitlog_api::msgbuf_clear;
use crate::commitlog_api::msgbuf_msgs;
use crate::commitlog_api::msgbuf_with_capacity;

verus! {

/// Pool of pre-allocated, reusable message buffers.
pub struct BufferPool {
    /// The buffers ready to be checked out.
    pub bufs: Vec<commitlog::message::MessageBuf>,
    /// The most buffers the pool will hold.
    pub capacity: usize,
    /// The storage each pre-allocated buffer starts with.
    pub initial_bytes: usize,
}

impl BufferPool {
    /// The pool holds at most `capacity` buffers, all of them empty.
    pub open spec fn wf(self) -> bool {
        &&& self.bufs@.len() <= self.capacity
        &&& forall|i: int|
            0 <= i < self.bufs@.len() ==> msgbuf_msgs(#[trigger] self.bufs@[i]).len() == 0
    }

    /// How many buffers are ready to be checked out.
    pub open spec fn available(self) -> nat {
        self.bufs@.len()
    }

    /// The configured capacity.
    pub open spec fn cap(self) -> nat {
        self.capacity as nat
    }

    /// A full pool of `capacity` empty buffers, each starting with
    /// `initial_bytes` of storage.
    pub fn with_capacity(capacity: usize, initial_bytes: usize) -> (r: BufferPool)
        ensures
            r.wf(),
            r.cap() == capacity,
            r.available() == capacity,
    {
        let mut bufs: Vec<commitlog::message::MessageBuf> = Vec::new();
        let mut i: usize = 0;
        while i < capacity
            invariant
                i <= capacity,
                bufs@.len() == i,
                forall|j: int| 0 <= j < i ==> msgbuf_msgs(#[trigger] bufs@[j]).len() == 0,
            decreases capacity - i,
        {
            bufs.push(msgbuf_with_capacity(initial_bytes));
            i = i + 1;
        }
        BufferPool { bufs, capacity, initial_bytes }
    }

    /// One empty buffer, or nothing while the pool is exhausted.
    /// Exhaustion is not an error: callers fall back to a one-shot
    /// allocation.
    pub fn checkout(&mut self) -> (r: Option<commitlog::message::MessageBuf>)
        requires
            old(self).wf(),
        ensures
            final(self).wf(),
            final(self).cap() == old(self).cap(),
            r is Some <==> old(self).available() > 0,
            r matches Some(buf) ==> {
                &&& msgbuf_msgs(buf).len() == 0
                &&& final(self).available() == old(self).available() - 1
            },
            r is None ==> final(self).available() == old(self).available(),
    {
        self.bufs.pop()
    }

    /// Hands a buffer back: it is cleared, then re-inserted if the pool
    /// has room and dropped otherwise, so the pool never grows past its
    /// capacity and never holds a non-empty buffer.
    pub fn release(&mut self, buf: commitlog::message::MessageBuf)
        requires
            old(self).wf(),
        ensures
            final(self).wf(),
            final(self).cap() == old(self).cap(),
            final(self).available() == if old(self).available() < old(self).cap() {
                old(self).available() + 1
            } else {
                old(self).available()
            },
    {
        let mut b = buf;
        msgbuf_clear(&mut b);
        if self.bufs.len() < self.capacity {
            self.bufs.push(b);
        }
    }
}

} // verus!
