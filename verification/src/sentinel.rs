//! The monitor side of the sentinel technique: recognising the sentinel
//! message in what the child wrote to its pipe before the pipe closed.
//!
//! The listener reads the pipe in chunks of at most
//! [`SentinelReader::capacity`] bytes and hands each chunk to
//! [`SentinelReader::on_read`]; when a read fails or returns no byte the
//! pipe is closed and [`SentinelReader::received`] is the verdict.
use vstd::prelude::*;
use crate::client::{sentinel_magic, spec_notify, spec_sentinel_message, SENTINEL_MSG_LEN};
use crate::decimal::{decimal, lemma_parse_decimal};

verus! {

/// The `k`-th complete message of `stream` starts with the magic.
pub open spec fn frame_has_magic(stream: Seq<u8>, k: int) -> bool {
    0 <= k && 8 * k + 8 <= stream.len() && stream.subrange(8 * k, 8 * k + 4) == sentinel_magic()
}

/// Some complete message in `stream` starts with the magic.  The stream is
/// cut into consecutive 8-byte messages from its start; a trailing partial
/// message does not count.
pub open spec fn spec_sentinel_seen(stream: Seq<u8>) -> bool {
    exists|k: int| frame_has_magic(stream, k)
}

/// Whether the pipe is finished: the read failed or returned no byte.
pub fn read_finished(ok: bool, bytes_read: u32) -> (b: bool)
    ensures
        b == (!ok || bytes_read == 0),
{
    !ok || bytes_read == 0
}

/// Accumulates what the child writes to the sentinel pipe.
pub struct SentinelReader {
    buf: Vec<u8>,
    offset: usize,
    received: bool,
    stream: Ghost<Seq<u8>>,
}

impl SentinelReader {
    /// Everything read from the pipe so far.
    pub closed spec fn stream(&self) -> Seq<u8> {
        self.stream@
    }

    /// The reader's internal invariant: the buffer holds the trailing
    /// partial message of the stream, and `received` is the verdict on the
    /// stream.
    pub closed spec fn wf(&self) -> bool {
        &&& self.buf@.len() == SENTINEL_MSG_LEN
        &&& self.offset < SENTINEL_MSG_LEN
        &&& self.offset == self.stream@.len() % 8
        &&& forall|j: int| 0 <= j < self.offset ==> #[trigger] self.buf@[j] == self.stream@[self.stream@.len() - self.offset + j]
        &&& self.received == spec_sentinel_seen(self.stream@)
    }

    /// A reader that has read nothing.
    pub fn new() -> (r: Self)
        ensures
            r.wf(),
            r.stream() == Seq::<u8>::empty(),
    {
        let mut buf: Vec<u8> = Vec::new();
        let mut i: usize = 0;
        while i < SENTINEL_MSG_LEN
            invariant
                i <= SENTINEL_MSG_LEN,
                buf@.len() == i,
            decreases SENTINEL_MSG_LEN - i,
        {
            buf.push(0);
            i = i + 1;
        }
        SentinelReader { buf, offset: 0, received: false, stream: Ghost(Seq::empty()) }
    }

    /// How many bytes the next read may ask for: the rest of the current
    /// message.
    pub fn capacity(&self) -> (n: usize)
        requires
            self.wf(),
        ensures
            n == SENTINEL_MSG_LEN - self.stream().len() % 8,
            0 < n <= SENTINEL_MSG_LEN,
    {
        SENTINEL_MSG_LEN - self.offset
    }

    /// Whether a sentinel message has been seen.
    pub fn received(&self) -> (b: bool)
        requires
            self.wf(),
        ensures
            b == spec_sentinel_seen(self.stream()),
    {
        self.received
    }

    /// Takes in the bytes of one read.
    pub fn on_read(&mut self, data: &[u8])
        requires
            old(self).wf(),
            0 < data@.len() <= SENTINEL_MSG_LEN - old(self).stream().len() % 8,
        ensures
            final(self).wf(),
            final(self).stream() == old(self).stream() + data@,
    {
        let ghost s = self.stream@;
        let ghost s2 = s + data@;
        let ghost q: int = (s.len() / 8) as int;
        assert(s.len() == 8 * q + self.offset);
        let start = self.offset;
        let mut i: usize = 0;
        while i < data.len()
            invariant
                self.buf@.len() == SENTINEL_MSG_LEN,
                start == self.offset,
                self.received == spec_sentinel_seen(s),
                start + data@.len() <= SENTINEL_MSG_LEN,
                i <= data@.len(),
                forall|j: int| 0 <= j < start ==> #[trigger] self.buf@[j] == s2[8 * q + j],
                forall|j: int| start <= j < start + i ==> #[trigger] self.buf@[j] == s2[8 * q + j],
                s.len() == 8 * q + start,
                s2 == s + data@,
            decreases data@.len() - i,
        {
            self.buf.set(start + i, data[i]);
            i = i + 1;
        }
        self.stream = Ghost(s2);
        let end = start + data.len();
        if end >= SENTINEL_MSG_LEN {
            let magic = self.buf[0] == 0x57 && self.buf[1] == 0x4F && self.buf[2] == 0x52 && self.buf[3] == 0x54;
            proof {
                assert(s2.len() == 8 * q + 8);
                assert(magic == (s2.subrange(8 * q, 8 * q + 4) =~= sentinel_magic())) by {
                    assert(self.buf@[0] == s2[8 * q]);
                    assert(self.buf@[1] == s2[8 * q + 1]);
                    assert(self.buf@[2] == s2[8 * q + 2]);
                    assert(self.buf@[3] == s2[8 * q + 3]);
                }
                if spec_sentinel_seen(s2) {
                    let k = choose|k: int| frame_has_magic(s2, k);
                    if k < q {
                        assert(s2.subrange(8 * k, 8 * k + 4) =~= s.subrange(8 * k, 8 * k + 4));
                        assert(frame_has_magic(s, k));
                    } else {
                        assert(k == q);
                        assert(magic);
                    }
                }
                if spec_sentinel_seen(s) {
                    let k = choose|k: int| frame_has_magic(s, k);
                    assert(s2.subrange(8 * k, 8 * k + 4) =~= s.subrange(8 * k, 8 * k + 4));
                    assert(frame_has_magic(s2, k));
                }
                if magic {
                    assert(frame_has_magic(s2, q));
                }
            }
            self.received = self.received || magic;
            self.offset = 0;
            proof {
                assert(s2.len() % 8 == 0) by (nonlinear_arith)
                    requires s2.len() == 8 * q + 8, q >= 0;
                assert(self.received == spec_sentinel_seen(s2));
            }
        } else {
            self.offset = end;
            proof {
                assert(s2.len() % 8 == end as int) by (nonlinear_arith)
                    requires s2.len() == 8 * q + end, 0 <= end < 8, q >= 0;
                if spec_sentinel_seen(s2) {
                    let k = choose|k: int| frame_has_magic(s2, k);
                    assert(s2.subrange(8 * k, 8 * k + 4) =~= s.subrange(8 * k, 8 * k + 4));
                    assert(frame_has_magic(s, k));
                }
                if spec_sentinel_seen(s) {
                    let k = choose|k: int| frame_has_magic(s, k);
                    assert(s2.subrange(8 * k, 8 * k + 4) =~= s.subrange(8 * k, 8 * k + 4));
                    assert(frame_has_magic(s2, k));
                }
                assert forall|j: int| 0 <= j < self.offset implies #[trigger] self.buf@[j] == s2[s2.len() - self.offset + j] by {
                    if j < start {
                    } else {
                    }
                }
            }
        }
    }
}

/// What a cooperating child writes is recognised: a stream that starts with
/// the child's sentinel message (whatever follows) is a clean exit, however
/// the reads cut it.
pub proof fn lemma_client_message_recognised(exit_code: i32, rest: Seq<u8>)
    ensures
        spec_sentinel_seen(spec_sentinel_message(exit_code) + rest),
{
    let s = spec_sentinel_message(exit_code) + rest;
    assert(s.subrange(0, 4) =~= sentinel_magic());
    assert(frame_has_magic(s, 0));
}

/// A child that writes nothing before its pipe closes is not taken for a
/// cooperating one.
pub proof fn lemma_silent_child_not_seen()
    ensures
        !spec_sentinel_seen(Seq::<u8>::empty()),
{
}

/// The handle that the monitor passes in the environment is the handle the
/// child writes its message to.
pub proof fn lemma_handle_reaches_child(handle: usize, exit_code: i32)
    requires
        handle != 0,
    ensures
        spec_notify(exit_code, Some(decimal(handle as nat))) == Some((handle, spec_sentinel_message(exit_code))),
{
    lemma_parse_decimal(handle);
}

} // verus!
