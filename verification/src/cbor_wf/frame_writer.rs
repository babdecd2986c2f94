//! The decisions of a sink encoder: which bytes still have to be written to the transport.

use vstd::prelude::*;
use crate::text::owned;
use crate::thes_wf::ThesWF;
use crate::wire_format::{WireErr, WireFormat};

verus! {

/// What a write of the transport amounted to.
#[derive(Debug, Clone, Copy, PartialEq, Eq, Structural)]
pub enum FlushStep {
    /// The whole message has been written.
    Done,
    /// Part of the message remains to be written.
    More,
    /// The transport accepted no bytes, which means the connection is gone; the message is
    /// dropped.
    Aborted,
}

/// The state of an encoder writing `ThesWF` messages to a byte stream: at most one message
/// is buffered, with the number of its bytes already written.
#[derive(Debug)]
pub struct FrameWriter {
    buffer: Option<(ThesWF, usize)>,
    max_size: usize,
}

impl FrameWriter {
    /// The buffered message's bytes and how many of them were written.
    pub closed spec fn pending(&self) -> Option<(Seq<u8>, nat)> {
        match self.buffer {
            Some((m, pos)) => Some((m@, pos as nat)),
            None => None,
        }
    }

    /// The largest message accepted, in bytes.
    pub closed spec fn max(&self) -> nat {
        self.max_size as nat
    }

    /// The buffered message is well formed and no more of it was written than it holds.
    pub closed spec fn wf(&self) -> bool {
        match self.buffer {
            Some((m, pos)) => m.wf() && pos <= m@.len(),
            None => true,
        }
    }

    /// An encoder state without a buffered message, for messages of at most `max_size` bytes.
    pub fn new(max_size: usize) -> (r: Self)
        ensures
            r.wf(),
            r.pending() is None,
            r.max() == max_size,
    {
        Self { buffer: None, max_size }
    }

    /// Whether a message is buffered.
    pub fn has_pending(&self) -> (r: bool)
        ensures
            r == self.pending() is Some,
    {
        self.buffer.is_some()
    }

    /// Buffers a message for writing, unless its stated length exceeds the maximum size.
    pub fn start_send(&mut self, msg: ThesWF) -> (r: Result<(), WireErr>)
        requires
            old(self).wf(),
            old(self).pending() is None,
            msg.wf(),
        ensures
            final(self).wf(),
            final(self).max() == old(self).max(),
            msg.spec_len() > old(self).max() ==> final(self).pending() is None && match r {
                Err(WireErr::MessageSizeExceeded { context, size, max_size }) => context@
                    == "encoder start_send"@ && size == msg.spec_len() as u64 as usize
                    && max_size == old(self).max(),
                _ => false,
            },
            msg.spec_len() <= old(self).max() ==> r is Ok && final(self).pending() == Some(
                (msg@, 0nat),
            ),
    {
        let len = msg.len();
        if len > self.max_size as u64 {
            return Err(
                WireErr::MessageSizeExceeded {
                    context: owned("encoder start_send"),
                    size: len as usize,
                    max_size: self.max_size,
                },
            );
        }
        self.buffer = Some((msg, 0));
        Ok(())
    }

    /// The bytes that remain to be written: the unwritten end of the buffered message, or
    /// nothing.
    pub fn remaining(&self) -> (r: &[u8])
        requires
            self.wf(),
        ensures
            match self.pending() {
                Some((m, pos)) => r@ == m.subrange(pos as int, m.len() as int),
                None => r@ == Seq::<u8>::empty(),
            },
    {
        match &self.buffer {
            Some((m, pos)) => {
                let s = m.as_buf();
                &s[*pos..s.len()]
            },
            None => {
                let e: &[u8] = &[];
                assert(e@ =~= Seq::<u8>::empty());
                e
            },
        }
    }

    /// Takes in how many bytes the transport accepted of `remaining()`. Zero bytes means the
    /// connection is gone: the message is dropped. When the message has been written it is
    /// dropped as done; otherwise the position advances.
    pub fn on_written(&mut self, n: usize) -> (r: FlushStep)
        requires
            old(self).wf(),
            old(self).pending() matches Some((m, pos)) && n <= m.len() - pos,
        ensures
            final(self).wf(),
            final(self).max() == old(self).max(),
            ({
                let (m, pos) = old(self).pending()->0;
                if n == 0 {
                    r == FlushStep::Aborted && final(self).pending() is None
                } else if pos + n == m.len() {
                    r == FlushStep::Done && final(self).pending() is None
                } else {
                    r == FlushStep::More && final(self).pending() == Some((m, (pos + n) as nat))
                }
            }),
    {
        let (m, pos) = self.buffer.take().unwrap();
        if n == 0 {
            return FlushStep::Aborted;
        }
        let total = m.as_buf().len();
        let new_pos = pos + n;
        if new_pos == total {
            return FlushStep::Done;
        }
        self.buffer = Some((m, new_pos));
        FlushStep::More
    }

    /// Drops the buffered message after the transport failed.
    pub fn on_error(&mut self)
        ensures
            final(self).wf(),
            final(self).pending() is None,
            final(self).max() == old(self).max(),
    {
        self.buffer = None;
    }
}

/// The parts of a message handed to the transport by successive writes that accepted `ns`
/// bytes each, starting `pos` bytes into it: each write gets what remains.
pub open spec fn written_parts(m: Seq<u8>, pos: nat, ns: Seq<nat>) -> Seq<u8>
    decreases ns.len(),
{
    if ns.len() == 0 || pos >= m.len() {
        Seq::empty()
    } else {
        m.subrange(pos as int, (pos + ns[0]) as int) + written_parts(m, pos + ns[0], ns.drop_first())
    }
}

/// What successive writes accepting `ns` bytes each amount to, from `pos` bytes into a
/// message: the outcome of the first write that ends the flush, or `More` when none does.
pub open spec fn flush_outcome(m: Seq<u8>, pos: nat, ns: Seq<nat>) -> FlushStep
    decreases ns.len(),
{
    if ns.len() == 0 {
        FlushStep::More
    } else if ns[0] == 0 {
        FlushStep::Aborted
    } else if pos + ns[0] == m.len() {
        FlushStep::Done
    } else {
        flush_outcome(m, pos + ns[0], ns.drop_first())
    }
}

/// The sum of `ns`.
pub open spec fn total(ns: Seq<nat>) -> nat
    decreases ns.len(),
{
    if ns.len() == 0 {
        0
    } else {
        ns[0] + total(ns.drop_first())
    }
}

/// However the transport splits the writing of a message, as long as each write accepts some
/// bytes: the writes that together accept the rest of the message end the flush as done at
/// the last of them, and what they were handed is exactly the rest of the message, in order.
pub proof fn law_writer_parts(m: Seq<u8>, pos: nat, ns: Seq<nat>)
    requires
        pos < m.len(),
        forall|i: int| 0 <= i < ns.len() ==> #[trigger] ns[i] > 0,
        pos + total(ns) == m.len(),
    ensures
        flush_outcome(m, pos, ns) == FlushStep::Done,
        written_parts(m, pos, ns) == m.subrange(pos as int, m.len() as int),
    decreases ns.len(),
{
    if ns.len() == 0 {
        assert(false);
    }
    let rest = ns.drop_first();
    assert(ns[0] > 0);
    assert forall|i: int| 0 <= i < rest.len() implies #[trigger] rest[i] > 0 by {
        assert(rest[i] == ns[i + 1]);
    }
    if pos + ns[0] == m.len() {
        if rest.len() > 0 {
            assert(rest[0] > 0);
            assert(total(rest) >= rest[0]);
        }
        assert(written_parts(m, pos + ns[0], rest) =~= Seq::<u8>::empty());
        assert(m.subrange(pos as int, (pos + ns[0]) as int) + Seq::<u8>::empty() =~= m.subrange(pos as int, m.len() as int));
    } else {
        law_writer_parts(m, pos + ns[0], rest);
        assert(m.subrange(pos as int, (pos + ns[0]) as int) + m.subrange((pos + ns[0]) as int, m.len() as int) =~= m.subrange(
            pos as int,
            m.len() as int,
        ));
    }
}

} // verus!
