//! The decisions of a stream decoder: what to read next from the transport, and what the
//! bytes read so far amount to.

use vstd::prelude::*;
use crate::buf::append_bytes;
use crate::little_endian::{le_value, lemma_le_value_bound, lemma_pow256_8, read_u64_le};
use crate::text::owned;
use crate::thes_wf::{LEN_HEADER, LEN_LEN, ThesWF};
use crate::wire_format::{IoKind, WireErr};

verus! {

/// What taking in more bytes amounts to for a reader.
pub enum ReadStep {
    /// The message is not complete yet: the bytes received so far, and its length once known.
    More { filled: Seq<u8>, target: Option<nat> },
    /// The prefix announces a message longer than the limit: the announced length.
    TooLarge(nat),
    /// The prefix announces a message too short to hold a header: the data is malformed.
    TooShort,
    /// The message is complete: its bytes.
    Message(Seq<u8>),
}

/// What taking in `data` amounts to for a reader that has received `filled` of a message of
/// length `target` (once its prefix is complete), with messages limited to `max` bytes.
pub open spec fn read_step(filled: Seq<u8>, target: Option<nat>, max: nat, data: Seq<u8>) -> ReadStep {
    let f = filled + data;
    match target {
        None => if f.len() < 8 {
            ReadStep::More { filled: f, target: None }
        } else if le_value(f.subrange(0, 8)) > max {
            ReadStep::TooLarge(le_value(f.subrange(0, 8)))
        } else if le_value(f.subrange(0, 8)) < LEN_HEADER {
            ReadStep::TooShort
        } else {
            ReadStep::More { filled: f, target: Some(le_value(f.subrange(0, 8))) }
        },
        Some(t) => if f.len() == t {
            ReadStep::Message(f)
        } else {
            ReadStep::More { filled: f, target: Some(t) }
        },
    }
}

/// The state of a decoder reading `ThesWF` messages from a byte stream: first the eight byte
/// length prefix, then the rest of a message of exactly that length. Once the stream has ended
/// (`close`, `on_end`, `on_io_error`), the reader stays closed: no step opens it again, and it
/// wants no more bytes.
#[derive(Debug)]
pub struct FrameReader {
    filled: Vec<u8>,
    target: Option<usize>,
    closed: bool,
    max_size: usize,
    context: String,
}

impl FrameReader {
    /// The bytes of the current message received so far (prefix included).
    pub closed spec fn filled(&self) -> Seq<u8> {
        self.filled@
    }

    /// The length of the current message, once its prefix has been received.
    pub closed spec fn target(&self) -> Option<nat> {
        match self.target {
            Some(t) => Some(t as nat),
            None => None,
        }
    }

    /// Whether the stream has ended in an error; nothing more is read then.
    pub closed spec fn spec_closed(&self) -> bool {
        self.closed
    }

    /// The largest message accepted, in bytes.
    pub closed spec fn max(&self) -> nat {
        self.max_size as nat
    }

    /// The context named in size errors.
    pub closed spec fn context(&self) -> Seq<char> {
        self.context@
    }

    /// The state is consistent: before the prefix is complete there is no length; after, the
    /// length is the one the prefix announces, long enough for a header, within the limit, and
    /// not yet reached.
    pub closed spec fn wf(&self) -> bool {
        match self.target {
            None => self.filled@.len() < 8,
            Some(t) => 8 <= self.filled@.len() < t && LEN_HEADER <= t <= self.max_size && t == le_value(
                self.filled@.subrange(0, 8),
            ),
        }
    }

    /// A reader at the start of a message, for messages of at most `max_size` bytes; size
    /// errors name `context`.
    pub fn new(max_size: usize, context: &str) -> (r: Self)
        ensures
            r.wf(),
            r.filled() == Seq::<u8>::empty(),
            r.target() is None,
            !r.spec_closed(),
            r.max() == max_size,
            r.context() == context@,
    {
        Self { filled: Vec::new(), target: None, closed: false, max_size, context: owned(context) }
    }

    /// Whether the stream has ended in an error.
    pub fn is_closed(&self) -> (r: bool)
        ensures
            r == self.spec_closed(),
    {
        self.closed
    }

    /// Marks the stream as ended in an error (an I/O error of the transport).
    pub fn close(&mut self)
        requires
            old(self).wf(),
        ensures
            final(self).wf(),
            final(self).spec_closed(),
            final(self).filled() == old(self).filled(),
            final(self).target() == old(self).target(),
            final(self).max() == old(self).max(),
            final(self).context() == old(self).context(),
    {
        self.closed = true;
    }

    /// The transport ended: the stream is over, and a message not yet complete is dropped.
    /// Nothing more is read.
    pub fn on_end(&mut self)
        requires
            old(self).wf(),
        ensures
            final(self).wf(),
            final(self).spec_closed(),
            final(self).max() == old(self).max(),
            final(self).context() == old(self).context(),
    {
        self.closed = true;
    }

    /// Reading from the transport failed with an error of kind `kind`. Nothing more is read.
    /// An unexpected end of the transport ends the stream quietly (`None`); any other error is
    /// reported.
    pub fn on_io_error(&mut self, kind: IoKind) -> (r: Option<WireErr>)
        requires
            old(self).wf(),
        ensures
            final(self).wf(),
            final(self).spec_closed(),
            final(self).max() == old(self).max(),
            final(self).context() == old(self).context(),
            kind is UnexpectedEof ==> r is None,
            !(kind is UnexpectedEof) ==> r == Some(WireErr::Io { kind }),
    {
        self.closed = true;
        match kind {
            IoKind::UnexpectedEof => None,
            _ => Some(WireErr::Io { kind }),
        }
    }

    /// How many bytes to ask the transport for: what is missing of the prefix, or of the
    /// message once its length is known. Zero once closed.
    pub fn wanted(&self) -> (n: usize)
        requires
            self.wf(),
        ensures
            self.spec_closed() ==> n == 0,
            !self.spec_closed() ==> n == match self.target() {
                None => 8 - self.filled().len(),
                Some(t) => t - self.filled().len(),
            },
            !self.spec_closed() ==> n > 0,
    {
        if self.closed {
            return 0;
        }
        match self.target {
            None => LEN_LEN - self.filled.len(),
            Some(t) => t - self.filled.len(),
        }
    }

    /// Whether `data` can be taken in now: it is no more than is wanted.
    pub fn accepts(&self, data: &[u8]) -> (r: bool)
        requires
            self.wf(),
            !self.spec_closed(),
        ensures
            r == (data@.len() <= match self.target() {
                None => 8 - self.filled().len(),
                Some(t) => t - self.filled().len(),
            }),
    {
        let wanted = match self.target {
            None => LEN_LEN - self.filled.len(),
            Some(t) => t - self.filled.len(),
        };
        data.len() <= wanted
    }

    /// Takes in bytes read from the transport (at most `wanted()` of them). When they complete
    /// the prefix, the announced length is checked against the limit: a bigger message is
    /// reported as an error and reading starts over, as is a prefix that announces a message too
    /// short for a header (a malformed message). When they complete a message, the message
    /// is returned (or the error of making one from too few bytes) and reading starts over.
    /// Otherwise nothing is returned yet.
    pub fn on_data(&mut self, data: &[u8]) -> (r: Option<Result<ThesWF, WireErr>>)
        requires
            old(self).wf(),
            !old(self).spec_closed(),
            data@.len() <= match old(self).target() {
                None => 8 - old(self).filled().len(),
                Some(t) => t - old(self).filled().len(),
            },
        ensures
            final(self).wf(),
            !final(self).spec_closed(),
            final(self).max() == old(self).max(),
            final(self).context() == old(self).context(),
            match read_step(old(self).filled(), old(self).target(), old(self).max(), data@) {
                ReadStep::More { filled, target } => {
                    &&& r is None
                    &&& final(self).filled() == filled
                    &&& final(self).target() == target
                },
                ReadStep::TooLarge(n) => {
                    &&& final(self).filled() == Seq::<u8>::empty()
                    &&& final(self).target() is None
                    &&& r is Some && r->0 is Err && r->0->Err_0 is MessageSizeExceeded
                    &&& r->0->Err_0->MessageSizeExceeded_context@ == old(self).context()
                    &&& r->0->Err_0->MessageSizeExceeded_size == n as usize
                    &&& r->0->Err_0->MessageSizeExceeded_max_size == old(self).max()
                },
                ReadStep::TooShort => {
                    &&& final(self).filled() == Seq::<u8>::empty()
                    &&& final(self).target() is None
                    &&& r is Some && r->0 is Err && r->0->Err_0 is Deserialize
                },
                ReadStep::Message(b) => {
                    &&& final(self).filled() == Seq::<u8>::empty()
                    &&& final(self).target() is None
                    &&& r is Some && r->0 is Ok && r->0->Ok_0@ == b
                },
            },
    {
        append_bytes(&mut self.filled, data);
        match self.target {
            None => {
                if self.filled.len() < LEN_LEN {
                    return None;
                }
                proof {
                    lemma_pow256_8();
                    lemma_le_value_bound(self.filled@.subrange(0, 8));
                }
                let len = read_u64_le(self.filled.as_slice(), 0);
                if len > self.max_size as u64 {
                    let context = owned(self.context.as_str());
                    self.filled = Vec::new();
                    return Some(
                        Err(
                            WireErr::MessageSizeExceeded {
                                context,
                                size: len as usize,
                                max_size: self.max_size,
                            },
                        ),
                    );
                }
                if len < LEN_HEADER as u64 {
                    let mut whole: Vec<u8> = Vec::new();
                    std::mem::swap(&mut whole, &mut self.filled);
                    return Some(ThesWF::try_from(whole));
                }
                self.target = Some(len as usize);
                None
            },
            Some(t) => {
                assert(self.filled@.subrange(0, 8) =~= old(self).filled@.subrange(0, 8));
                if self.filled.len() < t {
                    return None;
                }
                let mut whole: Vec<u8> = Vec::new();
                std::mem::swap(&mut whole, &mut self.filled);
                self.target = None;
                Some(ThesWF::try_from(whole))
            },
        }
    }
}

/// What feeding `chunks` one after the other amounts to, up to the first chunk that completes
/// or fails a message.
pub open spec fn feed(filled: Seq<u8>, target: Option<nat>, max: nat, chunks: Seq<Seq<u8>>) -> ReadStep
    decreases chunks.len(),
{
    if chunks.len() == 0 {
        ReadStep::More { filled, target }
    } else {
        match read_step(filled, target, max, chunks[0]) {
            ReadStep::More { filled: f, target: t } => feed(f, t, max, chunks.drop_first()),
            other => other,
        }
    }
}

/// Whether some chunk ends exactly `n` bytes into the chunks, as when the reader is asked for
/// no more than it wants: the length prefix then never shares a chunk with what follows it.
pub open spec fn splits_at(chunks: Seq<Seq<u8>>, n: nat) -> bool
    decreases chunks.len(),
{
    if n == 0 {
        true
    } else if chunks.len() == 0 {
        false
    } else {
        chunks[0].len() <= n && splits_at(chunks.drop_first(), (n - chunks[0].len()) as nat)
    }
}

/// A well formed message within the limit: a header at least, and a length prefix that
/// announces the message's own length.
pub open spec fn is_message(m: Seq<u8>, max: nat) -> bool {
    &&& LEN_HEADER <= m.len() <= max
    &&& le_value(m.subrange(0, 8)) == m.len()
}

/// Feeding the rest of a message, from `k` bytes into it, completes it.
proof fn lemma_feed_from(m: Seq<u8>, max: nat, k: nat, chunks: Seq<Seq<u8>>)
    requires
        is_message(m, max),
        k < m.len(),
        chunks.flatten() == m.subrange(k as int, m.len() as int),
        k < 8 ==> splits_at(chunks, (8 - k) as nat),
    ensures
        feed(m.subrange(0, k as int), if k < 8 { None } else { Some(m.len()) }, max, chunks)
            == ReadStep::Message(m),
    decreases chunks.len(),
{
    let target: Option<nat> = if k < 8 { None } else { Some(m.len()) };
    if chunks.len() == 0 {
        assert(m.subrange(k as int, m.len() as int).len() == 0);
        assert(false);
    }
    let c = chunks[0];
    let rest = chunks.drop_first();
    assert(chunks.flatten() == c + rest.flatten());
    let k2 = k + c.len();
    assert(k2 <= m.len()) by {
        assert((c + rest.flatten()).len() == m.len() - k);
    }
    let f = m.subrange(0, k as int) + c;
    assert(f =~= m.subrange(0, k2 as int)) by {
        assert forall|i: int| 0 <= i < c.len() implies c[i] == m[k + i] by {
            assert(c[i] == (c + rest.flatten())[i]);
        }
    }
    assert(rest.flatten() =~= m.subrange(k2 as int, m.len() as int)) by {
        assert forall|i: int| 0 <= i < rest.flatten().len() implies rest.flatten()[i] == m[k2 + i] by {
            assert(rest.flatten()[i] == (c + rest.flatten())[c.len() + i]);
        }
    }
    if k < 8 {
        assert(c.len() <= 8 - k);
        if k2 < 8 {
            assert(read_step(m.subrange(0, k as int), target, max, c) == ReadStep::More {
                filled: f,
                target: None,
            });
            lemma_feed_from(m, max, k2, rest);
        } else {
            assert(f.subrange(0, 8) =~= m.subrange(0, 8));
            assert(read_step(m.subrange(0, k as int), target, max, c) == ReadStep::More {
                filled: f,
                target: Some(m.len()),
            });
            lemma_feed_from(m, max, k2, rest);
        }
    } else {
        if k2 == m.len() {
            assert(f =~= m);
        } else {
            lemma_feed_from(m, max, k2, rest);
        }
    }
}

/// However a message is cut into chunks, a reader at the start of a message that is fed the
/// chunks returns exactly that message, at the chunk that completes it; provided the length
/// prefix does not share a chunk with what follows it, as when the reader is asked for no more
/// than it wants.
pub proof fn law_reader_chunking(m: Seq<u8>, max: nat, chunks: Seq<Seq<u8>>)
    requires
        is_message(m, max),
        chunks.flatten() == m,
        splits_at(chunks, 8),
    ensures
        feed(Seq::empty(), None, max, chunks) == ReadStep::Message(m),
{
    assert(m.subrange(0, 0) =~= Seq::<u8>::empty());
    assert(m.subrange(0, m.len() as int) =~= m);
    lemma_feed_from(m, max, 0, chunks);
}

} // verus!
