//! The streaming copier as a state machine.
//!
//! The caller owns the source and the connection. It reads a chunk when asked,
//! writes the bytes it is handed, and reports each outcome as an event; the
//! copier answers with the next action. The count it returns is the number of
//! bytes read from the source, not the number written to the wire.
use crate::codec::{concat_chunks, lemma_concat_push, stream_of, Encoder};
use crate::options::{CompressionMode, TransferError};
use vstd::prelude::*;
use vstd::slice::{slice_subrange, slice_to_vec};

verus! {

/// Most bytes read from the source at once.
pub const COPY_BUFFER_SIZE: usize = 65536;

/// Outcome of a transfer that completed.
#[derive(Debug, Clone, Copy, PartialEq, Eq, Structural)]
pub struct TransferResult {
    /// Bytes read from the source, before any compression.
    pub bytes_transferred: u64,
}

#[derive(Debug, Clone, Copy, PartialEq, Eq, Structural)]
pub enum CopyPhase {
    /// Reading the source and sending what the codec makes of it.
    Streaming,
    /// The source is exhausted; the codec's last bytes are being sent.
    Draining,
    Finished,
    Failed,
}

/// What happened since the last action.
pub enum CopyEvent {
    /// A chunk was read from the source.
    Chunk(Vec<u8>),
    /// The source signalled its end.
    EndOfStream,
    /// The bytes of the last `Send` were written.
    Sent,
    ReadFailed,
    WriteFailed,
}

/// What the caller is to do next.
pub enum CopyAction {
    /// Read the next chunk from the source.
    Read,
    /// Write these bytes to the connection, then report `Sent`.
    Send(Vec<u8>),
    /// The transfer is complete.
    Done(TransferResult),
    /// The transfer failed; no count is reported.
    Abort(TransferError),
}

pub struct Copier {
    encoder: Option<Encoder>,
    mode: CompressionMode,
    phase: CopyPhase,
    total: u64,
    chunks: Ghost<Seq<Seq<u8>>>,
    wire: Ghost<Seq<u8>>,
}

impl CopyEvent {
    pub open spec fn is_failure(&self) -> bool {
        self is ReadFailed || self is WriteFailed
    }
}

/// `s` cut into consecutive pieces of `n` bytes, the last one shorter if
/// need be; no piece is empty.
pub open spec fn chunks_of(s: Seq<u8>, n: nat) -> Seq<Seq<u8>>
    decreases s.len(),
{
    if n == 0 || s.len() == 0 {
        Seq::empty()
    } else if s.len() <= n {
        seq![s]
    } else {
        seq![s.take(n as int)] + chunks_of(s.skip(n as int), n)
    }
}

impl Copier {
    /// The chunks read from the source so far, in order.
    pub closed spec fn chunks(&self) -> Seq<Seq<u8>> {
        self.chunks@
    }

    /// The bytes handed out for the wire so far.
    pub closed spec fn wire(&self) -> Seq<u8> {
        self.wire@
    }

    /// The bytes read from the source so far, in order.
    pub open spec fn consumed(&self) -> Seq<u8> {
        concat_chunks(self.chunks())
    }

    pub closed spec fn phase(&self) -> CopyPhase {
        self.phase
    }

    pub closed spec fn mode(&self) -> CompressionMode {
        self.mode
    }

    pub closed spec fn wf(&self) -> bool {
        &&& self.total == concat_chunks(self.chunks@).len()
        &&& self.mode.spec_is_supported()
        &&& self.phase is Streaming ==> {
            &&& self.encoder is Some
            &&& self.encoder->Some_0.spec_mode() == self.mode
            &&& self.encoder->Some_0.wf()
            &&& self.encoder->Some_0.fed() == self.chunks@
            &&& self.encoder->Some_0.emitted() == self.wire@
        }
        &&& (self.phase is Draining || self.phase is Finished) ==> self.wire@ == stream_of(
            self.mode,
            self.chunks@,
        )
    }

    /// Whether `event` may be reported in the current phase: a chunk or the
    /// end of the source while streaming, and in either live phase a
    /// completed write or a failure.
    pub open spec fn accepts(&self, event: &CopyEvent) -> bool {
        match self.phase() {
            CopyPhase::Streaming => true,
            CopyPhase::Draining => event is Sent || event.is_failure(),
            _ => false,
        }
    }

    /// A copier for `mode`. An unsupported mode is refused at once.
    pub fn new(mode: CompressionMode) -> (r: Result<Copier, TransferError>)
        ensures
            !mode.spec_is_supported() ==> r == Err::<Copier, TransferError>(TransferError::Codec),
            mode.spec_is_supported() ==> (r is Ok && r->Ok_0.wf() && r->Ok_0.phase() is Streaming
                && r->Ok_0.mode() == mode && r->Ok_0.chunks() == Seq::<Seq<u8>>::empty()
                && r->Ok_0.wire() == Seq::<u8>::empty()),
    {
        match Encoder::new(mode) {
            Ok(encoder) => Ok(
                Copier {
                    encoder: Some(encoder),
                    mode,
                    phase: CopyPhase::Streaming,
                    total: 0,
                    chunks: Ghost(Seq::empty()),
                    wire: Ghost(Seq::empty()),
                },
            ),
            Err(e) => Err(e),
        }
    }

    /// Bytes read from the source so far.
    pub fn bytes_read(&self) -> (r: u64)
        requires
            self.wf(),
        ensures
            r == self.consumed().len(),
    {
        self.total
    }

    /// Takes one event and returns the next action.
    ///
    /// A chunk is added to the count and encoded, and its wire bytes are
    /// sent; the end of the source finalises the codec, whose last bytes are
    /// sent before `Done`. By then the wire carries the whole stream of the
    /// mode for the chunks read. Any read or write failure aborts with `Io`,
    /// and after an abort no count is ever reported.
    pub fn step(&mut self, event: CopyEvent) -> (r: CopyAction)
        requires
            old(self).wf(),
            old(self).accepts(&event),
            event matches CopyEvent::Chunk(c) ==> old(self).consumed().len() + c@.len()
                <= u64::MAX,
        ensures
            final(self).wf(),
            final(self).mode() == old(self).mode(),
            event matches CopyEvent::Chunk(c) ==> (r matches CopyAction::Send(out) && {
                &&& final(self).phase() is Streaming
                &&& final(self).chunks() == old(self).chunks().push(c@)
                &&& final(self).consumed() == old(self).consumed() + c@
                &&& final(self).wire() == old(self).wire() + out@
                &&& old(self).mode() is Uncompressed ==> out@ == c@
            }),
            !(event is Chunk) ==> final(self).chunks() == old(self).chunks(),
            event is EndOfStream ==> (r matches CopyAction::Send(tail) && {
                &&& final(self).phase() is Draining
                &&& final(self).wire() == old(self).wire() + tail@
                &&& final(self).wire() == stream_of(old(self).mode(), old(self).chunks())
                &&& old(self).mode() is Uncompressed ==> tail@.len() == 0
            }),
            event is Sent && old(self).phase() is Streaming ==> r is Read && final(self).phase()
                is Streaming && final(self).wire() == old(self).wire(),
            event is Sent && old(self).phase() is Draining ==> final(self).phase() is Finished
                && final(self).wire() == old(self).wire() && r == CopyAction::Done(
                TransferResult { bytes_transferred: old(self).consumed().len() as u64 },
            ),
            event.is_failure() ==> r == CopyAction::Abort(TransferError::Io)
                && final(self).phase() is Failed,
    {
        match event {
            CopyEvent::Chunk(chunk) => {
                let mut encoder = self.encoder.take().unwrap();
                let out = encoder.encode(chunk.as_slice());
                self.encoder = Some(encoder);
                proof {
                    lemma_concat_push(self.chunks@, chunk@);
                }
                self.total = self.total + chunk.len() as u64;
                self.chunks = Ghost(self.chunks@.push(chunk@));
                self.wire = Ghost(self.wire@ + out@);
                CopyAction::Send(out)
            },
            CopyEvent::EndOfStream => {
                let encoder = self.encoder.take().unwrap();
                let tail = encoder.finish();
                self.wire = Ghost(self.wire@ + tail@);
                self.phase = CopyPhase::Draining;
                CopyAction::Send(tail)
            },
            CopyEvent::Sent => {
                if let CopyPhase::Streaming = self.phase {
                    CopyAction::Read
                } else {
                    self.phase = CopyPhase::Finished;
                    CopyAction::Done(TransferResult { bytes_transferred: self.total })
                }
            },
            CopyEvent::ReadFailed | CopyEvent::WriteFailed => {
                self.phase = CopyPhase::Failed;
                CopyAction::Abort(TransferError::Io)
            },
        }
    }

    /// Once a copier has failed it takes no further event, so no count can
    /// follow a failure.
    pub proof fn lemma_failure_is_final(self, event: CopyEvent)
        requires
            self.phase() is Failed,
        ensures
            !self.accepts(&event),
    {
    }
}

proof fn lemma_chunks_of_step(s: Seq<u8>, pos: int, end: int, n: nat)
    requires
        n > 0,
        0 <= pos < end <= s.len(),
        end == if s.len() - pos > n { pos + n } else { s.len() as int },
    ensures
        chunks_of(s.skip(pos), n) == seq![s.subrange(pos, end)] + chunks_of(s.skip(end), n),
{
    let t = s.skip(pos);
    if t.len() <= n {
        assert(t =~= s.subrange(pos, end));
        assert(s.skip(end).len() == 0);
        assert(seq![s.subrange(pos, end)] + chunks_of(s.skip(end), n) =~= seq![t]);
    } else {
        assert(t.take(n as int) =~= s.subrange(pos, end));
        assert(t.skip(n as int) =~= s.skip(end));
    }
}

/// Runs the copier over `source`, held in memory, in chunks of at most
/// `COPY_BUFFER_SIZE` bytes, and returns the wire bytes with the count.
///
/// A supported mode always succeeds: the wire bytes are the mode's stream
/// for those chunks, and the count is the length of `source` whatever the
/// mode. Without compression the wire bytes are `source` itself.
pub fn copy_in_memory(mode: CompressionMode, source: &[u8]) -> (r: Result<
    (Vec<u8>, TransferResult),
    TransferError,
>)
    ensures
        !mode.spec_is_supported() ==> r == Err::<(Vec<u8>, TransferResult), TransferError>(
            TransferError::Codec,
        ),
        mode.spec_is_supported() ==> (r matches Ok((wire, res)) && {
            &&& wire@ == stream_of(mode, chunks_of(source@, COPY_BUFFER_SIZE as nat))
            &&& res.bytes_transferred == source@.len()
        }),
        mode is Uncompressed ==> (r matches Ok((wire, _)) && wire@ == source@),
{
    let mut copier = match Copier::new(mode) {
        Ok(c) => c,
        Err(e) => return Err(e),
    };
    let ghost n = COPY_BUFFER_SIZE as nat;
    let mut wire: Vec<u8> = Vec::new();
    let mut pos: usize = 0;
    assert(source@.skip(0) =~= source@);
    assert(Seq::<Seq<u8>>::empty() + chunks_of(source@, n) =~= chunks_of(source@, n));
    while pos < source.len()
        invariant
            pos <= source@.len(),
            n == COPY_BUFFER_SIZE,
            copier.wf(),
            copier.phase() is Streaming,
            copier.mode() == mode,
            copier.consumed() == source@.take(pos as int),
            copier.chunks() + chunks_of(source@.skip(pos as int), n) == chunks_of(source@, n),
            wire@ == copier.wire(),
        decreases source@.len() - pos,
    {
        let end: usize = if source.len() - pos > COPY_BUFFER_SIZE {
            pos + COPY_BUFFER_SIZE
        } else {
            source.len()
        };
        let chunk = slice_to_vec(slice_subrange(source, pos, end));
        assert(source@.take(pos as int) + chunk@ =~= source@.take(end as int));
        proof {
            lemma_chunks_of_step(source@, pos as int, end as int, n);
            assert(copier.chunks().push(chunk@) + chunks_of(source@.skip(end as int), n)
                =~= copier.chunks() + chunks_of(source@.skip(pos as int), n));
        }
        if let CopyAction::Send(mut out) = copier.step(CopyEvent::Chunk(chunk)) {
            wire.append(&mut out);
        }
        copier.step(CopyEvent::Sent);
        pos = end;
    }
    assert(source@.take(pos as int) =~= source@);
    assert(copier.chunks() =~= chunks_of(source@, n)) by {
        assert(source@.skip(pos as int).len() == 0);
        assert(copier.chunks() + Seq::<Seq<u8>>::empty() =~= copier.chunks());
    }
    if let CopyAction::Send(mut tail) = copier.step(CopyEvent::EndOfStream) {
        wire.append(&mut tail);
    }
    if let CopyAction::Done(res) = copier.step(CopyEvent::Sent) {
        Ok((wire, res))
    } else {
        Err(TransferError::Codec)
    }
}

} // verus!
