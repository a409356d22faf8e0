//! The codec pipeline and the streaming copier.
//!
//! The copier is a state machine: the caller performs each read and write it
//! asks for and reports back what happened. It counts the bytes read from the
//! source, whatever the codec turns them into on the wire.
use crate::options::{CompressionMode, TransferError};
use flate2::write::GzEncoder;
use lz4_flex::frame::FrameEncoder;
use vstd::prelude::*;
use vstd::slice::slice_to_vec;

verus! {

#[verifier::external_type_specification]
#[verifier::external_body]
pub struct ExIoError(std::io::Error);

#[verifier::external_type_specification]
#[verifier::external_body]
pub struct ExLz4Error(lz4_flex::frame::Error);

/// An LZ4 frame encoder writing into a buffer. Opaque: Verus refuses a
/// declaration of the encoder type, whose parameter is bound by `Write`.
#[verifier::external_body]
pub struct Lz4Stream {
    inner: FrameEncoder<Vec<u8>>,
}

/// A gzip encoder writing into a buffer. Opaque for the same reason.
#[verifier::external_body]
pub struct GzipStream {
    inner: GzEncoder<Vec<u8>>,
}

/// The chunks written so far to an LZ4 encoder, in order.
pub uninterp spec fn lz4_fed(e: Lz4Stream) -> Seq<Seq<u8>>;

/// The encoded bytes moved out of an LZ4 encoder so far.
pub uninterp spec fn lz4_taken(e: Lz4Stream) -> Seq<u8>;

/// The complete LZ4 frame (default frame settings) that an encoder emits
/// when these chunks are written to it in turn and it is then finished.
pub uninterp spec fn lz4_frame(chunks: Seq<Seq<u8>>) -> Seq<u8>;

/// The chunks written so far to a gzip encoder, in order.
pub uninterp spec fn gzip_fed(e: GzipStream) -> Seq<Seq<u8>>;

/// The encoded bytes moved out of a gzip encoder so far.
pub uninterp spec fn gzip_taken(e: GzipStream) -> Seq<u8>;

/// The complete gzip stream (fast level, default header) that an encoder
/// emits when these chunks are written to it in turn and it is then finished.
pub uninterp spec fn gzip_fast_stream(chunks: Seq<Seq<u8>>) -> Seq<u8>;

/// Relies on `lz4_flex::frame::FrameEncoder::new`: an LZ4 frame encoder with
/// default frame settings, writing into an empty buffer.
#[verifier::external_body]
fn lz4_encoder() -> (r: Lz4Stream)
    ensures
        lz4_fed(r) == Seq::<Seq<u8>>::empty(),
        lz4_taken(r) == Seq::<u8>::empty(),
{
    Lz4Stream { inner: FrameEncoder::new(Vec::new()) }
}

/// Relies on `<FrameEncoder as std::io::Write>::write_all`: hands `data` to the
/// encoder. Its writer is a `Vec`, and each block's output space is reserved
/// up front, so the write does not fail.
#[verifier::external_body]
fn lz4_write(e: &mut Lz4Stream, data: &[u8]) -> (r: Result<(), std::io::Error>)
    ensures
        r is Ok,
        lz4_fed(*final(e)) == lz4_fed(*old(e)).push(data@),
        lz4_taken(*final(e)) == lz4_taken(*old(e)),
{
    std::io::Write::write_all(&mut e.inner, data)
}

/// Relies on `FrameEncoder::get_mut`: moves out the encoded bytes produced so
/// far. The encoder only appends to its buffer, so emptying it is safe.
#[verifier::external_body]
fn lz4_take(e: &mut Lz4Stream) -> (r: Vec<u8>)
    ensures
        lz4_fed(*final(e)) == lz4_fed(*old(e)),
        lz4_taken(*final(e)) == lz4_taken(*old(e)) + r@,
{
    std::mem::take(e.inner.get_mut())
}

/// Relies on `FrameEncoder::finish`: flushes held bytes and writes the frame's
/// end mark, returning the buffer with whatever was not yet taken.
#[verifier::external_body]
fn lz4_finish(e: Lz4Stream) -> (r: Result<Vec<u8>, lz4_flex::frame::Error>)
    ensures
        r is Ok,
        lz4_taken(e) + r->Ok_0@ == lz4_frame(lz4_fed(e)),
{
    e.inner.finish()
}

/// Relies on `flate2::write::GzEncoder::new` at `Compression::fast()`: a gzip
/// encoder writing into an empty buffer, with the default header.
#[verifier::external_body]
fn gzip_encoder() -> (r: GzipStream)
    ensures
        gzip_fed(r) == Seq::<Seq<u8>>::empty(),
        gzip_taken(r) == Seq::<u8>::empty(),
{
    GzipStream { inner: GzEncoder::new(Vec::new(), flate2::Compression::fast()) }
}

/// Relies on `<GzEncoder as std::io::Write>::write_all`: hands `data` to the
/// encoder. Its writer is a `Vec`, which takes every byte.
#[verifier::external_body]
fn gzip_write(e: &mut GzipStream, data: &[u8]) -> (r: Result<(), std::io::Error>)
    ensures
        r is Ok,
        gzip_fed(*final(e)) == gzip_fed(*old(e)).push(data@),
        gzip_taken(*final(e)) == gzip_taken(*old(e)),
{
    std::io::Write::write_all(&mut e.inner, data)
}

/// Relies on `GzEncoder::get_mut`: moves out the encoded bytes produced so
/// far. The encoder only appends to its buffer, so emptying it is safe.
#[verifier::external_body]
fn gzip_take(e: &mut GzipStream) -> (r: Vec<u8>)
    ensures
        gzip_fed(*final(e)) == gzip_fed(*old(e)),
        gzip_taken(*final(e)) == gzip_taken(*old(e)) + r@,
{
    std::mem::take(e.inner.get_mut())
}

/// Relies on `GzEncoder::finish`: flushes held bytes and writes the gzip
/// trailer (CRC and length), returning the buffer with what was not yet taken.
#[verifier::external_body]
fn gzip_finish(e: GzipStream) -> (r: Result<Vec<u8>, std::io::Error>)
    ensures
        r is Ok,
        gzip_taken(e) + r->Ok_0@ == gzip_fast_stream(gzip_fed(e)),
{
    e.inner.finish()
}

/// The chunks joined end to end.
pub open spec fn concat_chunks(chunks: Seq<Seq<u8>>) -> Seq<u8>
    decreases chunks.len(),
{
    if chunks.len() == 0 {
        Seq::empty()
    } else {
        concat_chunks(chunks.drop_last()) + chunks.last()
    }
}

pub proof fn lemma_concat_push(chunks: Seq<Seq<u8>>, c: Seq<u8>)
    ensures
        concat_chunks(chunks.push(c)) == concat_chunks(chunks) + c,
{
    assert(chunks.push(c).drop_last() =~= chunks);
}

/// The whole wire stream of `mode` for these chunks, written in turn.
pub open spec fn stream_of(mode: CompressionMode, chunks: Seq<Seq<u8>>) -> Seq<u8> {
    match mode {
        CompressionMode::Lz4 => lz4_frame(chunks),
        CompressionMode::Gzip => gzip_fast_stream(chunks),
        _ => concat_chunks(chunks),
    }
}

/// A live stream encoder for one of the supported modes.
pub enum Encoder {
    Passthrough { fed: Ghost<Seq<Seq<u8>>>, emitted: Ghost<Seq<u8>> },
    Lz4(Lz4Stream),
    Gzip(GzipStream),
}

impl Encoder {
    pub open spec fn spec_mode(&self) -> CompressionMode {
        match self {
            Encoder::Passthrough { .. } => CompressionMode::Uncompressed,
            Encoder::Lz4(_) => CompressionMode::Lz4,
            Encoder::Gzip(_) => CompressionMode::Gzip,
        }
    }

    /// The chunks encoded so far, in order.
    pub open spec fn fed(&self) -> Seq<Seq<u8>> {
        match self {
            Encoder::Passthrough { fed, .. } => fed@,
            Encoder::Lz4(e) => lz4_fed(*e),
            Encoder::Gzip(e) => gzip_fed(*e),
        }
    }

    /// The wire bytes handed out so far.
    pub open spec fn emitted(&self) -> Seq<u8> {
        match self {
            Encoder::Passthrough { emitted, .. } => emitted@,
            Encoder::Lz4(e) => lz4_taken(*e),
            Encoder::Gzip(e) => gzip_taken(*e),
        }
    }

    pub open spec fn wf(&self) -> bool {
        self matches Encoder::Passthrough { fed, emitted } ==> emitted@ == concat_chunks(fed@)
    }

    /// Opens an encoder for `mode`; an unsupported mode is refused at once,
    /// never replaced by another.
    pub fn new(mode: CompressionMode) -> (r: Result<Encoder, TransferError>)
        ensures
            mode.spec_is_supported() ==> (r is Ok && r->Ok_0.spec_mode() == mode && r->Ok_0.wf()
                && r->Ok_0.fed() == Seq::<Seq<u8>>::empty() && r->Ok_0.emitted()
                == Seq::<u8>::empty()),
            !mode.spec_is_supported() ==> r == Err::<Encoder, TransferError>(TransferError::Codec),
    {
        match mode {
            CompressionMode::Uncompressed => Ok(
                Encoder::Passthrough { fed: Ghost(Seq::empty()), emitted: Ghost(Seq::empty()) },
            ),
            CompressionMode::Lz4 => Ok(Encoder::Lz4(lz4_encoder())),
            CompressionMode::Gzip => Ok(Encoder::Gzip(gzip_encoder())),
            CompressionMode::Bzip2 | CompressionMode::Xz => Err(TransferError::Codec),
        }
    }

    /// Encodes `data` and returns the wire bytes that are ready to be sent.
    /// Passthrough hands `data` back as it is.
    pub fn encode(&mut self, data: &[u8]) -> (r: Vec<u8>)
        requires
            old(self).wf(),
        ensures
            final(self).wf(),
            final(self).spec_mode() == old(self).spec_mode(),
            final(self).fed() == old(self).fed().push(data@),
            final(self).emitted() == old(self).emitted() + r@,
            old(self).spec_mode() is Uncompressed ==> r@ == data@,
    {
        match self {
            Encoder::Passthrough { fed, emitted } => {
                proof {
                    lemma_concat_push(fed@, data@);
                }
                *fed = Ghost(fed@.push(data@));
                *emitted = Ghost(emitted@ + data@);
                slice_to_vec(data)
            },
            Encoder::Lz4(e) => {
                lz4_write(e, data).unwrap();
                lz4_take(e)
            },
            Encoder::Gzip(e) => {
                gzip_write(e, data).unwrap();
                gzip_take(e)
            },
        }
    }

    /// Finalises the stream and returns its last wire bytes (held data and
    /// trailing frame metadata); with them, everything emitted is the whole
    /// stream of the mode for the chunks fed. Passthrough has none.
    pub fn finish(self) -> (r: Vec<u8>)
        requires
            self.wf(),
        ensures
            self.emitted() + r@ == stream_of(self.spec_mode(), self.fed()),
            self.spec_mode() is Uncompressed ==> r@.len() == 0,
    {
        match self {
            Encoder::Passthrough { .. } => {
                assert(self.emitted() + Seq::<u8>::empty() =~= self.emitted());
                Vec::new()
            },
            Encoder::Lz4(e) => lz4_finish(e).unwrap(),
            Encoder::Gzip(e) => gzip_finish(e).unwrap(),
        }
    }
}

} // verus!
