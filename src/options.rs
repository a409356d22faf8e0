//! What one transfer is asked to do, and the checks made before any
//! connection is opened.
use vstd::arithmetic::div_mod::lemma_div_denominator;
use vstd::prelude::*;

verus! {

/// Codec applied to the outgoing payload.
#[derive(Debug, Clone, Copy, PartialEq, Eq, Structural)]
pub enum CompressionMode {
    /// Bytes go out as they are read.
    Uncompressed,
    Lz4,
    Gzip,
    /// Recognised, but not supported: selecting it is an error.
    Bzip2,
    /// Recognised, but not supported: selecting it is an error.
    Xz,
}

impl CompressionMode {
    /// Whether a stream encoder exists for this mode.
    pub open spec fn spec_is_supported(self) -> bool {
        !(self is Bzip2 || self is Xz)
    }

    pub fn is_supported(&self) -> (r: bool)
        ensures
            r == self.spec_is_supported(),
    {
        match self {
            CompressionMode::Bzip2 | CompressionMode::Xz => false,
            _ => true,
        }
    }
}

impl Default for CompressionMode {
    fn default() -> (r: CompressionMode)
        ensures
            r == CompressionMode::Uncompressed,
    {
        CompressionMode::Uncompressed
    }
}

/// Where the payload is read from. Exactly one is active for a transfer.
#[derive(Debug, Clone)]
pub enum ContentSource {
    Stdin,
    /// A file read through a buffer.
    FilePath(String),
    /// A file mapped into memory whole; it must exist and be non-empty.
    MemoryMappedPath(String),
}

/// Everything a transfer is asked to do, fixed for its whole run.
#[derive(Debug, Clone)]
pub struct TransferOptions {
    pub source: ContentSource,
    pub compression: CompressionMode,
    /// Announce the payload size to the receiver before the payload.
    pub preallocate: bool,
    /// Bytes written ahead of the payload, on a best-effort basis.
    pub message: Option<Vec<u8>>,
}

/// Ways in which a transfer fails. No byte count survives a failure.
#[derive(Debug, Clone, Copy, PartialEq, Eq, Structural)]
pub enum TransferError {
    /// The target address does not parse.
    Address,
    /// The options contradict each other (preallocation without a sized file).
    Config,
    /// The peer could not be reached, refused, or reset the connection.
    Connection,
    /// The source could not be opened, read for its size, or mapped.
    Source,
    /// The codec is unsupported, or failed to encode or finalise.
    Codec,
    /// A read or write failed in the middle of the copy.
    Io,
}

/// The error that the options alone give, if any: preallocation needs a
/// source whose size is known, and the codec must be a supported one.
pub open spec fn options_error(o: TransferOptions) -> Option<TransferError> {
    if o.preallocate && o.source is Stdin {
        Some(TransferError::Config)
    } else if !o.compression.spec_is_supported() {
        Some(TransferError::Codec)
    } else {
        None
    }
}

/// The error that an opened source of `len` bytes gives: a memory map of an
/// empty file cannot be made.
pub open spec fn source_error(source: ContentSource, len: u64) -> Option<TransferError> {
    if source is MemoryMappedPath && len == 0 {
        Some(TransferError::Source)
    } else {
        None
    }
}

pub open spec fn as_result(e: Option<TransferError>) -> Result<(), TransferError> {
    match e {
        Some(err) => Err(err),
        None => Ok(()),
    }
}

/// Checks made from the options alone, before the source is opened and
/// before any connection is attempted.
pub fn validate_options(options: &TransferOptions) -> (r: Result<(), TransferError>)
    ensures
        r == as_result(options_error(*options)),
{
    if options.preallocate {
        if let ContentSource::Stdin = options.source {
            return Err(TransferError::Config);
        }
    }
    if !options.compression.is_supported() {
        return Err(TransferError::Codec);
    }
    Ok(())
}

/// Check made once the source is open and its length known, still before any
/// connection is attempted.
pub fn check_source_len(source: &ContentSource, len: u64) -> (r: Result<(), TransferError>)
    ensures
        r == as_result(source_error(*source, len)),
{
    match source {
        ContentSource::MemoryMappedPath(_) => {
            if len == 0 {
                Err(TransferError::Source)
            } else {
                Ok(())
            }
        },
        _ => Ok(()),
    }
}

pub open spec fn pow256(k: nat) -> nat
    decreases k,
{
    if k == 0 {
        1
    } else {
        256 * pow256((k - 1) as nat)
    }
}

/// `n` as 8 bytes, most significant first.
pub open spec fn be_bytes(n: u64) -> Seq<u8> {
    Seq::new(8, |i: int| ((n as nat / pow256((7 - i) as nat)) % 256) as u8)
}

/// The preallocation announcement: the payload size as a big-endian 64-bit
/// integer, the very first bytes on the wire when preallocation is asked for.
pub fn preallocation_header(size: u64) -> (r: Vec<u8>)
    ensures
        r@ == be_bytes(size),
{
    let mut out: Vec<u8> = vec![0u8; 8];
    let mut rest: u64 = size;
    let mut k: usize = 0;
    assert(pow256(0) == 1);
    assert(size as nat / 1 == size as nat);
    while k < 8
        invariant
            k <= 8,
            out@.len() == 8,
            rest as nat == size as nat / pow256(k as nat),
            forall|j: int|
                7 - k < j < 8 ==> #[trigger] out@[j] == ((size as nat / pow256((7 - j) as nat))
                    % 256) as u8,
        decreases 8 - k,
    {
        out.set(7 - k, (rest % 256) as u8);
        proof {
            lemma_pow256_positive(k as nat);
            lemma_div_denominator(size as int, pow256(k as nat) as int, 256);
            assert(pow256(k as nat + 1) == 256 * pow256(k as nat));
        }
        rest = rest / 256;
        k = k + 1;
    }
    assert(out@ =~= be_bytes(size));
    out
}

proof fn lemma_pow256_positive(k: nat)
    ensures
        pow256(k) > 0,
    decreases k,
{
    if k > 0 {
        lemma_pow256_positive((k - 1) as nat);
    }
}

} // verus!
