//! The handshake side of a transfer: what is checked before connecting and
//! what goes on the wire ahead of the payload.
use crate::copier::Copier;
use crate::options::{
    be_bytes, check_source_len, options_error, preallocation_header, source_error,
    validate_options, TransferError, TransferOptions,
};
use vstd::prelude::*;
use vstd::slice::slice_to_vec;

verus! {

/// Everything settled before the connection is opened.
pub struct TransferPlan {
    /// The preallocation announcement, written unbuffered right after
    /// connecting and before any other byte.
    pub header: Option<Vec<u8>>,
    /// The inline message, written next; a failure to write it is not fatal.
    pub message: Option<Vec<u8>>,
    /// The copier that drives the payload.
    pub copier: Copier,
}

/// The error that stops a transfer before it connects: first what the
/// options alone give, then what the opened source gives.
pub open spec fn pre_connect_error(options: TransferOptions, source_len: u64) -> Option<
    TransferError,
> {
    if options_error(options) is Some {
        options_error(options)
    } else {
        source_error(options.source, source_len)
    }
}

/// Settles a transfer once its source is open, before any connection is
/// attempted. `source_len` is the size of the source file; it is not read
/// when the source is standard input.
pub fn plan_transfer(options: &TransferOptions, source_len: u64) -> (r: Result<
    TransferPlan,
    TransferError,
>)
    ensures
        pre_connect_error(*options, source_len) matches Some(e) ==> r == Err::<
            TransferPlan,
            TransferError,
        >(e),
        pre_connect_error(*options, source_len) is None ==> (r matches Ok(plan) && {
            &&& plan.header is Some == options.preallocate
            &&& plan.header matches Some(h) ==> h@ == be_bytes(source_len)
            &&& plan.message is Some == options.message is Some
            &&& plan.message matches Some(m) ==> m@ == options.message->Some_0@
            &&& plan.copier.wf()
            &&& plan.copier.phase() is Streaming
            &&& plan.copier.mode() == options.compression
            &&& plan.copier.chunks() == Seq::<Seq<u8>>::empty()
            &&& plan.copier.wire() == Seq::<u8>::empty()
        }),
{
    validate_options(options)?;
    check_source_len(&options.source, source_len)?;
    let header = if options.preallocate {
        Some(preallocation_header(source_len))
    } else {
        None
    };
    let message = match &options.message {
        Some(m) => Some(slice_to_vec(m.as_slice())),
        None => None,
    };
    match Copier::new(options.compression) {
        Ok(copier) => Ok(TransferPlan { header, message, copier }),
        Err(e) => Err(e),
    }
}

} // verus!
