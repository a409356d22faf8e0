//! Sending side of a point-to-point transfer: peer addresses, option checks,
//! the preallocation header, the codec and byte-counting copier, the send-command dispatch, and
//! the remote free-port query and its reply parser.

pub mod address;
pub mod codec;
pub mod copier;
pub mod options;
pub mod port;
pub mod send;
pub mod transfer;
