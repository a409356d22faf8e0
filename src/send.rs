//! The `send` command: from parsed arguments to a target to reach and the
//! options of the transfer, checked before anything is resolved or opened.
use crate::address::{parse_ip, parsed_ip, IpAddress};
use crate::options::{
    validate_options, CompressionMode, ContentSource, TransferError,
    TransferOptions,
};
use vstd::prelude::*;
use vstd::slice::slice_to_vec;
use vstd::utf8::encode_utf8;

verus! {

#[derive(Debug, Clone, Copy, PartialEq, Eq, Structural)]
pub enum IpVersion {
    V4,
    V6,
}

/// Send to an address given in text.
#[derive(Debug, Clone)]
pub struct SendIpArgs {
    pub ip: String,
    pub port: u16,
    pub message: Option<String>,
    pub compression: Option<CompressionMode>,
}

/// Send to a host found by local-network discovery.
#[derive(Debug, Clone)]
pub struct SendMdnsArgs {
    pub hostname: String,
    pub timeout_ms: u64,
    pub ip_version: IpVersion,
    pub port: u16,
    pub message: Option<String>,
    pub compression: Option<CompressionMode>,
}

/// Send to a host reached over a secure shell; without a TCP port, one is
/// negotiated with the remote side in `start_port..=end_port`.
#[derive(Debug, Clone)]
pub struct SendSshArgs {
    pub destination: String,
    pub tcp_port: Option<u16>,
    pub start_port: u16,
    pub end_port: u16,
    pub compression: Option<CompressionMode>,
}

#[derive(Debug, Clone)]
pub enum SendCommand {
    Ip(SendIpArgs),
    Mdns(SendMdnsArgs),
    Ssh(SendSshArgs),
}

#[derive(Debug, Clone)]
pub struct SendArgs {
    pub subcmd: SendCommand,
    /// The file to send; standard input when absent.
    pub file: Option<String>,
    /// Map the file into memory instead of reading it through a buffer.
    pub mmap: bool,
    /// Ask the receiver to preallocate the file's size.
    pub prealloc: bool,
}

/// How the peer is to be found.
#[derive(Debug, Clone)]
pub enum SendTarget {
    Ip { address: IpAddress, port: u16 },
    Mdns { hostname: String, timeout_ms: u64, ip_version: IpVersion, port: u16 },
    Ssh { destination: String, tcp_port: Option<u16>, start_port: u16, end_port: u16 },
}

/// A send command, checked and ready to run.
pub struct SendPlan {
    pub target: SendTarget,
    pub options: TransferOptions,
}

pub open spec fn source_of(file: Option<String>, mmap: bool) -> ContentSource {
    match file {
        Some(p) => if mmap {
            ContentSource::MemoryMappedPath(p)
        } else {
            ContentSource::FilePath(p)
        },
        None => ContentSource::Stdin,
    }
}

pub open spec fn compression_of(cmd: SendCommand) -> CompressionMode {
    let c = match cmd {
        SendCommand::Ip(a) => a.compression,
        SendCommand::Mdns(a) => a.compression,
        SendCommand::Ssh(a) => a.compression,
    };
    match c {
        Some(m) => m,
        None => CompressionMode::Uncompressed,
    }
}

pub open spec fn message_of(cmd: SendCommand) -> Option<String> {
    match cmd {
        SendCommand::Ip(a) => a.message,
        SendCommand::Mdns(a) => a.message,
        SendCommand::Ssh(_) => None,
    }
}

pub open spec fn target_of(cmd: SendCommand) -> SendTarget {
    match cmd {
        SendCommand::Ip(a) => SendTarget::Ip { address: parsed_ip(a.ip@)->Some_0, port: a.port },
        SendCommand::Mdns(a) => SendTarget::Mdns {
            hostname: a.hostname,
            timeout_ms: a.timeout_ms,
            ip_version: a.ip_version,
            port: a.port,
        },
        SendCommand::Ssh(a) => SendTarget::Ssh {
            destination: a.destination,
            tcp_port: a.tcp_port,
            start_port: a.start_port,
            end_port: a.end_port,
        },
    }
}

/// The transfer options a send command asks for, the message aside.
pub open spec fn options_match(o: TransferOptions, cmd: SendArgs) -> bool {
    &&& o.source == source_of(cmd.file, cmd.mmap)
    &&& o.compression == compression_of(cmd.subcmd)
    &&& o.preallocate == cmd.prealloc
    &&& o.message is Some == message_of(cmd.subcmd) is Some
    &&& o.message matches Some(m) ==> m@ == encode_utf8(message_of(cmd.subcmd)->Some_0@)
}

/// The error a send command gives before anything is resolved or opened:
/// a given address must parse, preallocation needs a file, and the codec
/// must be supported.
pub open spec fn command_error(cmd: SendArgs) -> Option<TransferError> {
    if cmd.subcmd matches SendCommand::Ip(a) && parsed_ip(a.ip@) is None {
        Some(TransferError::Address)
    } else if cmd.prealloc && cmd.file is None {
        Some(TransferError::Config)
    } else if !compression_of(cmd.subcmd).spec_is_supported() {
        Some(TransferError::Codec)
    } else {
        None
    }
}

fn message_bytes(m: &Option<String>) -> (r: Option<Vec<u8>>)
    ensures
        r is Some == m is Some,
        r matches Some(b) ==> b@ == encode_utf8(m->Some_0@),
{
    match m {
        Some(s) => Some(slice_to_vec(s.as_str().as_bytes())),
        None => None,
    }
}

fn source_from(file: &Option<String>, mmap: bool) -> (r: ContentSource)
    ensures
        r == source_of(*file, mmap),
{
    match file {
        Some(p) => if mmap {
            ContentSource::MemoryMappedPath(p.clone())
        } else {
            ContentSource::FilePath(p.clone())
        },
        None => ContentSource::Stdin,
    }
}

/// Turns a send command into the target to reach and the transfer options.
///
/// The options are checked here, before any discovery, remote session or
/// connection: an address that does not parse is an `Address` error,
/// preallocation from standard input is a `Config` error, and an
/// unsupported codec a `Codec` error.
pub fn handle_send_cmd(cmd: &SendArgs) -> (r: Result<SendPlan, TransferError>)
    ensures
        command_error(*cmd) matches Some(e) ==> r == Err::<SendPlan, TransferError>(e),
        command_error(*cmd) is None ==> (r matches Ok(plan) && plan.target == target_of(
            cmd.subcmd,
        ) && options_match(plan.options, *cmd)),
{
    let (target, compression, message) = match &cmd.subcmd {
        SendCommand::Ip(a) => (
            match parse_ip(a.ip.as_str()) {
                Some(address) => SendTarget::Ip { address, port: a.port },
                None => return Err(TransferError::Address),
            },
            a.compression,
            message_bytes(&a.message),
        ),
        SendCommand::Mdns(a) => (
            SendTarget::Mdns {
                hostname: a.hostname.clone(),
                timeout_ms: a.timeout_ms,
                ip_version: a.ip_version,
                port: a.port,
            },
            a.compression,
            message_bytes(&a.message),
        ),
        SendCommand::Ssh(a) => (
            SendTarget::Ssh {
                destination: a.destination.clone(),
                tcp_port: a.tcp_port,
                start_port: a.start_port,
                end_port: a.end_port,
            },
            a.compression,
            None,
        ),
    };
    let compression = match compression {
        Some(m) => m,
        None => CompressionMode::Uncompressed,
    };
    let options = TransferOptions {
        source: source_from(&cmd.file, cmd.mmap),
        compression,
        preallocate: cmd.prealloc,
        message,
    };
    match validate_options(&options) {
        Ok(()) => Ok(SendPlan { target, options }),
        Err(e) => Err(e),
    }
}

} // verus!
