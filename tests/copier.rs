use std::io::{Read, Write};

use qft_send::codec::Encoder;
use qft_send::copier::{copy_in_memory, CopyAction, CopyEvent, Copier, COPY_BUFFER_SIZE};
use qft_send::options::{CompressionMode, TransferError};

fn sample(len: usize) -> Vec<u8> {
    (0..len).map(|i| ((i * 31 + i / 7) % 251) as u8).collect()
}

fn decode(mode: CompressionMode, wire: &[u8]) -> Vec<u8> {
    let mut out = Vec::new();
    match mode {
        CompressionMode::Uncompressed => out.extend_from_slice(wire),
        CompressionMode::Lz4 => {
            lz4_flex::frame::FrameDecoder::new(wire).read_to_end(&mut out).unwrap();
        }
        CompressionMode::Gzip => {
            flate2::read::GzDecoder::new(wire).read_to_end(&mut out).unwrap();
        }
        _ => unreachable!(),
    }
    out
}

const SUPPORTED: [CompressionMode; 3] =
    [CompressionMode::Uncompressed, CompressionMode::Lz4, CompressionMode::Gzip];

#[test]
fn round_trip_every_supported_mode() {
    for mode in SUPPORTED {
        for len in [0, 1, 1000, COPY_BUFFER_SIZE, 3 * COPY_BUFFER_SIZE + 17] {
            let data = sample(len);
            let (wire, res) = copy_in_memory(mode, &data).unwrap();
            assert_eq!(decode(mode, &wire), data, "mode {:?}, length {}", mode, len);
            assert_eq!(res.bytes_transferred, len as u64);
        }
    }
}

#[test]
fn count_is_source_length_not_wire_length() {
    let data = vec![7u8; 200_000];
    for mode in SUPPORTED {
        let (wire, res) = copy_in_memory(mode, &data).unwrap();
        assert_eq!(res.bytes_transferred, 200_000);
        if mode != CompressionMode::Uncompressed {
            assert!(wire.len() < data.len());
        }
    }
}

#[test]
fn uncompressed_wire_is_the_source() {
    let data = sample(70_000);
    let (wire, _) = copy_in_memory(CompressionMode::Uncompressed, &data).unwrap();
    assert_eq!(wire, data);
}

#[test]
fn unsupported_modes_fail_before_any_byte() {
    for mode in [CompressionMode::Bzip2, CompressionMode::Xz] {
        assert!(matches!(copy_in_memory(mode, b"abc"), Err(TransferError::Codec)));
        assert!(matches!(Copier::new(mode), Err(TransferError::Codec)));
        assert!(matches!(Encoder::new(mode), Err(TransferError::Codec)));
    }
}

#[test]
fn compressed_streams_have_frame_magic() {
    let data = sample(100);
    let (lz4, _) = copy_in_memory(CompressionMode::Lz4, &data).unwrap();
    assert_eq!(&lz4[..4], &[0x04, 0x22, 0x4d, 0x18]);
    let (gz, _) = copy_in_memory(CompressionMode::Gzip, &data).unwrap();
    assert_eq!(&gz[..2], &[0x1f, 0x8b]);
    let (empty_lz4, _) = copy_in_memory(CompressionMode::Lz4, b"").unwrap();
    assert!(!empty_lz4.is_empty());
}

#[test]
fn write_failure_mid_copy_aborts_with_io() {
    let mut c = Copier::new(CompressionMode::Uncompressed).unwrap();
    match c.step(CopyEvent::Chunk(b"first".to_vec())) {
        CopyAction::Send(out) => assert_eq!(out, b"first".to_vec()),
        _ => panic!("expected bytes to send"),
    }
    assert!(matches!(c.step(CopyEvent::Sent), CopyAction::Read));
    assert!(matches!(c.step(CopyEvent::Chunk(b"second".to_vec())), CopyAction::Send(_)));
    assert!(matches!(c.step(CopyEvent::WriteFailed), CopyAction::Abort(TransferError::Io)));
}

#[test]
fn read_failure_aborts_with_io() {
    let mut c = Copier::new(CompressionMode::Gzip).unwrap();
    assert!(matches!(c.step(CopyEvent::ReadFailed), CopyAction::Abort(TransferError::Io)));
}

#[test]
fn write_failure_while_draining_aborts_with_io() {
    let mut c = Copier::new(CompressionMode::Lz4).unwrap();
    assert!(matches!(c.step(CopyEvent::Chunk(sample(10))), CopyAction::Send(_)));
    assert!(matches!(c.step(CopyEvent::Sent), CopyAction::Read));
    assert!(matches!(c.step(CopyEvent::EndOfStream), CopyAction::Send(_)));
    assert!(matches!(c.step(CopyEvent::WriteFailed), CopyAction::Abort(TransferError::Io)));
}

#[test]
fn stepwise_copy_counts_source_bytes() {
    let mut c = Copier::new(CompressionMode::Gzip).unwrap();
    let mut wire = Vec::new();
    for chunk in [sample(5), sample(0), sample(4096)] {
        match c.step(CopyEvent::Chunk(chunk)) {
            CopyAction::Send(out) => wire.extend_from_slice(&out),
            _ => panic!("expected bytes to send"),
        }
        assert!(matches!(c.step(CopyEvent::Sent), CopyAction::Read));
    }
    assert_eq!(c.bytes_read(), 4101);
    match c.step(CopyEvent::EndOfStream) {
        CopyAction::Send(tail) => wire.extend_from_slice(&tail),
        _ => panic!("expected the trailer"),
    }
    match c.step(CopyEvent::Sent) {
        CopyAction::Done(res) => assert_eq!(res.bytes_transferred, 4101),
        _ => panic!("expected completion"),
    }
    let mut expected = sample(5);
    expected.extend_from_slice(&sample(4096));
    assert_eq!(decode(CompressionMode::Gzip, &wire), expected);
}

#[test]
fn passthrough_encoder_hands_back_input() {
    let mut e = Encoder::new(CompressionMode::Uncompressed).unwrap();
    assert_eq!(e.encode(b"xyz"), b"xyz".to_vec());
    assert!(e.finish().is_empty());
}

#[test]
fn lz4_encoder_output_decodes() {
    let mut e = Encoder::new(CompressionMode::Lz4).unwrap();
    let mut wire = e.encode(&sample(300));
    wire.extend_from_slice(&e.finish());
    assert_ne!(wire, sample(300));
    assert_eq!(decode(CompressionMode::Lz4, &wire), sample(300));
}

#[test]
fn compressed_wire_matches_one_shot_encoders() {
    let data = sample(2 * COPY_BUFFER_SIZE + 5);
    let (wire, _) = copy_in_memory(CompressionMode::Gzip, &data).unwrap();
    let mut gz = flate2::write::GzEncoder::new(Vec::new(), flate2::Compression::fast());
    for chunk in data.chunks(COPY_BUFFER_SIZE) {
        gz.write_all(chunk).unwrap();
    }
    assert_eq!(wire, gz.finish().unwrap());
    let (wire, _) = copy_in_memory(CompressionMode::Lz4, &data).unwrap();
    let mut lz = lz4_flex::frame::FrameEncoder::new(Vec::new());
    for chunk in data.chunks(COPY_BUFFER_SIZE) {
        lz.write_all(chunk).unwrap();
    }
    assert_eq!(wire, lz.finish().unwrap());
}
