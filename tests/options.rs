use qft_send::options::{
    check_source_len, preallocation_header, validate_options, CompressionMode, ContentSource,
    TransferError, TransferOptions,
};
use qft_send::transfer::plan_transfer;

fn opts(source: ContentSource, compression: CompressionMode, preallocate: bool) -> TransferOptions {
    TransferOptions { source, compression, preallocate, message: None }
}

#[test]
fn preallocation_from_stdin_is_config_error() {
    let o = opts(ContentSource::Stdin, CompressionMode::Uncompressed, true);
    assert_eq!(validate_options(&o), Err(TransferError::Config));
    assert!(matches!(plan_transfer(&o, 0), Err(TransferError::Config)));
}

#[test]
fn unsupported_codecs_are_codec_errors() {
    for mode in [CompressionMode::Bzip2, CompressionMode::Xz] {
        let o = opts(ContentSource::FilePath("f".to_string()), mode, false);
        assert_eq!(validate_options(&o), Err(TransferError::Codec));
        assert!(matches!(plan_transfer(&o, 10), Err(TransferError::Codec)));
    }
}

#[test]
fn supported_codecs_pass() {
    for mode in [CompressionMode::Uncompressed, CompressionMode::Lz4, CompressionMode::Gzip] {
        let o = opts(ContentSource::Stdin, mode, false);
        assert_eq!(validate_options(&o), Ok(()));
    }
    assert_eq!(CompressionMode::default(), CompressionMode::Uncompressed);
}

#[test]
fn empty_memory_map_is_source_error() {
    let src = ContentSource::MemoryMappedPath("empty".to_string());
    assert_eq!(check_source_len(&src, 0), Err(TransferError::Source));
    assert_eq!(check_source_len(&src, 1), Ok(()));
    let o = opts(src, CompressionMode::Lz4, true);
    assert!(matches!(plan_transfer(&o, 0), Err(TransferError::Source)));
}

#[test]
fn empty_buffered_file_is_fine() {
    let src = ContentSource::FilePath("empty".to_string());
    assert_eq!(check_source_len(&src, 0), Ok(()));
}

#[test]
fn header_is_big_endian() {
    assert_eq!(preallocation_header(0x0102030405060708), vec![1, 2, 3, 4, 5, 6, 7, 8]);
    assert_eq!(preallocation_header(0), vec![0; 8]);
    assert_eq!(preallocation_header(u64::MAX), vec![255; 8]);
    assert_eq!(preallocation_header(1_000_000), 1_000_000u64.to_be_bytes().to_vec());
}

#[test]
fn plan_carries_header_and_message() {
    let mut o = opts(ContentSource::FilePath("f".to_string()), CompressionMode::Gzip, true);
    o.message = Some(b"hello".to_vec());
    let plan = plan_transfer(&o, 300).unwrap();
    assert_eq!(plan.header, Some(300u64.to_be_bytes().to_vec()));
    assert_eq!(plan.message, Some(b"hello".to_vec()));
    assert_eq!(plan.copier.bytes_read(), 0);
}

#[test]
fn plan_without_preallocation_has_no_header() {
    let o = opts(ContentSource::Stdin, CompressionMode::Uncompressed, false);
    let plan = plan_transfer(&o, 0).unwrap();
    assert_eq!(plan.header, None);
    assert_eq!(plan.message, None);
}
