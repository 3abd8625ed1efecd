//! The body decoder against real zlib and gzip streams.

use std::io::Write;

use chimney::body::{DecodeError, Scheme, decode_body};
use flate2::Compression;
use flate2::write::{GzEncoder, ZlibEncoder};

fn zlib_compress(data: &[u8]) -> Vec<u8> {
    let mut enc = ZlibEncoder::new(Vec::new(), Compression::default());
    enc.write_all(data).unwrap();
    enc.finish().unwrap()
}

fn gzip_compress(data: &[u8]) -> Vec<u8> {
    let mut enc = GzEncoder::new(Vec::new(), Compression::default());
    enc.write_all(data).unwrap();
    enc.finish().unwrap()
}

#[test]
fn decodes_deflate_request() {
    let body = zlib_compress(b"test");
    let decoded = decode_body(Some("deflate"), &body).expect("expected success");
    assert_eq!(b"test".to_vec(), decoded);
}

#[test]
fn decodes_gzip_request() {
    let body = gzip_compress(b"test");
    let decoded = decode_body(Some("gzip"), &body).expect("expected success");
    assert_eq!(b"test".to_vec(), decoded);
}

#[test]
fn decodes_multi_member_gzip_request() {
    let mut body = gzip_compress(b"hello, ");
    body.extend_from_slice(&gzip_compress(b"world"));
    let decoded = decode_body(Some("gzip"), &body).expect("expected success");
    assert_eq!(b"hello, world".to_vec(), decoded);
}

#[test]
fn uncompressed_request() {
    let decoded = decode_body(None, b"test").expect("expected success");
    assert_eq!(b"test".to_vec(), decoded);
}

#[test]
fn none_token_passes_body_through() {
    let body: Vec<u8> = vec![0, 1, 2, 255, 254, 128, 7];
    let decoded = decode_body(Some("none"), &body).expect("expected success");
    assert_eq!(body, decoded);
}

#[test]
fn absent_token_passes_any_bytes_through() {
    for body in [vec![], vec![0u8], vec![31, 139, 8], b"{\"a\":1}".to_vec()] {
        let decoded = decode_body(None, &body).expect("expected success");
        assert_eq!(body, decoded);
    }
}

#[test]
fn unsupported_content_encoding() {
    let err = decode_body(Some("bad"), b"test").unwrap_err();
    assert_eq!("unsupported content-encoding \"bad\"", err.message());
    match err {
        DecodeError::UnsupportedEncoding { token } => assert_eq!("bad", token),
        other => panic!("unexpected error: {:?}", other),
    }
}

#[test]
fn token_comparison_is_case_sensitive() {
    let err = decode_body(Some("GZIP"), b"test").unwrap_err();
    assert!(matches!(err, DecodeError::UnsupportedEncoding { .. }));
}

#[test]
fn invalid_deflate_request() {
    let err = decode_body(Some("deflate"), b"test").unwrap_err();
    assert!(err.message().starts_with("not a zlib request body: "));
    match err {
        DecodeError::CorruptStream { scheme, detail } => {
            assert_eq!(Scheme::Zlib, scheme);
            assert!(!detail.is_empty());
        },
        other => panic!("unexpected error: {:?}", other),
    }
}

#[test]
fn invalid_gzip_request() {
    let err = decode_body(Some("gzip"), b"test").unwrap_err();
    assert!(err.message().starts_with("not a gzip request body: "));
    match err {
        DecodeError::CorruptStream { scheme, .. } => assert_eq!(Scheme::Gzip, scheme),
        other => panic!("unexpected error: {:?}", other),
    }
}

#[test]
fn invalid_header_message_names_the_cause() {
    let err = DecodeError::InvalidHeader { detail: "failed to convert header to a str".to_string() };
    assert_eq!(
        "invalid content-encoding: failed to convert header to a str",
        err.message()
    );
}

#[test]
fn gzip_stream_under_deflate_token_is_corrupt() {
    let body = gzip_compress(b"test");
    let err = decode_body(Some("deflate"), &body).unwrap_err();
    assert!(matches!(err, DecodeError::CorruptStream { scheme: Scheme::Zlib, .. }));
}

#[test]
fn deflate_round_trip_on_binary_data() {
    let data: Vec<u8> = (0u16..1024).map(|i| (i % 251) as u8).collect();
    let decoded = decode_body(Some("deflate"), &zlib_compress(&data)).expect("expected success");
    assert_eq!(data, decoded);
}

#[test]
fn gzip_round_trip_on_empty_body() {
    let decoded = decode_body(Some("gzip"), &gzip_compress(b"")).expect("expected success");
    assert_eq!(Vec::<u8>::new(), decoded);
}
