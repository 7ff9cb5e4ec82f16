use content_decoder::decode::{uncompress_brotli, uncompress_gzip, uncompress_zlib};
use content_decoder::encoding::Encoding;
use content_decoder::error::RunnerError;
use content_decoder::http::{Header, Response, Version};

#[test]
fn test_content_encoding() {
    let response = Response {
        version: Version::Http10,
        status: 200,
        headers: vec![],
        body: vec![],
    };
    assert_eq!(response.content_encoding().unwrap(), None);

    let response = Response {
        version: Version::Http10,
        status: 200,
        headers: vec![Header {
            name: "Content-Encoding".to_string(),
            value: "xx".to_string(),
        }],
        body: vec![],
    };
    assert_eq!(
        response.content_encoding().err().unwrap(),
        RunnerError::UnsupportedContentEncoding("xx".to_string())
    );

    let response = Response {
        version: Version::Http10,
        status: 200,
        headers: vec![Header {
            name: "Content-Encoding".to_string(),
            value: "br".to_string(),
        }],
        body: vec![],
    };
    assert_eq!(
        response.content_encoding().unwrap().unwrap(),
        Encoding::Brotli
    );
}

#[test]
fn test_uncompress_body() {
    let response = Response {
        version: Version::Http10,
        status: 200,
        headers: vec![Header {
            name: "Content-Encoding".to_string(),
            value: "br".to_string(),
        }],
        body: vec![
            0x21, 0x2c, 0x00, 0x04, 0x48, 0x65, 0x6c, 0x6c, 0x6f, 0x20, 0x57, 0x6f, 0x72, 0x6c,
            0x64, 0x21,
        ],
    };
    assert_eq!(response.uncompress_body().unwrap(), b"Hello World!");

    let response = Response {
        version: Version::Http10,
        status: 200,
        headers: vec![],
        body: b"Hello World!".to_vec(),
    };
    assert_eq!(response.uncompress_body().unwrap(), b"Hello World!");
}

#[test]
fn test_uncompress_brotli() {
    let data = vec![
        0x21, 0x2c, 0x00, 0x04, 0x48, 0x65, 0x6c, 0x6c, 0x6f, 0x20, 0x57, 0x6f, 0x72, 0x6c, 0x64,
        0x21,
    ];
    assert_eq!(uncompress_brotli(&data[..]).unwrap(), b"Hello World!");
}

#[test]
fn test_uncompress_gzip() {
    let data = vec![
        0x1f, 0x8b, 0x08, 0x08, 0xa7, 0x52, 0x85, 0x5f, 0x00, 0x03, 0x64, 0x61, 0x74, 0x61, 0x2e,
        0x74, 0x78, 0x74, 0x00, 0xf3, 0x48, 0xcd, 0xc9, 0xc9, 0x57, 0x08, 0xcf, 0x2f, 0xca, 0x49,
        0x51, 0x04, 0x00, 0xa3, 0x1c, 0x29, 0x1c, 0x0c, 0x00, 0x00, 0x00,
    ];
    assert_eq!(uncompress_gzip(&data[..]).unwrap(), b"Hello World!");
}

#[test]
fn test_uncompress_zlib() {
    let data = vec![
        0x78, 0x9c, 0xf3, 0x48, 0xcd, 0xc9, 0xc9, 0x57, 0x08, 0xcf, 0x2f, 0xca, 0x49, 0x51, 0x04,
        0x00, 0x1c, 0x49, 0x04, 0x3e,
    ];
    assert_eq!(uncompress_zlib(&data[..]).unwrap(), b"Hello World!");
}

#[test]
fn test_uncompress_error() {
    let data = vec![0x21];
    assert_eq!(
        uncompress_brotli(&data[..]).err().unwrap(),
        RunnerError::CouldNotUncompressResponse("brotli".to_string())
    );
    assert_eq!(
        uncompress_gzip(&data[..]).err().unwrap(),
        RunnerError::CouldNotUncompressResponse("gzip".to_string())
    );
}
