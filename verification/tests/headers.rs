use pq_message_lib::request::Algorithm;
use pq_message_lib::request::Operation;
use pq_message_lib::request::RequestHeader;
use pq_message_lib::response::ResponseHeader;
use pq_message_lib::FORMAT_VERSION;

#[test]
fn test_request_header_c() {
    let header_size: u64 = pq_message_lib::request::get_serialized_request_header_size();

    let mut buffer: Vec<u8> = vec![0u8; header_size as usize];

    let status: i16 = pq_message_lib::request::serialize_request_header(
        &mut buffer,
        1234,
        1331,
        Algorithm::FRODO976__ECDHp384,
        Operation::Encapsulation,
    );
    assert!(status == 0);

    assert_eq!(
        buffer,
        vec![FORMAT_VERSION, 210, 4, 0, 0, 0, 0, 0, 0, 51, 5, 0, 0, 3, 0, 0, 0, 2, 0, 0, 0]
    );
}

#[test]
fn test_request_header_rust() {
    let header_size: u64 = pq_message_lib::request::get_serialized_request_header_size();

    // Pretend we've read these bytes from somewhere
    let buffer: Vec<u8> = vec![
        FORMAT_VERSION, 210, 4, 0, 0, 0, 0, 0, 0, 51, 5, 0, 0, 3, 0, 0, 0, 2, 0, 0, 0,
    ];
    assert_eq!(header_size as usize, buffer.len());

    let request_header = pq_message_lib::request::deserialize_request_header(&buffer);
    assert!(request_header.is_ok());
    let equal = request_header.unwrap()
        == RequestHeader {
            version: FORMAT_VERSION,
            identifier: 1234,
            data_len: 1331,
            algorithm: Algorithm::FRODO976__ECDHp384,
            operation: Operation::Encapsulation,
        };
    assert!(equal);
}

#[test]
fn test_response_header_c() {
    let header_size: u64 = pq_message_lib::response::get_serialized_response_header_size();

    // Pretend we've read these bytes from somewhere
    let header: Vec<u8> = vec![FORMAT_VERSION, 210, 4, 0, 0, 0, 0, 0, 0, 0, 6, 0, 0, 0];
    assert_eq!(header_size as usize, header.len());

    let mut response_header: ResponseHeader = Default::default();
    let status: i16 =
        pq_message_lib::response::deserialize_response_header(&header, &mut response_header);
    assert!(status == 0);
    let equal = response_header
        == ResponseHeader {
            version: FORMAT_VERSION,
            identifier: 1234,
            success: 0,
            data_len: 6,
        };
    assert!(equal);
}

#[test]
fn test_response_header_rust() {
    let response =
        pq_message_lib::response::serialize_response(1234, Some(&vec![0, 1, 2, 3, 4, 5]));
    assert!(response.is_ok());
    assert_eq!(
        response.unwrap(),
        vec![FORMAT_VERSION, 210, 4, 0, 0, 0, 0, 0, 0, 0, 6, 0, 0, 0, 0, 1, 2, 3, 4, 5]
    );
}

#[test]
fn test_response_header_failure_rust() {
    let response = pq_message_lib::response::serialize_response(1234, None);
    assert!(response.is_ok());
    assert_eq!(
        response.unwrap(),
        vec![
            FORMAT_VERSION, 210, 4, 0, 0, 0, 0, 0, 0, 255, // -1 as u8
            0, 0, 0, 0,
        ]
    );
}

#[test]
fn test_serialize_request_header_failure_c() {
    // Deliberately create a buffer that is too small
    let header_size: u64 = pq_message_lib::request::get_serialized_request_header_size() - 10;

    let mut buffer: Vec<u8> = vec![0u8; header_size as usize];

    let status: i16 = pq_message_lib::request::serialize_request_header(
        &mut buffer,
        1234,
        1331,
        Algorithm::FRODO976__ECDHp384,
        Operation::Encapsulation,
    );
    assert!(status == -1);
}

#[test]
fn test_deserialize_response_header_failure_c() {
    // Pretend we've read these bytes from somewhere
    let header: Vec<u8> = vec![
        FORMAT_VERSION + 1, // Deliberately get format version wrong
        210,
        4,
        0,
        0,
        0,
        0,
        0,
        0,
        0,
        6,
        0,
        0,
        0,
    ];

    let mut response_header: ResponseHeader = Default::default();
    let status: i16 =
        pq_message_lib::response::deserialize_response_header(&header, &mut response_header);
    assert!(status == -4);
}
