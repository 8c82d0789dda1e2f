#[test]
fn test_structuring_entries_rust() {
    let pub_key: Vec<u8> = vec![0, 1, 2, 4, 5, 6];
    let priv_key: Vec<u8> = vec![12, 13, 14];

    let structured_keys = pq_message_lib::response::structure_two_entries(&pub_key, &priv_key);
    assert_eq!(
        structured_keys,
        vec![6, 0, 0, 0, 0, 0, 0, 0, 0, 1, 2, 4, 5, 6, 3, 0, 0, 0, 0, 0, 0, 0, 12, 13, 14]
    );
}

#[test]
fn test_destructuring_two_entries_c() {
    // Pretend this is the buffer we received over the channel
    let mut keys: Vec<u8> = vec![
        6, 0, 0, 0, 0, 0, 0, 0, 0, 1, 2, 4, 5, 6, 3, 0, 0, 0, 0, 0, 0, 0, 12, 13, 14,
    ];

    let (status, pub_key, priv_key) = pq_message_lib::response::destructure_two_entries(&keys);
    assert_eq!(status, 0);

    let pub_key_length: usize = pub_key.len();
    let priv_key_length: usize = priv_key.len();
    assert_eq!(pub_key_length, 6);
    assert_eq!(priv_key_length, 3);
    assert_eq!(pub_key, vec![0, 1, 2, 4, 5, 6].as_slice());
    assert_eq!(priv_key, vec![12, 13, 14].as_slice());

    keys[0] = 255;
    let (status, _, _) = pq_message_lib::response::destructure_two_entries(&keys);
    assert_ne!(status, 0);
    keys[0] = 6;

    keys[14] = 255;
    let (status, _, _) = pq_message_lib::response::destructure_two_entries(&keys);
    assert_ne!(status, 0);

    let buffer: Vec<u8> = vec![];
    let (status, _, _) = pq_message_lib::response::destructure_two_entries(&buffer);
    assert_ne!(status, 0);
}

#[test]
fn test_structuring_two_entries_c() {
    let priv_key: Vec<u8> = vec![13, 12, 18, 33];
    let ciphertext: Vec<u8> = vec![0, 0, 2, 3, 1];

    let total_length: usize =
        pq_message_lib::request::structure_two_entries_length(priv_key.len(), ciphertext.len());

    let mut buffer: Vec<u8> = vec![0u8; total_length];

    let status: i16 =
        pq_message_lib::request::structure_two_entries(&mut buffer, &priv_key, &ciphertext);
    assert_eq!(status, 0);

    assert_eq!(
        buffer,
        vec![4, 0, 0, 0, 0, 0, 0, 0, 13, 12, 18, 33, 5, 0, 0, 0, 0, 0, 0, 0, 0, 0, 2, 3, 1]
    );
}

#[test]
fn test_destructuring_two_entries_rust() {
    let mut priv_key_ct: Vec<u8> = vec![
        4, 0, 0, 0, 0, 0, 0, 0, 13, 12, 18, 33, 5, 0, 0, 0, 0, 0, 0, 0, 0, 0, 2, 3, 1,
    ];

    assert_eq!(
        pq_message_lib::request::destructure_two_entries(&priv_key_ct).unwrap(),
        (
            vec![13, 12, 18, 33].as_slice(),
            vec![0, 0, 2, 3, 1].as_slice()
        )
    );

    // Test with an empty input
    let empty: Vec<u8> = vec![];
    assert!(pq_message_lib::request::destructure_two_entries(&empty).is_err());

    // Tests where the lengths are modified but the body does not match those lengths
    priv_key_ct[0] = 255;
    assert!(pq_message_lib::request::destructure_two_entries(&priv_key_ct).is_err());
    priv_key_ct[0] = 4;

    priv_key_ct[12] = 255;
    assert!(pq_message_lib::request::destructure_two_entries(&priv_key_ct).is_err());
}
