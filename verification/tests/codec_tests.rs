use oppgave::codec::{parse_dec_u64, u64_to_dec_bytes, DecodeError, Job, TaskDecodable, TaskEncodable};

#[test]
fn encodes_canonical_json() {
    assert_eq!(b"{\"id\":42}".to_vec(), Job { id: 42 }.encode_task());
    assert_eq!(b"{\"id\":0}".to_vec(), Job { id: 0 }.encode_task());
    assert_eq!(b"{\"id\":907}".to_vec(), Job { id: 907 }.encode_task());
    assert_eq!(
        b"{\"id\":18446744073709551615}".to_vec(),
        Job { id: u64::MAX }.encode_task()
    );
}

#[test]
fn decodes_canonical_json() {
    assert_eq!(Ok(Job { id: 42 }), Job::decode_task(b"{\"id\":42}"));
    assert_eq!(Ok(Job { id: 0 }), Job::decode_task(b"{\"id\":0}"));
    assert_eq!(
        Ok(Job { id: u64::MAX }),
        Job::decode_task(b"{\"id\":18446744073709551615}")
    );
}

#[test]
fn decode_rejects_malformed_payloads() {
    assert_eq!(Err(DecodeError::Malformed), Job::decode_task(b""));
    assert_eq!(Err(DecodeError::Malformed), Job::decode_task(b"null"));
    assert_eq!(Err(DecodeError::Malformed), Job::decode_task(b"{\"id\":}"));
    assert_eq!(Err(DecodeError::Malformed), Job::decode_task(b"{\"id\":1x}"));
    assert_eq!(Err(DecodeError::Malformed), Job::decode_task(b"{\"id\":007}"));
    assert_eq!(Err(DecodeError::Malformed), Job::decode_task(b"{\"id\":42} "));
    assert_eq!(Err(DecodeError::Malformed), Job::decode_task(b"{\"id\":42"));
    assert_eq!(Err(DecodeError::Malformed), Job::decode_task(b"{\"iD\":42}"));
    assert_eq!(
        Err(DecodeError::Malformed),
        Job::decode_task(b"{\"id\":18446744073709551616}")
    );
}

#[test]
fn round_trips_through_the_codec() {
    let samples: Vec<u64> = vec![0, 1, 9, 10, 99, 100, 4321, 1 << 40, u64::MAX - 1, u64::MAX];
    for id in samples {
        let task = Job { id };
        assert_eq!(Ok(task), Job::decode_task(&task.encode_task()));
    }
}

#[test]
fn canonical_payload_is_valid_json() {
    let payload = Job { id: 42 }.encode_task();
    let v: serde_json::Value = serde_json::from_slice(&payload).unwrap();
    assert_eq!(Some(42), v.get("id").and_then(|n| n.as_u64()));

    let payload = Job { id: u64::MAX }.encode_task();
    let v: serde_json::Value = serde_json::from_slice(&payload).unwrap();
    assert_eq!(Some(u64::MAX), v.get("id").and_then(|n| n.as_u64()));
}

#[test]
fn decodes_serde_encoded_payload() {
    let mut obj = serde_json::Map::new();
    obj.insert("id".to_string(), serde_json::Value::from(42u64));
    let payload = serde_json::to_vec(&serde_json::Value::Object(obj)).unwrap();
    assert_eq!(Ok(Job { id: 42 }), Job::decode_task(&payload));
}

#[test]
fn formats_decimal_bytes() {
    assert_eq!(b"0".to_vec(), u64_to_dec_bytes(0));
    assert_eq!(b"7".to_vec(), u64_to_dec_bytes(7));
    assert_eq!(b"10".to_vec(), u64_to_dec_bytes(10));
    assert_eq!(b"907".to_vec(), u64_to_dec_bytes(907));
    assert_eq!(b"18446744073709551615".to_vec(), u64_to_dec_bytes(u64::MAX));
}

#[test]
fn parses_decimal_bytes() {
    assert_eq!(Some(0), parse_dec_u64(b"0"));
    assert_eq!(Some(123), parse_dec_u64(b"123"));
    assert_eq!(Some(u64::MAX), parse_dec_u64(b"18446744073709551615"));
    assert_eq!(None, parse_dec_u64(b""));
    assert_eq!(None, parse_dec_u64(b"01"));
    assert_eq!(None, parse_dec_u64(b"12a"));
    assert_eq!(None, parse_dec_u64(b"-1"));
    assert_eq!(None, parse_dec_u64(b"18446744073709551616"));
    assert_eq!(None, parse_dec_u64(b"99999999999999999999999"));
}
