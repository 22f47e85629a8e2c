use fixed_record_codec::codec::decode;
use fixed_record_codec::codec::encode;
use fixed_record_codec::codec::CodecError;
use fixed_record_codec::codec::Record;

#[test]
fn round_trip_small() {
    let r = Record { field_a: 1, field_b: 2 };
    let bytes = encode(&r);
    assert_eq!(decode(&bytes), Ok(r));
}

#[test]
fn round_trip_assorted_values() {
    let values: Vec<(u32, u32)> = vec![
        (0, 0),
        (1, 0),
        (0, 1),
        (255, 256),
        (65535, 65536),
        (16777215, 16777216),
        (305419896, 2596069104),
    ];
    for (a, b) in values {
        let r = Record { field_a: a, field_b: b };
        let bytes = encode(&r);
        assert_eq!(decode(&bytes), Ok(r));
    }
}

#[test]
fn round_trip_max_values() {
    let r = Record {
        field_a: 4294967295,
        field_b: 4294967295,
    };
    let bytes = encode(&r);
    assert_eq!(decode(&bytes), Ok(r));
}

#[test]
fn encode_length_is_eight() {
    let records = vec![
        Record { field_a: 0, field_b: 0 },
        Record { field_a: 10, field_b: 20 },
        Record {
            field_a: 4294967295,
            field_b: 4294967295,
        },
    ];
    for r in records {
        assert_eq!(encode(&r).len(), 8);
    }
}

#[test]
fn encode_is_deterministic() {
    let r1 = Record {
        field_a: 123456789,
        field_b: 987654321,
    };
    let r2 = Record {
        field_a: 123456789,
        field_b: 987654321,
    };
    assert_eq!(r1, r2);
    assert_eq!(encode(&r1), encode(&r2));
    assert_eq!(encode(&r1), encode(&r1));
}

#[test]
fn encode_byte_order() {
    let r = Record { field_a: 10, field_b: 20 };
    assert_eq!(encode(&r), vec![10, 0, 0, 0, 20, 0, 0, 0]);
}

#[test]
fn decode_exact_bytes() {
    let bytes: Vec<u8> = vec![10, 0, 0, 0, 20, 0, 0, 0];
    assert_eq!(decode(&bytes), Ok(Record { field_a: 10, field_b: 20 }));
}

#[test]
fn encode_max_field_a() {
    let r = Record {
        field_a: 4294967295,
        field_b: 0,
    };
    assert_eq!(encode(&r), vec![255, 255, 255, 255, 0, 0, 0, 0]);
}

#[test]
fn decode_multi_byte_fields() {
    let bytes: Vec<u8> = vec![1, 2, 3, 4, 5, 6, 7, 8];
    assert_eq!(
        decode(&bytes),
        Ok(Record {
            field_a: 67305985,
            field_b: 134678021,
        })
    );
}

#[test]
fn decode_rejects_wrong_lengths() {
    let lengths: Vec<usize> = vec![0, 1, 7, 9, 1000];
    for n in lengths {
        let buffer: Vec<u8> = vec![0; n];
        assert_eq!(decode(&buffer), Err(CodecError::MalformedRecord));
    }
}

#[test]
fn decode_leaves_buffer_unchanged() {
    let bytes: Vec<u8> = vec![9, 9, 9];
    let before = bytes.clone();
    assert_eq!(decode(&bytes), Err(CodecError::MalformedRecord));
    assert_eq!(bytes, before);
}
