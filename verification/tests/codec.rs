use cycle_utils::DecodeError;
use cycle_utils::codec::deserialize_hook_record;
use cycle_utils::codec::deserialize_metrics_call;
use cycle_utils::codec::serialize_hook_record;
use cycle_utils::codec::serialize_metric;

fn check_in_out(name: &str, cycle_count: u64, free_heap_bytes: u64) {
    let serialized = serialize_metric(name, cycle_count, free_heap_bytes);

    let (de_name, de_cycles, de_heap) = deserialize_metrics_call(&serialized[..]).unwrap();

    assert_eq!(de_name, name, "wrong metric name");
    assert_eq!(de_cycles, cycle_count, "wrong cycle count");
    assert_eq!(de_heap, free_heap_bytes, "wrong free heap");
}

#[test]
fn callback_serialize_and_deserialize() {
    let cases: Vec<(&str, u64, u64)> = vec![
        ("zeros", 0, 0),
        ("something", 1024, 4095),
        ("different", 9056, 3870),
        ("one_max", u64::MAX, 514),
        ("two_max", 512, u64::MAX),
    ];
    for (name, cycles, heap_bytes) in cases {
        check_in_out(name, cycles, heap_bytes);
    }
}

#[test]
fn layout_a_exact_bytes() {
    let buf = serialize_metric("hash_merkle_root", 4096, 8388608);

    let mut expected: Vec<u8> = Vec::new();
    expected.extend_from_slice(b"hash_merkle_root");
    expected.push(0);
    expected.extend_from_slice(&4096u64.to_le_bytes());
    expected.extend_from_slice(&8388608u64.to_le_bytes());

    assert_eq!(buf.len(), 33);
    assert_eq!(buf, expected);

    let (name, cycles, heap) = deserialize_metrics_call(&buf[..]).unwrap();
    assert_eq!(name, "hash_merkle_root");
    assert_eq!(cycles, 4096);
    assert_eq!(heap, 8388608);
}

#[test]
fn layout_a_missing_terminator() {
    let bytes: Vec<u8> = vec![104, 101, 108, 108, 111];
    assert_eq!(
        deserialize_metrics_call(&bytes[..]),
        Err(DecodeError::MissingTerminator)
    );
}

#[test]
fn layout_a_truncated_tail() {
    // A valid name, the terminator, then only 5 of the 16 numeric bytes.
    let mut bytes: Vec<u8> = Vec::new();
    bytes.extend_from_slice(b"ab");
    bytes.push(0);
    bytes.extend_from_slice(&[1, 2, 3, 4, 5]);
    assert_eq!(
        deserialize_metrics_call(&bytes[..]),
        Err(DecodeError::Truncated)
    );
}

#[test]
fn layout_a_invalid_name_bytes() {
    // 0xFF is never valid UTF-8; the tail is complete.
    let mut bytes: Vec<u8> = vec![0xFF];
    bytes.push(0);
    bytes.extend_from_slice(&7u64.to_le_bytes());
    bytes.extend_from_slice(&9u64.to_le_bytes());
    assert_eq!(
        deserialize_metrics_call(&bytes[..]),
        Err(DecodeError::InvalidName)
    );
}

#[test]
fn layout_a_name_may_be_empty() {
    let buf = serialize_metric("", 3, 4);
    assert_eq!(buf.len(), 17);
    assert_eq!(buf[0], 0);
    let (name, cycles, heap) = deserialize_metrics_call(&buf[..]).unwrap();
    assert_eq!(name, "");
    assert_eq!(cycles, 3);
    assert_eq!(heap, 4);
}

#[test]
fn layout_b_exact_bytes_and_round_trip() {
    let buf = serialize_hook_record("prove_block", 123456789);

    let mut expected: Vec<u8> = Vec::new();
    expected.extend_from_slice(&123456789u64.to_le_bytes());
    expected.extend_from_slice(b"prove_block");
    assert_eq!(buf, expected);

    let (cycles, name) = deserialize_hook_record(&buf[..]).unwrap();
    assert_eq!(cycles, 123456789);
    assert_eq!(name, "prove_block");
}

#[test]
fn layout_b_name_may_hold_nul() {
    let buf = serialize_hook_record("a\0b", 2);
    let (cycles, name) = deserialize_hook_record(&buf[..]).unwrap();
    assert_eq!(cycles, 2);
    assert_eq!(name, "a\0b");
}

#[test]
fn layout_b_too_short() {
    let empty: Vec<u8> = Vec::new();
    assert_eq!(
        deserialize_hook_record(&empty[..]),
        Err(DecodeError::Truncated)
    );
    let short: Vec<u8> = vec![1, 2, 3];
    assert_eq!(
        deserialize_hook_record(&short[..]),
        Err(DecodeError::Truncated)
    );
}
