use cycle_utils::TransportError;
use cycle_utils::facade;
use cycle_utils::risc0::heap_span;
use cycle_utils::sp1::decode_cycle_response;
use cycle_utils::wrapper::cycle_delta;

#[test]
fn facade_cycle_count_is_zero() {
    assert_eq!(facade::get_cycle_count(), 0);
    assert_eq!(facade::get_cycle_count(), 0);
}

#[test]
fn facade_report_is_refused() {
    assert_eq!(
        facade::report_cycle_count("anything", 1, 2),
        Err(TransportError::TransportUnavailable)
    );
}

#[test]
fn facade_heap_is_placeholder() {
    assert_eq!(facade::get_available_heap(), 0x0C00_0000);
}

#[test]
fn cycle_delta_saturates_at_zero() {
    assert_eq!(cycle_delta(100, 50), 0);
    assert_eq!(cycle_delta(50, 100), 50);
    assert_eq!(cycle_delta(7, 7), 0);
    assert_eq!(cycle_delta(0, u64::MAX), u64::MAX);
}

#[test]
fn heap_span_is_clamped_distance() {
    assert_eq!(heap_span(0), 0x0C00_0000);
    assert_eq!(heap_span(0x0B00_0000), 0x0100_0000);
    assert_eq!(heap_span(0x0C00_0000), 0);
    assert_eq!(heap_span(0x0C00_0001), 0);
    assert_eq!(heap_span(u64::MAX), 0);
}

#[test]
fn cycle_response_must_be_eight_bytes() {
    let good: Vec<u8> = 987654321u64.to_le_bytes().to_vec();
    assert_eq!(decode_cycle_response(&good[..]), Ok(987654321));

    let short: Vec<u8> = vec![1, 2, 3];
    assert_eq!(
        decode_cycle_response(&short[..]),
        Err(TransportError::MalformedResponse)
    );
    let long: Vec<u8> = vec![0; 9];
    assert_eq!(
        decode_cycle_response(&long[..]),
        Err(TransportError::MalformedResponse)
    );
    let empty: Vec<u8> = Vec::new();
    assert_eq!(
        decode_cycle_response(&empty[..]),
        Err(TransportError::MalformedResponse)
    );
}
