use portfolio_backend::codec::{
    align, validate_stored_asset, AlignmentError, AssetInfo, Policy, RECORD_SIZE,
};

fn ramp(len: usize) -> Vec<u8> {
    (0..len).map(|i| (i % 251) as u8).collect()
}

#[test]
fn record_size_is_six_packed_floats() {
    assert_eq!(RECORD_SIZE, 24);
}

#[test]
fn align_fifty_bytes_keeps_two_points() {
    let input = ramp(50);
    let r = align(input.clone());
    assert_eq!(r.point_count, 2);
    assert_eq!(r.aligned_length(), 48);
    assert_eq!(r.dropped_bytes, 2);
    assert_eq!(r.aligned, input[..48].to_vec());
    assert!(r.truncated());
}

#[test]
fn align_empty_buffer() {
    let r = align(Vec::new());
    assert_eq!(r.point_count, 0);
    assert_eq!(r.aligned_length(), 0);
    assert_eq!(r.dropped_bytes, 0);
    assert!(r.aligned.is_empty());
    assert!(!r.truncated());
}

#[test]
fn align_result_is_whole_records() {
    for len in 0..200usize {
        let r = align(ramp(len));
        assert_eq!(r.aligned.len() % 24, 0);
        assert_eq!(r.aligned.len() as u64, r.point_count * 24);
        assert_eq!(r.aligned.len() + r.dropped_bytes as usize, len);
    }
}

#[test]
fn align_short_buffer_drops_everything() {
    for len in 0..24usize {
        let r = align(ramp(len));
        assert!(r.aligned.is_empty());
        assert_eq!(r.point_count, 0);
        assert_eq!(r.dropped_bytes as usize, len);
    }
}

#[test]
fn align_leaves_aligned_buffer_alone() {
    for points in 0..6usize {
        let input = ramp(points * 24);
        let r = align(input.clone());
        assert_eq!(r.aligned, input);
        assert_eq!(r.point_count, points as u64);
        assert_eq!(r.dropped_bytes, 0);
    }
}

#[test]
fn align_twice_is_align_once() {
    for len in [0usize, 1, 23, 24, 25, 47, 48, 50, 241] {
        let once = align(ramp(len));
        let twice = align(once.aligned.clone());
        assert_eq!(twice.aligned, once.aligned);
        assert_eq!(twice.point_count, once.point_count);
        assert_eq!(twice.dropped_bytes, 0);
    }
}

#[test]
fn validate_aligned_file_under_both_policies() {
    let want = AssetInfo { file_size: 240, point_count: 10 };
    assert_eq!(validate_stored_asset(240, Policy::Strict), Ok(want));
    assert_eq!(validate_stored_asset(240, Policy::Lenient), Ok(want));
    assert_eq!(want.aligned_size(), 240);
}

#[test]
fn validate_misaligned_file_strict_is_refused() {
    assert_eq!(
        validate_stored_asset(241, Policy::Strict),
        Err(AlignmentError::Misaligned { file_size: 241, expected_size: 240 })
    );
}

#[test]
fn validate_misaligned_file_lenient_serves_prefix() {
    let info = validate_stored_asset(241, Policy::Lenient).unwrap();
    assert_eq!(info, AssetInfo { file_size: 241, point_count: 10 });
    assert_eq!(info.aligned_size(), 240);
}

#[test]
fn validate_empty_and_largest_file() {
    assert_eq!(
        validate_stored_asset(0, Policy::Strict),
        Ok(AssetInfo { file_size: 0, point_count: 0 })
    );
    let max = u64::MAX;
    assert_eq!(
        validate_stored_asset(max, Policy::Strict),
        Err(AlignmentError::Misaligned { file_size: max, expected_size: max - max % 24 })
    );
    let info = validate_stored_asset(max, Policy::Lenient).unwrap();
    assert_eq!(info.point_count, max / 24);
}
