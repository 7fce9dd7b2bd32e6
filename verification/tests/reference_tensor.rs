use karma::reference_tensor::parse_reference_layout;

fn file(rank: u32, dims: &[u32], payload_bytes: usize) -> Vec<u8> {
    let mut bytes = b"KOR1".to_vec();
    bytes.extend_from_slice(&rank.to_le_bytes());
    for dim in dims {
        bytes.extend_from_slice(&dim.to_le_bytes());
    }
    bytes.extend(std::iter::repeat(0u8).take(payload_bytes));
    bytes
}

#[test]
fn reference_layout_reads_shape_and_payload_offset() {
    let layout = parse_reference_layout(&file(2, &[2, 3], 24)).unwrap();
    assert_eq!(layout.shape, vec![2, 3]);
    assert_eq!(layout.payload_offset, 16);
    let scalar_like = parse_reference_layout(&file(1, &[1], 4)).unwrap();
    assert_eq!(scalar_like.shape, vec![1]);
}

#[test]
fn reference_layout_refuses_malformed_files() {
    assert!(parse_reference_layout(b"KOR1").is_none());
    let mut wrong_magic = file(1, &[1], 4);
    wrong_magic[3] = b'2';
    assert!(parse_reference_layout(&wrong_magic).is_none());
    assert!(parse_reference_layout(&file(0, &[], 0)).is_none());
    assert!(parse_reference_layout(&file(9, &[1; 9], 4)).is_none());
    assert!(parse_reference_layout(&file(2, &[2], 0)).is_none());
    assert!(parse_reference_layout(&file(2, &[2, 0], 0)).is_none());
    assert!(parse_reference_layout(&file(2, &[2, 3], 23)).is_none());
    assert!(parse_reference_layout(&file(2, &[2, 3], 28)).is_none());
    assert!(parse_reference_layout(&file(2, &[u32::MAX, u32::MAX], 4)).is_none());
}
