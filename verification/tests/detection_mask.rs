use karma::detection_mask::DetectionMask;
use karma::engines::DetectionMapError;

#[test]
fn mask_reads_decisions_row_by_row() {
    let mask = DetectionMask::from_decisions(3, 2, vec![true, false, false, false, false, true]).unwrap();
    assert_eq!(mask.dimensions(), [3, 2]);
    assert_eq!(mask.is_active(0, 0), Some(true));
    assert_eq!(mask.is_active(1, 0), Some(false));
    assert_eq!(mask.is_active(2, 1), Some(true));
    assert_eq!(mask.is_active(3, 0), None);
    assert_eq!(mask.is_active(0, 2), None);
}

#[test]
fn mask_refuses_empty_or_mismatched_grids() {
    assert_eq!(
        DetectionMask::from_decisions(0, 2, vec![]).err(),
        Some(DetectionMapError::InvalidDimensions)
    );
    assert_eq!(
        DetectionMask::from_decisions(usize::MAX, 2, vec![]).err(),
        Some(DetectionMapError::InvalidDimensions)
    );
    assert_eq!(
        DetectionMask::from_decisions(2, 2, vec![true; 3]).err(),
        Some(DetectionMapError::InvalidElementCount)
    );
}
