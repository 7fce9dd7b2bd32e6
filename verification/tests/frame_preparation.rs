use karma::domain::MonitorId;
use karma::frame::{BgraFrame, FrameDimensions, FrameError};
use karma::preparation::{FramePreparationConfig, FramePreparer};

fn horizontal_gradient(reversed: bool) -> BgraFrame {
    let dimensions = FrameDimensions::new(18, 8).unwrap();
    let mut pixels = Vec::with_capacity(dimensions.tight_byte_len().unwrap());
    for _ in 0..dimensions.height() {
        for x in 0..dimensions.width() {
            let value = if reversed {
                255 - (x * 15) as u8
            } else {
                (x * 15) as u8
            };
            pixels.extend_from_slice(&[value, value, value, 255]);
        }
    }
    BgraFrame::new(
        MonitorId("m".into()),
        1,
        dimensions,
        dimensions.tight_stride().unwrap(),
        pixels,
    )
    .unwrap()
}

#[test]
fn dimensions_reject_zero_and_compute_tight_layout() {
    assert_eq!(FrameDimensions::new(0, 10), Err(FrameError::InvalidDimensions));
    let value = FrameDimensions::new(3, 2).unwrap();
    assert_eq!(value.tight_stride().unwrap(), 12);
    assert_eq!(value.tight_byte_len().unwrap(), 24);
}

#[test]
fn bgra_frame_validates_stride_and_buffer_length() {
    let dimensions = FrameDimensions::new(2, 2).unwrap();
    assert!(matches!(
        BgraFrame::new(MonitorId("m".into()), 1, dimensions, 7, vec![0; 14]),
        Err(FrameError::StrideTooSmall { .. })
    ));
    assert!(matches!(
        BgraFrame::new(MonitorId("m".into()), 1, dimensions, 8, vec![0; 15]),
        Err(FrameError::BufferLengthMismatch { .. })
    ));
}

#[test]
fn target_dimensions_preserve_aspect_and_do_not_enlarge() {
    let config = FramePreparationConfig::default();
    assert_eq!(
        config.target(FrameDimensions::new(1920, 1080).unwrap()).unwrap(),
        FrameDimensions::new(640, 360).unwrap()
    );
    assert_eq!(
        config.target(FrameDimensions::new(1080, 1920).unwrap()).unwrap(),
        FrameDimensions::new(360, 640).unwrap()
    );
    assert_eq!(
        config.target(FrameDimensions::new(320, 200).unwrap()).unwrap(),
        FrameDimensions::new(320, 200).unwrap()
    );
}

#[test]
fn one_pixel_and_padded_rows_are_prepared_tightly() {
    let input = BgraFrame::new(
        MonitorId("m".into()),
        7,
        FrameDimensions::new(1, 1).unwrap(),
        8,
        vec![10, 20, 30, 255, 99, 99, 99, 99],
    )
    .unwrap();
    let output = FramePreparer::default().prepare(input).unwrap();
    assert_eq!(output.dimensions(), FrameDimensions::new(1, 1).unwrap());
    assert_eq!(output.pixels(), &[10, 20, 30, 255]);
}

#[test]
fn bilinear_scaling_interpolates_middle_pixel() {
    let dimensions = FrameDimensions::new(4, 1).unwrap();
    let input = BgraFrame::new(
        MonitorId("m".into()),
        1,
        dimensions,
        dimensions.tight_stride().unwrap(),
        vec![0, 0, 0, 255, 40, 40, 40, 255, 80, 80, 80, 255, 120, 120, 120, 255],
    )
    .unwrap();
    let output = FramePreparer::new(FramePreparationConfig::new(3).unwrap())
        .prepare(input)
        .unwrap();
    assert_eq!(output.pixels(), &[0, 0, 0, 255, 60, 60, 60, 255, 120, 120, 120, 255]);
}

#[test]
fn fingerprint_is_stable_and_changes_with_structure() {
    let first = horizontal_gradient(false);
    let same = horizontal_gradient(false);
    let reversed = horizontal_gradient(true);
    let preparer = FramePreparer::default();
    assert_eq!(
        preparer.prepare(first).unwrap().fingerprint(),
        preparer.prepare(same).unwrap().fingerprint()
    );
    assert_ne!(
        preparer.prepare(horizontal_gradient(false)).unwrap().fingerprint(),
        preparer.prepare(reversed).unwrap().fingerprint()
    );
}

#[test]
fn prepared_frame_keeps_its_source_and_time() {
    let input = BgraFrame::new(
        MonitorId("display-2".into()),
        1234,
        FrameDimensions::new(2, 1).unwrap(),
        8,
        vec![1, 2, 3, 255, 4, 5, 6, 255],
    )
    .unwrap();
    let output = FramePreparer::default().prepare(input).unwrap();
    assert_eq!(output.monitor_id(), &MonitorId("display-2".into()));
    assert_eq!(output.captured_at_ms(), 1234);
    assert_eq!(output.pixels(), &[1, 2, 3, 255, 4, 5, 6, 255]);
}

#[test]
fn zero_maximum_edge_is_refused() {
    assert!(FramePreparationConfig::new(0).is_err());
}
