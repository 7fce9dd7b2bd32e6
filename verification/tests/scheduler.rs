use karma::domain::MonitorId;
use karma::frame::{BgraFrame, FrameDimensions};
use karma::scheduler::{FrameMetadata, FramePipeline, FrameScheduler, FrameWork};

fn metadata(monitor: &str, at: i64, fingerprint: u64) -> FrameMetadata {
    FrameMetadata {
        monitor_id: MonitorId(monitor.into()),
        captured_at_ms: at,
        fingerprint,
    }
}

fn frame(monitor: &str, captured_at_ms: i64, value: u8) -> BgraFrame {
    BgraFrame::new(
        MonitorId(monitor.into()),
        captured_at_ms,
        FrameDimensions::new(1, 1).unwrap(),
        4,
        vec![value, value, value, 255],
    )
    .unwrap()
}

#[test]
fn first_frame_runs_image_and_ocr() {
    assert_eq!(
        FrameScheduler::default().select(metadata("a", 1000, 1)),
        FrameWork {
            run_image: true,
            run_ocr: true,
        }
    );
}

#[test]
fn image_is_capped_at_two_fps() {
    let mut value = FrameScheduler::default();
    value.select(metadata("a", 1000, 1));
    assert!(!value.select(metadata("a", 1499, 2)).run_image);
    assert!(value.select(metadata("a", 1500, 3)).run_image);
}

#[test]
fn ocr_requires_one_second_and_changed_frame() {
    let mut value = FrameScheduler::default();
    value.select(metadata("a", 1000, 1));
    assert!(!value.select(metadata("a", 2000, 1)).run_ocr);
    assert!(value.select(metadata("a", 2001, 2)).run_ocr);
}

#[test]
fn monitors_have_independent_state() {
    let mut value = FrameScheduler::default();
    value.select(metadata("a", 1000, 1));
    assert_eq!(
        value.select(metadata("b", 1100, 1)),
        FrameWork {
            run_image: true,
            run_ocr: true,
        }
    );
}

#[test]
fn first_prepared_frame_requests_image_and_ocr() {
    let output = FramePipeline::default().process(frame("m", 1_000, 10)).unwrap();
    assert!(output.work.run_image);
    assert!(output.work.run_ocr);
    assert_eq!(output.frame.dimensions(), FrameDimensions::new(1, 1).unwrap());
}

#[test]
fn unchanged_frame_respects_scheduler_limits() {
    let mut pipeline = FramePipeline::default();
    pipeline.process(frame("m", 1_000, 10)).unwrap();
    let output = pipeline.process(frame("m", 2_000, 10)).unwrap();
    assert!(output.work.run_image);
    assert!(!output.work.run_ocr);
}

#[test]
fn backwards_timestamp_does_not_run_or_overflow() {
    let mut scheduler = FrameScheduler::default();
    scheduler.select(FrameMetadata {
        monitor_id: MonitorId("m".into()),
        captured_at_ms: i64::MAX,
        fingerprint: 1,
    });
    let output = scheduler.select(FrameMetadata {
        monitor_id: MonitorId("m".into()),
        captured_at_ms: i64::MIN,
        fingerprint: 2,
    });
    assert_eq!(
        output,
        FrameWork {
            run_image: false,
            run_ocr: false,
        }
    );
}

#[test]
fn changed_frame_after_a_second_runs_both_engines_again() {
    let mut value = FrameScheduler::default();
    value.select(metadata("a", 1000, 1));
    assert_eq!(
        value.select(metadata("a", 2001, 9)),
        FrameWork {
            run_image: true,
            run_ocr: true,
        }
    );
    assert_eq!(
        value.select(metadata("a", 2002, 10)),
        FrameWork {
            run_image: false,
            run_ocr: false,
        }
    );
}
