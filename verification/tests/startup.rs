use karma::startup::{
    CaptureTargetFactory, MonitorInventory, StartupProbe, StartupStatus, StartupSummary,
};

struct FakeInventory {
    monitors: Result<Vec<u8>, ()>,
}

impl MonitorInventory for FakeInventory {
    type Monitor = u8;
    type Error = ();

    fn active_monitors(&self) -> Result<Vec<Self::Monitor>, Self::Error> {
        self.monitors.clone()
    }
}

struct FakeCaptureFactory {
    failing_monitor: Option<u8>,
}

impl CaptureTargetFactory<u8> for FakeCaptureFactory {
    type Error = ();

    fn create(&self, monitor: &u8) -> Result<(), Self::Error> {
        if self.failing_monitor == Some(*monitor) {
            Err(())
        } else {
            Ok(())
        }
    }
}

#[test]
fn all_capture_targets_ready() {
    let value = StartupProbe::run(
        &FakeInventory {
            monitors: Ok(vec![1, 2]),
        },
        &FakeCaptureFactory {
            failing_monitor: None,
        },
    );

    assert_eq!(
        value,
        StartupSummary {
            status: StartupStatus::Ready,
            monitor_count: 2,
            wgc_ready_count: 2,
            wgc_failed_count: 0,
        }
    );
}

#[test]
fn partial_failure_is_degraded() {
    let value = StartupProbe::run(
        &FakeInventory {
            monitors: Ok(vec![1, 2, 3]),
        },
        &FakeCaptureFactory {
            failing_monitor: Some(2),
        },
    );

    assert_eq!(value.status, StartupStatus::Degraded);
    assert_eq!(value.wgc_ready_count, 2);
    assert_eq!(value.wgc_failed_count, 1);
}

#[test]
fn zero_monitors_and_inventory_failure_are_unavailable() {
    let factory = FakeCaptureFactory {
        failing_monitor: None,
    };
    assert_eq!(
        StartupProbe::run(&FakeInventory { monitors: Ok(vec![]) }, &factory,).status,
        StartupStatus::Unavailable
    );
    assert_eq!(
        StartupProbe::run(&FakeInventory { monitors: Err(()) }, &factory,).status,
        StartupStatus::Unavailable
    );
}

#[test]
fn every_failing_target_is_unavailable_and_statuses_print_as_words() {
    let value = StartupProbe::run(
        &FakeInventory {
            monitors: Ok(vec![4]),
        },
        &FakeCaptureFactory {
            failing_monitor: Some(4),
        },
    );
    assert_eq!(value.status, StartupStatus::Unavailable);
    assert_eq!(value.wgc_failed_count, 1);
    assert_eq!(StartupStatus::Ready.as_str(), "ready");
    assert_eq!(StartupStatus::Degraded.as_str(), "degraded");
    assert_eq!(StartupStatus::Unavailable.as_str(), "unavailable");
    assert_eq!(StartupSummary::from_counts(1, 3).wgc_failed_count, 0);
}

#[test]
fn per_monitor_outcomes_are_counted() {
    let summary = StartupSummary::from_outcomes(&[true, false, true]);
    assert_eq!(summary.monitor_count, 3);
    assert_eq!(summary.wgc_ready_count, 2);
    assert_eq!(summary.wgc_failed_count, 1);
    assert_eq!(summary.status, StartupStatus::Degraded);
    assert_eq!(StartupSummary::from_outcomes(&[true, true]).status, StartupStatus::Ready);
    assert_eq!(StartupSummary::from_outcomes(&[false]).status, StartupStatus::Unavailable);
    assert_eq!(StartupSummary::from_outcomes(&[]).status, StartupStatus::Unavailable);
}
