use std::cell::Cell;
use std::time::Duration;

use karma::disposition::{
    disposition_step, DispositionAction, DispositionEvent, DispositionPhase, filetime_to_unix_ms, judge_first_inspection, judge_second_inspection, same_identity,
    DispositionExecutor, GraceWaiter, InspectionVerdict, ProcessController, ProcessInspector,
    ProcessOperationError,
};
use karma::ipc::{DispositionOutcome, ProcessIdentity};

fn identity(started_at_ms: i64) -> ProcessIdentity {
    ProcessIdentity {
        process_id: 42,
        started_at_ms,
        executable_name: r"C:\Program Files\Browser\browser.exe".into(),
        executable_sha256: None,
    }
}

struct Inspector {
    calls: Cell<u8>,
    first: Option<ProcessIdentity>,
    second: Option<ProcessIdentity>,
}

impl ProcessInspector for Inspector {
    fn inspect(&self, _process_id: u32) -> Result<Option<ProcessIdentity>, ProcessOperationError> {
        let call = self.calls.get();
        self.calls.set(call + 1);
        Ok(if call == 0 {
            self.first.clone()
        } else {
            self.second.clone()
        })
    }
}

#[derive(Default)]
struct Controller {
    closed: Cell<bool>,
    terminated: Cell<bool>,
}

impl ProcessController for Controller {
    fn request_close(&self, _process_id: u32) -> Result<(), ProcessOperationError> {
        self.closed.set(true);
        Ok(())
    }

    fn terminate(&self, _process_id: u32) -> Result<(), ProcessOperationError> {
        self.terminated.set(true);
        Ok(())
    }
}

struct Waiter;

impl GraceWaiter for Waiter {
    fn wait(&self, _duration: Duration) {}
}

#[test]
fn pid_reuse_is_never_terminated() {
    let executor = DispositionExecutor::new(
        Inspector {
            calls: Cell::new(0),
            first: Some(identity(2)),
            second: None,
        },
        Controller::default(),
        Waiter,
    );
    let report = executor.execute("event-1".into(), &identity(1), Duration::ZERO);
    assert_eq!(report.outcome, DispositionOutcome::IdentityChanged);
    assert!(!executor.controller().terminated.get());
}

#[test]
fn graceful_exit_is_preferred_and_matching_survivor_is_terminated() {
    let graceful = DispositionExecutor::new(
        Inspector {
            calls: Cell::new(0),
            first: Some(identity(1)),
            second: None,
        },
        Controller::default(),
        Waiter,
    );
    assert_eq!(
        graceful.execute("e1".into(), &identity(1), Duration::ZERO).outcome,
        DispositionOutcome::ClosedGracefully
    );
    assert!(!graceful.controller().terminated.get());

    let forced = DispositionExecutor::new(
        Inspector {
            calls: Cell::new(0),
            first: Some(identity(1)),
            second: Some(identity(1)),
        },
        Controller::default(),
        Waiter,
    );
    assert_eq!(
        forced.execute("e2".into(), &identity(1), Duration::ZERO).outcome,
        DispositionOutcome::Terminated
    );
    assert!(forced.controller().terminated.get());
}

#[test]
fn report_names_the_expected_process_and_event() {
    let executor = DispositionExecutor::new(
        Inspector {
            calls: Cell::new(0),
            first: None,
            second: None,
        },
        Controller::default(),
        Waiter,
    );
    let report = executor.execute("event-9".into(), &identity(5), Duration::from_millis(10));
    assert_eq!(report.event_id, "event-9");
    assert_eq!(report.process_id, 42);
    assert_eq!(report.started_at_ms, 5);
    assert_eq!(report.outcome, DispositionOutcome::SourceUncertain);
    assert!(!executor.controller().closed.get());
}

#[test]
fn identity_ignores_ascii_case_and_requires_the_expected_hash() {
    let mut actual = identity(1);
    actual.executable_name = r"c:\program files\browser\BROWSER.EXE".into();
    assert!(same_identity(&identity(1), &actual));

    let mut expected = identity(1);
    expected.executable_sha256 = Some("ABCDEF".into());
    assert!(!same_identity(&expected, &identity(1)));
    let mut hashed = identity(1);
    hashed.executable_sha256 = Some("abcdef".into());
    assert!(same_identity(&expected, &hashed));
    assert!(same_identity(&identity(1), &hashed));
}

#[test]
fn verdicts_follow_each_inspection() {
    let expected = identity(1);
    assert_eq!(
        judge_first_inspection(&expected, &Err(ProcessOperationError)),
        InspectionVerdict::Settled(DispositionOutcome::AccessDenied)
    );
    assert_eq!(
        judge_first_inspection(&expected, &Ok(Some(identity(1)))),
        InspectionVerdict::Proceed
    );
    assert_eq!(
        judge_second_inspection(&expected, &Ok(None)),
        InspectionVerdict::Settled(DispositionOutcome::ClosedGracefully)
    );
    assert_eq!(
        judge_second_inspection(&expected, &Ok(Some(identity(3)))),
        InspectionVerdict::Settled(DispositionOutcome::IdentityChanged)
    );
    assert_eq!(
        judge_second_inspection(&expected, &Err(ProcessOperationError)),
        InspectionVerdict::Settled(DispositionOutcome::AccessDenied)
    );
}

#[test]
fn filetime_converts_to_unix_milliseconds() {
    // 2021-01-01T00:00:00Z is 132_539_328_000_000_000 ticks after 1601.
    let ticks: u64 = 132_539_328_000_000_000;
    let low = (ticks & 0xffff_ffff) as u32;
    let high = (ticks >> 32) as u32;
    assert_eq!(filetime_to_unix_ms(low, high), Ok(1_609_459_200_000));
    assert_eq!(filetime_to_unix_ms(0, 0), Err(ProcessOperationError));
}

#[test]
fn steps_close_wait_look_again_and_terminate_only_a_confirmed_survivor() {
    let expected = identity(1);
    let (phase, action) = disposition_step(&expected, DispositionPhase::FirstLook, DispositionEvent::Started);
    assert_eq!(action, DispositionAction::Inspect { process_id: 42 });
    let (phase, action) = disposition_step(
        &expected,
        phase,
        DispositionEvent::Inspected { result: Ok(Some(identity(1))) },
    );
    assert_eq!(action, DispositionAction::RequestClose { process_id: 42 });
    let (phase, action) = disposition_step(&expected, phase, DispositionEvent::CloseRequested);
    assert_eq!(action, DispositionAction::Wait);
    let (phase, action) = disposition_step(&expected, phase, DispositionEvent::Waited);
    assert_eq!(action, DispositionAction::Inspect { process_id: 42 });
    let (phase, action) = disposition_step(
        &expected,
        phase,
        DispositionEvent::Inspected { result: Ok(Some(identity(1))) },
    );
    assert_eq!(action, DispositionAction::Terminate { process_id: 42 });
    let (phase, action) = disposition_step(&expected, phase, DispositionEvent::Terminated { result: Ok(()) });
    assert_eq!(phase, DispositionPhase::Finished);
    assert_eq!(action, DispositionAction::Finish { outcome: DispositionOutcome::Terminated });
}

#[test]
fn steps_settle_a_reused_id_and_a_gone_process_without_termination() {
    let expected = identity(1);
    let (phase, action) = disposition_step(
        &expected,
        DispositionPhase::FirstLook,
        DispositionEvent::Inspected { result: Ok(Some(identity(2))) },
    );
    assert_eq!(phase, DispositionPhase::Finished);
    assert_eq!(action, DispositionAction::Finish { outcome: DispositionOutcome::IdentityChanged });

    let (_, action) = disposition_step(
        &expected,
        DispositionPhase::SecondLook,
        DispositionEvent::Inspected { result: Ok(None) },
    );
    assert_eq!(action, DispositionAction::Finish { outcome: DispositionOutcome::ClosedGracefully });

    let (_, action) = disposition_step(
        &expected,
        DispositionPhase::Terminating,
        DispositionEvent::Terminated { result: Err(ProcessOperationError) },
    );
    assert_eq!(action, DispositionAction::Finish { outcome: DispositionOutcome::AccessDenied });

    let (phase, action) = disposition_step(&expected, DispositionPhase::Closing, DispositionEvent::Waited);
    assert_eq!(phase, DispositionPhase::Finished);
    assert_eq!(action, DispositionAction::Finish { outcome: DispositionOutcome::SourceUncertain });
}
