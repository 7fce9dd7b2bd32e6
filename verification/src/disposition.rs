use vstd::prelude::*;

use core::time::Duration;

use crate::ipc::{DispositionOutcome, DispositionReport, ProcessIdentity};
use crate::text::{eq_ignore_ascii_case, eq_ignore_ascii_case_spec};

verus! {

/// An operation on a process failed; it says no more.
#[derive(Debug, Clone, Copy, PartialEq, Eq, Structural)]
pub struct ProcessOperationError;

/// Looks a process up by id: `Ok(None)` where no such process runs.
pub trait ProcessInspector {
    fn inspect(&self, process_id: u32) -> Result<Option<ProcessIdentity>, ProcessOperationError>;
}

/// Asks a process to close, or ends it.
pub trait ProcessController {
    fn request_close(&self, process_id: u32) -> Result<(), ProcessOperationError>;

    fn terminate(&self, process_id: u32) -> Result<(), ProcessOperationError>;
}

/// Waits out the grace period a process is given to close.
pub trait GraceWaiter {
    fn wait(&self, duration: Duration);
}

/// Two descriptions name the same process: same id and start time, the same executable
/// (ASCII case ignored), and the same hash where the expected one names a hash.
pub open spec fn same_identity_spec(expected: ProcessIdentity, actual: ProcessIdentity) -> bool {
    &&& expected.process_id == actual.process_id
    &&& expected.started_at_ms == actual.started_at_ms
    &&& eq_ignore_ascii_case_spec(expected.executable_name@, actual.executable_name@)
    &&& match (expected.executable_sha256, actual.executable_sha256) {
        (Some(e), Some(a)) => eq_ignore_ascii_case_spec(e@, a@),
        (Some(_), None) => false,
        (None, _) => true,
    }
}

/// Whether `actual` is still the process that `expected` describes.
pub fn same_identity(expected: &ProcessIdentity, actual: &ProcessIdentity) -> (same: bool)
    ensures
        same == same_identity_spec(*expected, *actual),
{
    if expected.process_id != actual.process_id || expected.started_at_ms != actual.started_at_ms {
        return false;
    }
    if !eq_ignore_ascii_case(expected.executable_name.as_str(), actual.executable_name.as_str()) {
        return false;
    }
    match (&expected.executable_sha256, &actual.executable_sha256) {
        (Some(e), Some(a)) => eq_ignore_ascii_case(e.as_str(), a.as_str()),
        (Some(_), None) => false,
        (None, _) => true,
    }
}

/// What one look at the process decides: an outcome, or to go on.
#[derive(Debug, Clone, Copy, PartialEq, Eq, Structural)]
pub enum InspectionVerdict {
    Settled(DispositionOutcome),
    Proceed,
}

/// The verdict of the first look: a failed look is access denied, an absent process is an
/// uncertain source, another process is a changed identity, and the same process is closed.
pub open spec fn first_verdict(
    expected: ProcessIdentity,
    inspected: Result<Option<ProcessIdentity>, ProcessOperationError>,
) -> InspectionVerdict {
    match inspected {
        Err(_) => InspectionVerdict::Settled(DispositionOutcome::AccessDenied),
        Ok(None) => InspectionVerdict::Settled(DispositionOutcome::SourceUncertain),
        Ok(Some(actual)) => if same_identity_spec(expected, actual) {
            InspectionVerdict::Proceed
        } else {
            InspectionVerdict::Settled(DispositionOutcome::IdentityChanged)
        },
    }
}

/// The verdict of the look after the grace period: a process that is gone closed
/// gracefully, another process is a changed identity, a failed look is access denied, and
/// the same process is terminated.
pub open spec fn second_verdict(
    expected: ProcessIdentity,
    inspected: Result<Option<ProcessIdentity>, ProcessOperationError>,
) -> InspectionVerdict {
    match inspected {
        Ok(None) => InspectionVerdict::Settled(DispositionOutcome::ClosedGracefully),
        Ok(Some(actual)) => if same_identity_spec(expected, actual) {
            InspectionVerdict::Proceed
        } else {
            InspectionVerdict::Settled(DispositionOutcome::IdentityChanged)
        },
        Err(_) => InspectionVerdict::Settled(DispositionOutcome::AccessDenied),
    }
}

/// The outcome of a termination attempt.
pub open spec fn termination_outcome(result: Result<(), ProcessOperationError>) -> DispositionOutcome {
    match result {
        Ok(()) => DispositionOutcome::Terminated,
        Err(_) => DispositionOutcome::AccessDenied,
    }
}

/// Judges the first look at the process.
pub fn judge_first_inspection(
    expected: &ProcessIdentity,
    inspected: &Result<Option<ProcessIdentity>, ProcessOperationError>,
) -> (verdict: InspectionVerdict)
    ensures
        verdict == first_verdict(*expected, *inspected),
{
    match inspected {
        Err(_) => InspectionVerdict::Settled(DispositionOutcome::AccessDenied),
        Ok(None) => InspectionVerdict::Settled(DispositionOutcome::SourceUncertain),
        Ok(Some(actual)) => if same_identity(expected, actual) {
            InspectionVerdict::Proceed
        } else {
            InspectionVerdict::Settled(DispositionOutcome::IdentityChanged)
        },
    }
}

/// Judges the look after the grace period.
pub fn judge_second_inspection(
    expected: &ProcessIdentity,
    inspected: &Result<Option<ProcessIdentity>, ProcessOperationError>,
) -> (verdict: InspectionVerdict)
    ensures
        verdict == second_verdict(*expected, *inspected),
{
    match inspected {
        Ok(None) => InspectionVerdict::Settled(DispositionOutcome::ClosedGracefully),
        Ok(Some(actual)) => if same_identity(expected, actual) {
            InspectionVerdict::Proceed
        } else {
            InspectionVerdict::Settled(DispositionOutcome::IdentityChanged)
        },
        Err(_) => InspectionVerdict::Settled(DispositionOutcome::AccessDenied),
    }
}

/// Judges a termination attempt.
pub fn judge_termination(result: &Result<(), ProcessOperationError>) -> (outcome: DispositionOutcome)
    ensures
        outcome == termination_outcome(*result),
{
    match result {
        Ok(()) => DispositionOutcome::Terminated,
        Err(_) => DispositionOutcome::AccessDenied,
    }
}

/// A verdict to go on, at either look, is only ever given for the expected process itself:
/// a reused process id is never closed or terminated.
pub proof fn lemma_only_the_expected_process_is_acted_on(
    expected: ProcessIdentity,
    inspected: Result<Option<ProcessIdentity>, ProcessOperationError>,
)
    ensures
        first_verdict(expected, inspected) == InspectionVerdict::Proceed ==> (inspected matches Ok(
            Some(actual),
        ) && same_identity_spec(expected, actual)),
        second_verdict(expected, inspected) == InspectionVerdict::Proceed ==> (inspected matches Ok(
            Some(actual),
        ) && same_identity_spec(expected, actual)),
{
}

// ---------------------------------------------------------------------------
// The steps of a disposition.
//
// A disposition alternates work on the process with decisions. The decisions are a step
// function from the phase and the answer to the last action to the next phase and action;
// the executor performs each action and hands back its answer.
// ---------------------------------------------------------------------------

/// How far a disposition has come.
#[derive(Debug, Clone, Copy, PartialEq, Eq, Structural)]
pub enum DispositionPhase {
    /// Waiting for the first look at the process.
    FirstLook,
    /// Waiting for the close request to be made.
    Closing,
    /// Waiting for the grace period to pass.
    Waiting,
    /// Waiting for the look after the grace period.
    SecondLook,
    /// Waiting for the termination attempt.
    Terminating,
    /// Done.
    Finished,
}

/// What the executor does next.
#[derive(Debug, Clone, Copy, PartialEq, Eq, Structural)]
pub enum DispositionAction {
    Inspect { process_id: u32 },
    RequestClose { process_id: u32 },
    Wait,
    Terminate { process_id: u32 },
    Finish { outcome: DispositionOutcome },
}

/// What the executor hands back: the start, or the answer to the last action.
#[derive(Debug)]
pub enum DispositionEvent {
    Started,
    Inspected { result: Result<Option<ProcessIdentity>, ProcessOperationError> },
    CloseRequested,
    Waited,
    Terminated { result: Result<(), ProcessOperationError> },
}

/// The next phase and action. The start asks for a look. A first look that settles ends
/// the disposition with its outcome; one that finds the expected process asks it to close.
/// The close request is followed by the wait, the wait by a second look. A second look that
/// settles ends the disposition with its outcome; one that finds the expected process still
/// running terminates it, and the attempt's outcome ends the disposition. An event that
/// answers no pending action ends the disposition as uncertain without touching the process.
pub open spec fn disposition_next(expected: ProcessIdentity, phase: DispositionPhase, event: DispositionEvent) -> (
    DispositionPhase,
    DispositionAction,
) {
    let pid = expected.process_id;
    let uncertain = (
        DispositionPhase::Finished,
        DispositionAction::Finish { outcome: DispositionOutcome::SourceUncertain },
    );
    match (phase, event) {
        (DispositionPhase::FirstLook, DispositionEvent::Started) => (
            DispositionPhase::FirstLook,
            DispositionAction::Inspect { process_id: pid },
        ),
        (DispositionPhase::FirstLook, DispositionEvent::Inspected { result }) => match first_verdict(
            expected,
            result,
        ) {
            InspectionVerdict::Settled(outcome) => (DispositionPhase::Finished, DispositionAction::Finish { outcome }),
            InspectionVerdict::Proceed => (DispositionPhase::Closing, DispositionAction::RequestClose { process_id: pid }),
        },
        (DispositionPhase::Closing, DispositionEvent::CloseRequested) => (
            DispositionPhase::Waiting,
            DispositionAction::Wait,
        ),
        (DispositionPhase::Waiting, DispositionEvent::Waited) => (
            DispositionPhase::SecondLook,
            DispositionAction::Inspect { process_id: pid },
        ),
        (DispositionPhase::SecondLook, DispositionEvent::Inspected { result }) => match second_verdict(
            expected,
            result,
        ) {
            InspectionVerdict::Settled(outcome) => (DispositionPhase::Finished, DispositionAction::Finish { outcome }),
            InspectionVerdict::Proceed => (
                DispositionPhase::Terminating,
                DispositionAction::Terminate { process_id: pid },
            ),
        },
        (DispositionPhase::Terminating, DispositionEvent::Terminated { result }) => (
            DispositionPhase::Finished,
            DispositionAction::Finish { outcome: termination_outcome(result) },
        ),
        _ => uncertain,
    }
}

/// One step of a disposition: the next phase and action for `event`.
pub fn disposition_step(expected: &ProcessIdentity, phase: DispositionPhase, event: DispositionEvent) -> (r: (
    DispositionPhase,
    DispositionAction,
))
    ensures
        r == disposition_next(*expected, phase, event),
{
    let pid = expected.process_id;
    let uncertain = (
        DispositionPhase::Finished,
        DispositionAction::Finish { outcome: DispositionOutcome::SourceUncertain },
    );
    match phase {
        DispositionPhase::FirstLook => match event {
            DispositionEvent::Started => (DispositionPhase::FirstLook, DispositionAction::Inspect { process_id: pid }),
            DispositionEvent::Inspected { result } => match judge_first_inspection(expected, &result) {
                InspectionVerdict::Settled(outcome) => (DispositionPhase::Finished, DispositionAction::Finish { outcome }),
                InspectionVerdict::Proceed => (
                    DispositionPhase::Closing,
                    DispositionAction::RequestClose { process_id: pid },
                ),
            },
            _ => uncertain,
        },
        DispositionPhase::Closing => match event {
            DispositionEvent::CloseRequested => (DispositionPhase::Waiting, DispositionAction::Wait),
            _ => uncertain,
        },
        DispositionPhase::Waiting => match event {
            DispositionEvent::Waited => (DispositionPhase::SecondLook, DispositionAction::Inspect { process_id: pid }),
            _ => uncertain,
        },
        DispositionPhase::SecondLook => match event {
            DispositionEvent::Inspected { result } => match judge_second_inspection(expected, &result) {
                InspectionVerdict::Settled(outcome) => (DispositionPhase::Finished, DispositionAction::Finish { outcome }),
                InspectionVerdict::Proceed => (
                    DispositionPhase::Terminating,
                    DispositionAction::Terminate { process_id: pid },
                ),
            },
            _ => uncertain,
        },
        DispositionPhase::Terminating => match event {
            DispositionEvent::Terminated { result } => (
                DispositionPhase::Finished,
                DispositionAction::Finish { outcome: judge_termination(&result) },
            ),
            _ => uncertain,
        },
        DispositionPhase::Finished => uncertain,
    }
}

/// The phase before event `k` of a run that starts at the first look.
pub open spec fn phase_before(expected: ProcessIdentity, events: Seq<DispositionEvent>, k: nat) -> DispositionPhase
    decreases k,
{
    if k == 0 {
        DispositionPhase::FirstLook
    } else {
        disposition_next(expected, phase_before(expected, events, (k - 1) as nat), events[k - 1]).0
    }
}

/// The action answered to event `k` of a run that starts at the first look.
pub open spec fn action_at(expected: ProcessIdentity, events: Seq<DispositionEvent>, k: nat) -> DispositionAction {
    disposition_next(expected, phase_before(expected, events, k), events[k as int]).1
}

/// A look that finds the expected process.
pub open spec fn finds_expected(expected: ProcessIdentity, event: DispositionEvent) -> bool {
    event matches DispositionEvent::Inspected { result: Ok(Some(actual)) } && same_identity_spec(expected, actual)
}

/// In any run, the process is terminated only as the expected process id, and only after a
/// first look that found the expected process, a close request to it, the grace period,
/// and a second look that found it still running: a reused process id is never
/// terminated.
pub proof fn lemma_terminate_only_the_confirmed_process(
    expected: ProcessIdentity,
    events: Seq<DispositionEvent>,
    k: nat,
)
    requires
        k < events.len(),
        action_at(expected, events, k) is Terminate,
    ensures
        action_at(expected, events, k) == (DispositionAction::Terminate { process_id: expected.process_id }),
        k >= 3,
        finds_expected(expected, events[k as int]),
        action_at(expected, events, (k - 1) as nat) == (DispositionAction::Inspect { process_id: expected.process_id }),
        action_at(expected, events, (k - 2) as nat) == DispositionAction::Wait,
        action_at(expected, events, (k - 3) as nat) == (DispositionAction::RequestClose {
            process_id: expected.process_id,
        }),
        finds_expected(expected, events[k - 3]),
{
    reveal_with_fuel(phase_before, 2);
    assert(phase_before(expected, events, k) == DispositionPhase::SecondLook);
    assert(k >= 1);
    let k1 = (k - 1) as nat;
    assert(phase_before(expected, events, k1) == DispositionPhase::Waiting);
    assert(k1 >= 1);
    let k2 = (k1 - 1) as nat;
    assert(phase_before(expected, events, k2) == DispositionPhase::Closing);
    assert(k2 >= 1);
    let k3 = (k2 - 1) as nat;
    assert(phase_before(expected, events, k3) == DispositionPhase::FirstLook);
}

proof fn lemma_no_second_look_after_termination(expected: ProcessIdentity, events: Seq<DispositionEvent>, j: nat, k: nat)
    requires
        j < k <= events.len(),
        action_at(expected, events, j) is Terminate,
    ensures
        phase_before(expected, events, k) == DispositionPhase::Terminating || phase_before(expected, events, k)
            == DispositionPhase::Finished,
    decreases k,
{
    if k > j + 1 {
        lemma_no_second_look_after_termination(expected, events, j, (k - 1) as nat);
    }
}

/// In any run, the process is terminated at most once.
pub proof fn lemma_terminate_at_most_once(expected: ProcessIdentity, events: Seq<DispositionEvent>, j: nat, k: nat)
    requires
        j < k < events.len(),
        action_at(expected, events, j) is Terminate,
    ensures
        !(action_at(expected, events, k) is Terminate),
{
    lemma_no_second_look_after_termination(expected, events, j, k);
}

/// The rank of a phase: every answer to a phase's action moves to a lower rank.
pub open spec fn phase_rank(phase: DispositionPhase) -> nat {
    match phase {
        DispositionPhase::FirstLook => 5,
        DispositionPhase::Closing => 4,
        DispositionPhase::Waiting => 3,
        DispositionPhase::SecondLook => 2,
        DispositionPhase::Terminating => 1,
        DispositionPhase::Finished => 0,
    }
}

/// The action a phase waits on the answer to.
pub open spec fn pending(expected: ProcessIdentity, phase: DispositionPhase, action: DispositionAction) -> bool {
    match phase {
        DispositionPhase::FirstLook => action == DispositionAction::Inspect { process_id: expected.process_id },
        DispositionPhase::Closing => action == DispositionAction::RequestClose { process_id: expected.process_id },
        DispositionPhase::Waiting => action == DispositionAction::Wait,
        DispositionPhase::SecondLook => action == DispositionAction::Inspect { process_id: expected.process_id },
        DispositionPhase::Terminating => action == DispositionAction::Terminate { process_id: expected.process_id },
        DispositionPhase::Finished => action is Finish,
    }
}

/// Closes a process, and terminates it if it is still the same process after a grace period.
pub struct DispositionExecutor<I, C, W> {
    inspector: I,
    controller: C,
    waiter: W,
}

impl<I, C, W> DispositionExecutor<I, C, W> {
    pub closed spec fn spec_inspector(&self) -> I {
        self.inspector
    }

    pub closed spec fn spec_controller(&self) -> C {
        self.controller
    }

    pub closed spec fn spec_waiter(&self) -> W {
        self.waiter
    }
}

impl<I: ProcessInspector, C: ProcessController, W: GraceWaiter> DispositionExecutor<I, C, W> {
    /// An executor over the given inspector, controller and waiter.
    pub fn new(inspector: I, controller: C, waiter: W) -> (executor: Self)
        ensures
            executor.spec_inspector() == inspector,
            executor.spec_controller() == controller,
            executor.spec_waiter() == waiter,
    {
        DispositionExecutor { inspector, controller, waiter }
    }

    /// The inspector.
    pub fn inspector(&self) -> (inspector: &I)
        ensures
            *inspector == self.spec_inspector(),
    {
        &self.inspector
    }

    /// The controller.
    pub fn controller(&self) -> (controller: &C)
        ensures
            *controller == self.spec_controller(),
    {
        &self.controller
    }

    /// Looks at the process; if it is the expected one, asks it to close, waits the grace
    /// period and looks again; if it is still the expected one, terminates it. Each step is
    /// the one `disposition_step` decides, on the answers actually received; the report
    /// names the expected process and the outcome the last step gave.
    pub fn execute(&self, event_id: String, expected: &ProcessIdentity, grace_period: Duration) -> (report:
        DispositionReport)
        ensures
            report.event_id == event_id,
            report.process_id == expected.process_id,
            report.started_at_ms == expected.started_at_ms,
            exists|events: Seq<DispositionEvent>|
                #![trigger events.len()]
                {
                    &&& events.len() > 0
                    &&& events[0] is Started
                    &&& forall|k: nat| 0 < k < events.len() ==> #[trigger] answers(
                        action_at(*expected, events, (k - 1) as nat),
                        events[k as int],
                    )
                    &&& action_at(*expected, events, (events.len() - 1) as nat) == (DispositionAction::Finish {
                        outcome: report.outcome,
                    })
                },
    {
        let ghost mut events: Seq<DispositionEvent> = seq![DispositionEvent::Started];
        let (mut phase, mut action) = disposition_step(expected, DispositionPhase::FirstLook, DispositionEvent::Started);
        proof {
            reveal_with_fuel(phase_before, 1);
        }
        while !matches!(action, DispositionAction::Finish { .. })
            invariant
                events.len() > 0,
                events[0] is Started,
                forall|k: nat| 0 < k < events.len() ==> #[trigger] answers(
                    action_at(*expected, events, (k - 1) as nat),
                    events[k as int],
                ),
                action == action_at(*expected, events, (events.len() - 1) as nat),
                phase == disposition_next(
                    *expected,
                    phase_before(*expected, events, (events.len() - 1) as nat),
                    events[events.len() - 1],
                ).0,
                pending(*expected, phase, action),
            decreases phase_rank(phase),
        {
            let event = match action {
                DispositionAction::Inspect { process_id } => DispositionEvent::Inspected {
                    result: self.inspector.inspect(process_id),
                },
                DispositionAction::RequestClose { process_id } => {
                    let _ = self.controller.request_close(process_id);
                    DispositionEvent::CloseRequested
                },
                DispositionAction::Wait => {
                    self.waiter.wait(grace_period);
                    DispositionEvent::Waited
                },
                DispositionAction::Terminate { process_id } => DispositionEvent::Terminated {
                    result: self.controller.terminate(process_id),
                },
                DispositionAction::Finish { .. } => DispositionEvent::Started,
            };
            let ghost previous = events;
            let (next_phase, next_action) = disposition_step(expected, phase, event);
            proof {
                events = events.push(event);
                assert(phase_before(*expected, events, (events.len() - 1) as nat) == phase) by {
                    reveal_with_fuel(phase_before, 2);
                    assert forall|k: nat| k <= previous.len() implies phase_before(*expected, events, k)
                        == phase_before(*expected, previous, k) by {
                        lemma_phase_before_prefix(*expected, previous, events, k);
                    }
                }
                assert forall|k: nat| 0 < k < events.len() implies #[trigger] answers(
                    action_at(*expected, events, (k - 1) as nat),
                    events[k as int],
                ) by {
                    lemma_phase_before_prefix(*expected, previous, events, (k - 1) as nat);
                    assert(events[k - 1] == previous[k - 1]);
                    assert(action_at(*expected, events, (k - 1) as nat) == action_at(*expected, previous, (k - 1) as nat));
                    if k < previous.len() {
                        assert(events[k as int] == previous[k as int]);
                        assert(answers(action_at(*expected, previous, (k - 1) as nat), previous[k as int]));
                    } else {
                        assert(events[k as int] == event);
                        assert(answers(action, event));
                    }
                }
            }
            phase = next_phase;
            action = next_action;
        }
        let outcome = match action {
            DispositionAction::Finish { outcome } => outcome,
            _ => DispositionOutcome::SourceUncertain,
        };
        DispositionReport {
            event_id,
            process_id: expected.process_id,
            started_at_ms: expected.started_at_ms,
            outcome,
        }
    }
}

/// `event` answers `action`: a look's result to a look, the close request to a close
/// request, the wait to a wait, a termination result to a termination.
pub open spec fn answers(action: DispositionAction, event: DispositionEvent) -> bool {
    match action {
        DispositionAction::Inspect { .. } => event is Inspected,
        DispositionAction::RequestClose { .. } => event is CloseRequested,
        DispositionAction::Wait => event is Waited,
        DispositionAction::Terminate { .. } => event is Terminated,
        DispositionAction::Finish { .. } => false,
    }
}

proof fn lemma_phase_before_prefix(
    expected: ProcessIdentity,
    shorter: Seq<DispositionEvent>,
    longer: Seq<DispositionEvent>,
    k: nat,
)
    requires
        k <= shorter.len() <= longer.len(),
        forall|i: int| 0 <= i < shorter.len() ==> shorter[i] == longer[i],
    ensures
        phase_before(expected, shorter, k) == phase_before(expected, longer, k),
    decreases k,
{
    if k > 0 {
        lemma_phase_before_prefix(expected, shorter, longer, (k - 1) as nat);
    }
}

/// Milliseconds between 1601-01-01 and 1970-01-01.
pub const WINDOWS_TO_UNIX_EPOCH_MS: u64 = 11_644_473_600_000;

/// The Unix time in milliseconds of a Windows file time given as its two halves; an error
/// where it lies before 1970.
pub fn filetime_to_unix_ms(low: u32, high: u32) -> (r: Result<i64, ProcessOperationError>)
    ensures
        ({
            let windows_ms = (high as int * 0x1_0000_0000 + low as int) / 10_000;
            match r {
                Ok(ms) => windows_ms >= WINDOWS_TO_UNIX_EPOCH_MS && ms == windows_ms
                    - WINDOWS_TO_UNIX_EPOCH_MS,
                Err(_) => windows_ms < WINDOWS_TO_UNIX_EPOCH_MS,
            }
        }),
{
    let ticks: u64 = (high as u64) * 0x1_0000_0000 + (low as u64);
    let windows_ms = ticks / 10_000;
    if windows_ms < WINDOWS_TO_UNIX_EPOCH_MS {
        return Err(ProcessOperationError);
    }
    let unix_ms = windows_ms - WINDOWS_TO_UNIX_EPOCH_MS;
    assert(unix_ms <= u64::MAX / 10_000);
    Ok(unix_ms as i64)
}

} // verus!
