use vstd::prelude::*;

verus! {

/// `a + b`, held at `u64::MAX`.
pub open spec fn saturated(a: int, b: int) -> u64 {
    if a + b > u64::MAX {
        u64::MAX
    } else {
        (a + b) as u64
    }
}

/// Counters of an inference engine; they hold no content.
#[derive(Debug, Clone, Copy, PartialEq, Eq, Structural)]
pub struct InferenceHealth {
    inferences: u64,
    failures: u64,
    total_latency_micros: u64,
    last_latency_micros: u64,
}

impl Default for InferenceHealth {
    fn default() -> (health: Self)
        ensures
            health.spec_inferences() == 0,
            health.spec_failures() == 0,
            health.spec_total_latency_micros() == 0,
            health.spec_last_latency_micros() == 0,
    {
        InferenceHealth { inferences: 0, failures: 0, total_latency_micros: 0, last_latency_micros: 0 }
    }
}

impl InferenceHealth {
    pub closed spec fn spec_inferences(self) -> u64 {
        self.inferences
    }

    pub closed spec fn spec_failures(self) -> u64 {
        self.failures
    }

    pub closed spec fn spec_total_latency_micros(self) -> u64 {
        self.total_latency_micros
    }

    pub closed spec fn spec_last_latency_micros(self) -> u64 {
        self.last_latency_micros
    }

    /// Successful inferences so far.
    pub fn inferences(self) -> (n: u64)
        ensures
            n == self.spec_inferences(),
    {
        self.inferences
    }

    /// Failed inferences so far.
    pub fn failures(self) -> (n: u64)
        ensures
            n == self.spec_failures(),
    {
        self.failures
    }

    /// The latency of all successful inferences together, in microseconds.
    pub fn total_latency_micros(self) -> (n: u64)
        ensures
            n == self.spec_total_latency_micros(),
    {
        self.total_latency_micros
    }

    /// The latency of the latest successful inference, in microseconds.
    pub fn last_latency_micros(self) -> (n: u64)
        ensures
            n == self.spec_last_latency_micros(),
    {
        self.last_latency_micros
    }

    /// Counts a success that took `latency_micros`; counters stop at their maximum.
    pub fn record_success(&mut self, latency_micros: u64)
        ensures
            final(self).spec_inferences() == saturated(old(self).spec_inferences() as int, 1),
            final(self).spec_failures() == old(self).spec_failures(),
            final(self).spec_total_latency_micros() == saturated(
                old(self).spec_total_latency_micros() as int,
                latency_micros as int,
            ),
            final(self).spec_last_latency_micros() == latency_micros,
    {
        self.inferences = self.inferences.saturating_add(1);
        self.total_latency_micros = self.total_latency_micros.saturating_add(latency_micros);
        self.last_latency_micros = latency_micros;
    }

    /// Counts a failure; the counter stops at its maximum.
    pub fn record_failure(&mut self)
        ensures
            final(self).spec_failures() == saturated(old(self).spec_failures() as int, 1),
            final(self).spec_inferences() == old(self).spec_inferences(),
            final(self).spec_total_latency_micros() == old(self).spec_total_latency_micros(),
            final(self).spec_last_latency_micros() == old(self).spec_last_latency_micros(),
    {
        self.failures = self.failures.saturating_add(1);
    }
}

/// Counters of an OCR engine; they hold no content.
#[derive(Debug, Clone, Copy, PartialEq, Eq, Structural)]
pub struct OcrInferenceHealth {
    inferences: u64,
    failures: u64,
    skipped_boxes: u64,
    resource_limit_events: u64,
    total_latency_micros: u64,
    last_latency_micros: u64,
}

impl Default for OcrInferenceHealth {
    fn default() -> (health: Self)
        ensures
            health.spec_inferences() == 0,
            health.spec_failures() == 0,
            health.spec_skipped_boxes() == 0,
            health.spec_resource_limit_events() == 0,
            health.spec_total_latency_micros() == 0,
            health.spec_last_latency_micros() == 0,
    {
        OcrInferenceHealth {
            inferences: 0,
            failures: 0,
            skipped_boxes: 0,
            resource_limit_events: 0,
            total_latency_micros: 0,
            last_latency_micros: 0,
        }
    }
}

impl OcrInferenceHealth {
    pub closed spec fn spec_inferences(self) -> u64 {
        self.inferences
    }

    pub closed spec fn spec_failures(self) -> u64 {
        self.failures
    }

    pub closed spec fn spec_skipped_boxes(self) -> u64 {
        self.skipped_boxes
    }

    pub closed spec fn spec_resource_limit_events(self) -> u64 {
        self.resource_limit_events
    }

    pub closed spec fn spec_total_latency_micros(self) -> u64 {
        self.total_latency_micros
    }

    pub closed spec fn spec_last_latency_micros(self) -> u64 {
        self.last_latency_micros
    }

    /// Successful OCR passes so far.
    pub fn inferences(self) -> (n: u64)
        ensures
            n == self.spec_inferences(),
    {
        self.inferences
    }

    /// Failed OCR passes so far.
    pub fn failures(self) -> (n: u64)
        ensures
            n == self.spec_failures(),
    {
        self.failures
    }

    /// Text boxes skipped so far.
    pub fn skipped_boxes(self) -> (n: u64)
        ensures
            n == self.spec_skipped_boxes(),
    {
        self.skipped_boxes
    }

    /// Passes that reached a resource limit.
    pub fn resource_limit_events(self) -> (n: u64)
        ensures
            n == self.spec_resource_limit_events(),
    {
        self.resource_limit_events
    }

    /// The latency of all successful passes together, in microseconds.
    pub fn total_latency_micros(self) -> (n: u64)
        ensures
            n == self.spec_total_latency_micros(),
    {
        self.total_latency_micros
    }

    /// The latency of the latest successful pass, in microseconds.
    pub fn last_latency_micros(self) -> (n: u64)
        ensures
            n == self.spec_last_latency_micros(),
    {
        self.last_latency_micros
    }

    /// Counts a successful pass; counters stop at their maximum.
    pub fn record_success(&mut self, latency_micros: u64, skipped_boxes: usize, resource_limit_reached: bool)
        ensures
            final(self).spec_inferences() == saturated(old(self).spec_inferences() as int, 1),
            final(self).spec_failures() == old(self).spec_failures(),
            final(self).spec_skipped_boxes() == saturated(
                old(self).spec_skipped_boxes() as int,
                if skipped_boxes > u64::MAX { u64::MAX as int } else { skipped_boxes as int },
            ),
            final(self).spec_resource_limit_events() == saturated(
                old(self).spec_resource_limit_events() as int,
                if resource_limit_reached { 1 } else { 0 },
            ),
            final(self).spec_total_latency_micros() == saturated(
                old(self).spec_total_latency_micros() as int,
                latency_micros as int,
            ),
            final(self).spec_last_latency_micros() == latency_micros,
    {
        self.inferences = self.inferences.saturating_add(1);
        let skipped: u64 = if skipped_boxes as u128 > u64::MAX as u128 {
            u64::MAX
        } else {
            skipped_boxes as u64
        };
        self.skipped_boxes = self.skipped_boxes.saturating_add(skipped);
        let limit: u64 = if resource_limit_reached { 1 } else { 0 };
        self.resource_limit_events = self.resource_limit_events.saturating_add(limit);
        self.total_latency_micros = self.total_latency_micros.saturating_add(latency_micros);
        self.last_latency_micros = latency_micros;
    }

    /// Counts a failed pass; the counter stops at its maximum.
    pub fn record_failure(&mut self)
        ensures
            final(self).spec_failures() == saturated(old(self).spec_failures() as int, 1),
            final(self).spec_inferences() == old(self).spec_inferences(),
            final(self).spec_skipped_boxes() == old(self).spec_skipped_boxes(),
            final(self).spec_resource_limit_events() == old(self).spec_resource_limit_events(),
            final(self).spec_total_latency_micros() == old(self).spec_total_latency_micros(),
            final(self).spec_last_latency_micros() == old(self).spec_last_latency_micros(),
    {
        self.failures = self.failures.saturating_add(1);
    }
}

/// After this many failures in a row an engine counts as unavailable.
pub const CONSECUTIVE_FAILURE_LIMIT: u8 = 3;

/// The run of failures after one more inference: a success ends it, a failure lengthens it
/// up to its maximum.
pub open spec fn after_outcome(consecutive_failures: u8, succeeded: bool) -> u8 {
    if succeeded {
        0
    } else if consecutive_failures == u8::MAX {
        u8::MAX
    } else {
        (consecutive_failures + 1) as u8
    }
}

/// The run of failures after a sequence of inferences (`true` for a success), starting from
/// `start`.
pub open spec fn failures_after(start: u8, outcomes: Seq<bool>) -> u8
    decreases outcomes.len(),
{
    if outcomes.len() == 0 {
        start
    } else {
        after_outcome(failures_after(start, outcomes.drop_last()), outcomes.last())
    }
}

/// How many inferences at the end of the sequence failed.
pub open spec fn trailing_failures(outcomes: Seq<bool>) -> nat
    decreases outcomes.len(),
{
    if outcomes.len() == 0 || outcomes.last() {
        0
    } else {
        trailing_failures(outcomes.drop_last()) + 1
    }
}

proof fn lemma_failures_count_trailing(outcomes: Seq<bool>)
    ensures
        failures_after(0, outcomes) == (if trailing_failures(outcomes) >= 255 {
            255
        } else {
            trailing_failures(outcomes)
        }),
    decreases outcomes.len(),
{
    if outcomes.len() > 0 {
        lemma_failures_count_trailing(outcomes.drop_last());
    }
}

/// An engine whose health starts fresh is unavailable after a sequence of inferences
/// exactly when the last three or more of them failed; a single success makes it
/// available again.
pub proof fn lemma_availability_follows_the_last_failures(outcomes: Seq<bool>)
    ensures
        (failures_after(0, outcomes) < CONSECUTIVE_FAILURE_LIMIT) <==> trailing_failures(outcomes) < 3,
        outcomes.len() > 0 && outcomes.last() ==> failures_after(0, outcomes) < CONSECUTIVE_FAILURE_LIMIT,
{
    lemma_failures_count_trailing(outcomes);
}

/// The health of one engine on one monitor: its counters, its run of failures and whether
/// it counts as unavailable.
pub struct InferenceHealthState {
    metrics: InferenceHealth,
    consecutive_failures: u8,
    unavailable: bool,
}

impl InferenceHealthState {
    /// The engine counts as unavailable exactly when its run of failures has reached the
    /// limit.
    #[verifier::type_invariant]
    closed spec fn consistent(self) -> bool {
        self.unavailable <==> self.consecutive_failures >= CONSECUTIVE_FAILURE_LIMIT
    }

    pub closed spec fn spec_metrics(self) -> InferenceHealth {
        self.metrics
    }

    pub closed spec fn spec_consecutive_failures(self) -> u8 {
        self.consecutive_failures
    }

    pub closed spec fn spec_available(self) -> bool {
        !self.unavailable
    }

    /// A healthy engine with no counts.
    pub fn new() -> (state: Self)
        ensures
            state.spec_metrics().spec_inferences() == 0,
            state.spec_metrics().spec_failures() == 0,
            state.spec_metrics().spec_total_latency_micros() == 0,
            state.spec_metrics().spec_last_latency_micros() == 0,
            state.spec_consecutive_failures() == 0,
            state.spec_available(),
    {
        InferenceHealthState { metrics: InferenceHealth::default(), consecutive_failures: 0, unavailable: false }
    }

    /// The counters.
    pub fn metrics(&self) -> (metrics: InferenceHealth)
        ensures
            metrics == self.spec_metrics(),
    {
        self.metrics
    }

    /// Whether the engine counts as available.
    pub fn is_available(&self) -> (available: bool)
        ensures
            available == self.spec_available(),
            available <==> self.spec_consecutive_failures() < CONSECUTIVE_FAILURE_LIMIT,
    {
        proof {
            use_type_invariant(self);
        }
        !self.unavailable
    }

    /// Records a successful inference: the run of failures ends and the engine is available.
    pub fn record_success(&mut self, latency_micros: u64)
        ensures
            final(self).spec_consecutive_failures() == 0,
            final(self).spec_consecutive_failures() == after_outcome(old(self).spec_consecutive_failures(), true),
            final(self).spec_available(),
            final(self).spec_metrics().spec_inferences() == saturated(
                old(self).spec_metrics().spec_inferences() as int,
                1,
            ),
            final(self).spec_metrics().spec_failures() == old(self).spec_metrics().spec_failures(),
            final(self).spec_metrics().spec_total_latency_micros() == saturated(
                old(self).spec_metrics().spec_total_latency_micros() as int,
                latency_micros as int,
            ),
            final(self).spec_metrics().spec_last_latency_micros() == latency_micros,
    {
        let mut metrics = self.metrics;
        metrics.record_success(latency_micros);
        *self = InferenceHealthState { metrics, consecutive_failures: 0, unavailable: false };
    }

    /// Records a failed inference: the run of failures grows, and at the limit the engine
    /// becomes unavailable.
    pub fn record_failure(&mut self)
        ensures
            final(self).spec_consecutive_failures() == (if old(self).spec_consecutive_failures() == u8::MAX {
                u8::MAX
            } else {
                (old(self).spec_consecutive_failures() + 1) as u8
            }),
            final(self).spec_consecutive_failures() == after_outcome(old(self).spec_consecutive_failures(), false),
            final(self).spec_available() <==> final(self).spec_consecutive_failures()
                < CONSECUTIVE_FAILURE_LIMIT,
            final(self).spec_metrics().spec_failures() == saturated(
                old(self).spec_metrics().spec_failures() as int,
                1,
            ),
            final(self).spec_metrics().spec_inferences() == old(self).spec_metrics().spec_inferences(),
            final(self).spec_metrics().spec_total_latency_micros() == old(
                self,
            ).spec_metrics().spec_total_latency_micros(),
            final(self).spec_metrics().spec_last_latency_micros() == old(
                self,
            ).spec_metrics().spec_last_latency_micros(),
    {
        let mut metrics = self.metrics;
        metrics.record_failure();
        let consecutive_failures = self.consecutive_failures.saturating_add(1);
        *self = InferenceHealthState {
            metrics,
            consecutive_failures,
            unavailable: consecutive_failures >= CONSECUTIVE_FAILURE_LIMIT,
        };
    }

    /// Records one inference that succeeded in `latency_micros` or failed: the run of
    /// failures follows `after_outcome`, so after a sequence of inferences on a fresh state
    /// it is `failures_after(0, ..)` of their outcomes.
    pub fn record_inference(&mut self, succeeded: bool, latency_micros: u64)
        ensures
            final(self).spec_consecutive_failures() == after_outcome(old(self).spec_consecutive_failures(), succeeded),
            final(self).spec_available() <==> final(self).spec_consecutive_failures() < CONSECUTIVE_FAILURE_LIMIT,
            final(self).spec_metrics().spec_inferences() == (if succeeded {
                saturated(old(self).spec_metrics().spec_inferences() as int, 1)
            } else {
                old(self).spec_metrics().spec_inferences()
            }),
            final(self).spec_metrics().spec_failures() == (if succeeded {
                old(self).spec_metrics().spec_failures()
            } else {
                saturated(old(self).spec_metrics().spec_failures() as int, 1)
            }),
            final(self).spec_metrics().spec_total_latency_micros() == (if succeeded {
                saturated(old(self).spec_metrics().spec_total_latency_micros() as int, latency_micros as int)
            } else {
                old(self).spec_metrics().spec_total_latency_micros()
            }),
            final(self).spec_metrics().spec_last_latency_micros() == (if succeeded {
                latency_micros
            } else {
                old(self).spec_metrics().spec_last_latency_micros()
            }),
    {
        if succeeded {
            self.record_success(latency_micros);
        } else {
            self.record_failure();
        }
    }

    /// Marks an engine that could not start as unavailable, without counting a failure.
    pub fn mark_unavailable(&mut self)
        ensures
            final(self).spec_consecutive_failures() == CONSECUTIVE_FAILURE_LIMIT,
            !final(self).spec_available(),
            final(self).spec_metrics() == old(self).spec_metrics(),
    {
        let metrics = self.metrics;
        *self = InferenceHealthState {
            metrics,
            consecutive_failures: CONSECUTIVE_FAILURE_LIMIT,
            unavailable: true,
        };
    }
}

impl Default for InferenceHealthState {
    fn default() -> (state: Self)
        ensures
            state.spec_consecutive_failures() == 0,
            state.spec_available(),
            state.spec_metrics().spec_inferences() == 0,
            state.spec_metrics().spec_failures() == 0,
            state.spec_metrics().spec_total_latency_micros() == 0,
            state.spec_metrics().spec_last_latency_micros() == 0,
    {
        InferenceHealthState::new()
    }
}

/// The health of one engine summed over the monitors.
#[derive(Debug, Clone, Copy, PartialEq, Eq, Structural)]
pub struct HealthTotals {
    pub inferences: u64,
    pub failures: u64,
    pub latency_micros: u64,
    pub unavailable_monitors: u64,
}

/// The totals over each monitor's counters and availability, each sum held at `u64::MAX`.
pub open spec fn health_totals(monitors: Seq<(InferenceHealth, bool)>) -> HealthTotals
    decreases monitors.len(),
{
    if monitors.len() == 0 {
        HealthTotals { inferences: 0, failures: 0, latency_micros: 0, unavailable_monitors: 0 }
    } else {
        let before = health_totals(monitors.drop_last());
        let (health, available) = monitors.last();
        HealthTotals {
            inferences: saturated(before.inferences as int, health.spec_inferences() as int),
            failures: saturated(before.failures as int, health.spec_failures() as int),
            latency_micros: saturated(before.latency_micros as int, health.spec_total_latency_micros() as int),
            unavailable_monitors: saturated(before.unavailable_monitors as int, if available {
                0
            } else {
                1
            }),
        }
    }
}

/// Sums each monitor's counters, and counts the monitors whose engine is unavailable; each
/// pair is a monitor's counters and whether its engine is available.
pub fn sum_health(monitors: &[(InferenceHealth, bool)]) -> (totals: HealthTotals)
    ensures
        totals == health_totals(monitors@),
{
    let mut totals = HealthTotals { inferences: 0, failures: 0, latency_micros: 0, unavailable_monitors: 0 };
    let mut i: usize = 0;
    while i < monitors.len()
        invariant
            i <= monitors@.len(),
            totals == health_totals(monitors@.take(i as int)),
        decreases monitors@.len() - i,
    {
        assert(monitors@.take(i + 1).drop_last() =~= monitors@.take(i as int));
        let (health, available) = monitors[i];
        totals = HealthTotals {
            inferences: totals.inferences.saturating_add(health.inferences()),
            failures: totals.failures.saturating_add(health.failures()),
            latency_micros: totals.latency_micros.saturating_add(health.total_latency_micros()),
            unavailable_monitors: totals.unavailable_monitors.saturating_add(if available {
                0
            } else {
                1
            }),
        };
        i = i + 1;
    }
    assert(monitors@.take(monitors@.len() as int) =~= monitors@);
    totals
}

/// The status word of an engine: `running` where it is available on every monitor,
/// `unavailable` otherwise.
pub fn engine_status_word(unavailable_monitors: u64) -> (word: &'static str)
    ensures
        word@ == (if unavailable_monitors == 0 {
            "running"@
        } else {
            "unavailable"@
        }),
{
    if unavailable_monitors == 0 {
        "running"
    } else {
        "unavailable"
    }
}

/// Why an inference engine could not run, as a stable code.
#[derive(Debug, Clone, Copy, PartialEq, Eq, Structural)]
pub enum InferenceErrorKind {
    ManifestInvalid,
    ModelMissing,
    ModelHashMismatch,
    RuntimeInitialization,
    ModelContractMismatch,
    InputPreparation,
    InferenceFailed,
    OutputInvalid,
    OcrContractInvalid,
    OcrLicenseInvalid,
    OcrAssetMissing,
    OcrAssetHashMismatch,
    OcrDictionaryInvalid,
    OcrReferenceInvalid,
}

/// The stable code of each kind.
pub open spec fn kind_code(kind: InferenceErrorKind) -> Seq<char> {
    match kind {
        InferenceErrorKind::ManifestInvalid => "manifest_invalid"@,
        InferenceErrorKind::ModelMissing => "model_missing"@,
        InferenceErrorKind::ModelHashMismatch => "model_hash_mismatch"@,
        InferenceErrorKind::RuntimeInitialization => "runtime_initialization"@,
        InferenceErrorKind::ModelContractMismatch => "model_contract_mismatch"@,
        InferenceErrorKind::InputPreparation => "input_preparation"@,
        InferenceErrorKind::InferenceFailed => "inference_failed"@,
        InferenceErrorKind::OutputInvalid => "output_invalid"@,
        InferenceErrorKind::OcrContractInvalid => "ocr_contract_invalid"@,
        InferenceErrorKind::OcrLicenseInvalid => "ocr_license_invalid"@,
        InferenceErrorKind::OcrAssetMissing => "ocr_asset_missing"@,
        InferenceErrorKind::OcrAssetHashMismatch => "ocr_asset_hash_mismatch"@,
        InferenceErrorKind::OcrDictionaryInvalid => "ocr_dictionary_invalid"@,
        InferenceErrorKind::OcrReferenceInvalid => "ocr_reference_invalid"@,
    }
}

impl InferenceErrorKind {
    /// The stable code of this kind, as it appears in status lines.
    pub fn code(&self) -> (code: &'static str)
        ensures
            code@ == kind_code(*self),
    {
        match self {
            InferenceErrorKind::ManifestInvalid => "manifest_invalid",
            InferenceErrorKind::ModelMissing => "model_missing",
            InferenceErrorKind::ModelHashMismatch => "model_hash_mismatch",
            InferenceErrorKind::RuntimeInitialization => "runtime_initialization",
            InferenceErrorKind::ModelContractMismatch => "model_contract_mismatch",
            InferenceErrorKind::InputPreparation => "input_preparation",
            InferenceErrorKind::InferenceFailed => "inference_failed",
            InferenceErrorKind::OutputInvalid => "output_invalid",
            InferenceErrorKind::OcrContractInvalid => "ocr_contract_invalid",
            InferenceErrorKind::OcrLicenseInvalid => "ocr_license_invalid",
            InferenceErrorKind::OcrAssetMissing => "ocr_asset_missing",
            InferenceErrorKind::OcrAssetHashMismatch => "ocr_asset_hash_mismatch",
            InferenceErrorKind::OcrDictionaryInvalid => "ocr_dictionary_invalid",
            InferenceErrorKind::OcrReferenceInvalid => "ocr_reference_invalid",
        }
    }
}

/// An inference failure; it carries only its kind.
#[derive(Debug, Clone, PartialEq, Eq, Structural)]
pub struct InferenceError {
    kind: InferenceErrorKind,
}

impl InferenceError {
    pub closed spec fn spec_kind(self) -> InferenceErrorKind {
        self.kind
    }

    /// An error of `kind`.
    pub fn new(kind: InferenceErrorKind) -> (error: Self)
        ensures
            error.spec_kind() == kind,
    {
        InferenceError { kind }
    }

    /// The kind of this error.
    pub fn kind(&self) -> (kind: InferenceErrorKind)
        ensures
            kind == self.spec_kind(),
    {
        self.kind
    }
}

} // verus!
