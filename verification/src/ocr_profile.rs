use vstd::prelude::*;

use crate::ocr_contract::OcrModelProfile;
use crate::text::str_eq;

verus! {

// ---------------------------------------------------------------------------
// Preference.
// ---------------------------------------------------------------------------

/// Which OCR profile the user asked for.
#[derive(Debug, Clone, Copy, PartialEq, Eq, Structural)]
pub enum OcrProfilePreference {
    Auto,
    Lightweight,
    Accurate,
}

/// A preference that is not one of the documented words.
#[derive(Debug, Clone, Copy, PartialEq, Eq, Structural)]
pub struct OcrProfilePreferenceParseError;

impl OcrProfilePreferenceParseError {
    /// The message shown for this error.
    pub fn message(&self) -> (message: &'static str)
        ensures
            message@ == "invalid OCR profile preference"@,
    {
        "invalid OCR profile preference"
    }
}

/// The preference a word names: exactly `auto`, `lightweight` or `accurate`.
pub open spec fn preference_named(value: Seq<char>) -> Option<OcrProfilePreference> {
    if value == "auto"@ {
        Some(OcrProfilePreference::Auto)
    } else if value == "lightweight"@ {
        Some(OcrProfilePreference::Lightweight)
    } else if value == "accurate"@ {
        Some(OcrProfilePreference::Accurate)
    } else {
        None
    }
}

impl OcrProfilePreference {
    /// Reads a preference from its word; nothing else is accepted, not even another case
    /// or surrounding spaces.
    pub fn parse(value: &str) -> (r: Result<Self, OcrProfilePreferenceParseError>)
        ensures
            match preference_named(value@) {
                Some(p) => r == Ok::<OcrProfilePreference, OcrProfilePreferenceParseError>(p),
                None => r == Err::<OcrProfilePreference, OcrProfilePreferenceParseError>(
                    OcrProfilePreferenceParseError,
                ),
            },
    {
        if str_eq(value, "auto") {
            Ok(OcrProfilePreference::Auto)
        } else if str_eq(value, "lightweight") {
            Ok(OcrProfilePreference::Lightweight)
        } else if str_eq(value, "accurate") {
            Ok(OcrProfilePreference::Accurate)
        } else {
            Err(OcrProfilePreferenceParseError)
        }
    }
}

impl core::str::FromStr for OcrProfilePreference {
    type Err = OcrProfilePreferenceParseError;

    fn from_str(value: &str) -> (r: Result<Self, Self::Err>)
        ensures
            match preference_named(value@) {
                Some(p) => r == Ok::<OcrProfilePreference, OcrProfilePreferenceParseError>(p),
                None => r == Err::<OcrProfilePreference, OcrProfilePreferenceParseError>(
                    OcrProfilePreferenceParseError,
                ),
            },
    {
        OcrProfilePreference::parse(value)
    }
}

// ---------------------------------------------------------------------------
// Runtime configuration.
// ---------------------------------------------------------------------------

/// Where the OCR bundles are and which profile runs at first.
#[derive(Debug, Clone, PartialEq, Eq)]
pub struct OcrRuntimeConfig {
    pub lightweight_manifest: String,
    pub accurate_manifest: Option<String>,
    pub profile: OcrModelProfile,
    pub preference: OcrProfilePreference,
}

/// Why the OCR configuration was refused.
#[derive(Debug, Clone, Copy, PartialEq, Eq, Structural)]
pub enum OcrRuntimeConfigError {
    MissingLightweightManifest,
    InvalidProfile,
}

/// A setting that is present and not empty.
pub open spec fn given(value: Option<&str>) -> bool {
    value matches Some(v) && v@.len() > 0
}

/// The profile that runs first for a preference: the accurate one only where it was asked
/// for.
pub open spec fn initial_profile(preference: OcrProfilePreference) -> OcrModelProfile {
    if preference == OcrProfilePreference::Accurate {
        OcrModelProfile::Accurate
    } else {
        OcrModelProfile::Lightweight
    }
}

/// The verdict on the three settings: the lightweight manifest is required, and a profile,
/// where given, must be a documented word (by default `auto`).
pub open spec fn config_verdict(
    lightweight_manifest: Option<&str>,
    profile: Option<&str>,
) -> Result<OcrProfilePreference, OcrRuntimeConfigError> {
    if !given(lightweight_manifest) {
        Err(OcrRuntimeConfigError::MissingLightweightManifest)
    } else {
        match profile {
            None => Ok(OcrProfilePreference::Auto),
            Some(value) => match preference_named(value@) {
                Some(p) => Ok(p),
                None => Err(OcrRuntimeConfigError::InvalidProfile),
            },
        }
    }
}

fn non_empty(value: Option<&str>) -> (r: Option<String>)
    ensures
        match r {
            Some(s) => given(value) && s@ == value->0@,
            None => !given(value),
        },
{
    match value {
        Some(v) => if v.is_empty() {
            None
        } else {
            Some(v.to_owned())
        },
        None => None,
    }
}

impl OcrRuntimeConfig {
    /// Reads the configuration from its three settings; empty settings count as absent.
    pub fn from_values(
        lightweight_manifest: Option<&str>,
        accurate_manifest: Option<&str>,
        profile: Option<&str>,
    ) -> (r: Result<Self, OcrRuntimeConfigError>)
        ensures
            match config_verdict(lightweight_manifest, profile) {
                Err(e) => r == Err::<OcrRuntimeConfig, OcrRuntimeConfigError>(e),
                Ok(preference) => r matches Ok(config) && {
                    &&& config.lightweight_manifest@ == lightweight_manifest->0@
                    &&& (config.accurate_manifest matches Some(a) ==> given(accurate_manifest)
                        && a@ == accurate_manifest->0@)
                    &&& (config.accurate_manifest is None ==> !given(accurate_manifest))
                    &&& config.preference == preference
                    &&& config.profile == initial_profile(preference)
                },
            },
    {
        let lightweight = match non_empty(lightweight_manifest) {
            Some(path) => path,
            None => return Err(OcrRuntimeConfigError::MissingLightweightManifest),
        };
        let preference = match profile {
            Some(value) => match OcrProfilePreference::parse(value) {
                Ok(p) => p,
                Err(_) => return Err(OcrRuntimeConfigError::InvalidProfile),
            },
            None => OcrProfilePreference::Auto,
        };
        let initial = match preference {
            OcrProfilePreference::Accurate => OcrModelProfile::Accurate,
            OcrProfilePreference::Auto | OcrProfilePreference::Lightweight => OcrModelProfile::Lightweight,
        };
        Ok(OcrRuntimeConfig {
            lightweight_manifest: lightweight,
            accurate_manifest: non_empty(accurate_manifest),
            profile: initial,
            preference,
        })
    }
}

// ---------------------------------------------------------------------------
// Preflight.
// ---------------------------------------------------------------------------

/// The state capture starts in: a validated OCR bundle, or OCR unavailable with the
/// validation error, if validation ran.
pub enum OcrPreflight<T, E> {
    Ready(T),
    Unavailable(Option<E>),
}

impl<T, E> OcrPreflight<T, E> {
    /// The validated bundle, if any.
    pub fn bundle(&self) -> (bundle: Option<&T>)
        ensures
            match self {
                OcrPreflight::Ready(b) => bundle == Some(b),
                OcrPreflight::Unavailable(_) => bundle is None,
            },
    {
        match self {
            OcrPreflight::Ready(b) => Some(b),
            OcrPreflight::Unavailable(_) => None,
        }
    }

    /// The validation error, if validation ran and failed.
    pub fn error(&self) -> (error: Option<&E>)
        ensures
            match self {
                OcrPreflight::Unavailable(Some(e)) => error == Some(e),
                _ => error is None,
            },
    {
        match self {
            OcrPreflight::Ready(_) => None,
            OcrPreflight::Unavailable(None) => None,
            OcrPreflight::Unavailable(Some(e)) => Some(e),
        }
    }

    /// The validated bundle, if any, taken out.
    pub fn into_bundle(self) -> (bundle: Option<T>)
        ensures
            match self {
                OcrPreflight::Ready(b) => bundle == Some(b),
                OcrPreflight::Unavailable(_) => bundle is None,
            },
    {
        match self {
            OcrPreflight::Ready(b) => Some(b),
            OcrPreflight::Unavailable(_) => None,
        }
    }
}

/// The preflight state for a candidate and the result of validating it.
pub open spec fn preflight_of<T, E>(candidate: T, validated: Result<(), E>) -> OcrPreflight<T, E> {
    match validated {
        Ok(()) => OcrPreflight::Ready(candidate),
        Err(e) => OcrPreflight::Unavailable(Some(e)),
    }
}

/// Validates the OCR candidate, if there is one, and only then starts capture, handing it
/// the resulting state: capture cannot start before validation has finished.
pub fn start_after_ocr_preflight<T, E, R, V, S>(candidate: Option<T>, validate: V, start_capture: S) -> (r: R)
    where
        V: FnOnce(&T) -> Result<(), E>,
        S: FnOnce(OcrPreflight<T, E>) -> R,
    requires
        forall|c: &T| #[trigger] validate.requires((c,)),
        forall|p: OcrPreflight<T, E>| #[trigger] start_capture.requires((p,)),
    ensures
        exists|p: OcrPreflight<T, E>|
            #[trigger] start_capture.ensures((p,), r) && match candidate {
                None => p == OcrPreflight::<T, E>::Unavailable(None),
                Some(c) => exists|v: Result<(), E>| #[trigger]
                    validate.ensures((&c,), v) && p == preflight_of(c, v),
            },
{
    let preflight = match candidate {
        Some(c) => {
            let validated = validate(&c);
            match validated {
                Ok(()) => OcrPreflight::Ready(c),
                Err(e) => OcrPreflight::Unavailable(Some(e)),
            }
        },
        None => OcrPreflight::Unavailable(None),
    };
    start_capture(preflight)
}

// ---------------------------------------------------------------------------
// Status lines.
// ---------------------------------------------------------------------------

/// The character of a decimal digit.
pub open spec fn digit_char(d: int) -> char {
    if d == 0 { '0' } else if d == 1 { '1' } else if d == 2 { '2' } else if d == 3 { '3' } else if d
        == 4 { '4' } else if d == 5 { '5' } else if d == 6 { '6' } else if d == 7 { '7' } else if d
        == 8 { '8' } else { '9' }
}

/// The decimal digits of `n`, without leading zeros.
pub open spec fn decimal(n: nat) -> Seq<char>
    decreases n,
{
    if n < 10 {
        seq![digit_char(n as int)]
    } else {
        decimal(n / 10).push(digit_char((n % 10) as int))
    }
}

fn digit_str(d: u64) -> (s: &'static str)
    requires
        d < 10,
    ensures
        s@ == seq![digit_char(d as int)],
{
    proof {
        reveal_strlit("0");
        reveal_strlit("1");
        reveal_strlit("2");
        reveal_strlit("3");
        reveal_strlit("4");
        reveal_strlit("5");
        reveal_strlit("6");
        reveal_strlit("7");
        reveal_strlit("8");
        reveal_strlit("9");
    }
    if d == 0 { "0" } else if d == 1 { "1" } else if d == 2 { "2" } else if d == 3 { "3" } else if d
        == 4 { "4" } else if d == 5 { "5" } else if d == 6 { "6" } else if d == 7 { "7" } else if d
        == 8 { "8" } else { "9" }
}

/// `n` written in decimal.
pub fn decimal_string(n: u64) -> (s: String)
    ensures
        s@ == decimal(n as nat),
    decreases n,
{
    if n < 10 {
        String::from_str(digit_str(n))
    } else {
        let mut s = decimal_string(n / 10);
        s.append(digit_str(n % 10));
        s
    }
}

/// The health line of one component.
pub open spec fn status_line(
    component: Seq<char>,
    status: Seq<char>,
    inferences: u64,
    failures: u64,
    latency_micros: u64,
    unavailable_monitors: u64,
) -> Seq<char> {
    "status="@ + status + " component="@ + component + " inferences="@ + decimal(inferences as nat)
        + " failures="@ + decimal(failures as nat) + " latency_total_us="@ + decimal(
        latency_micros as nat,
    ) + " unavailable_monitors="@ + decimal(unavailable_monitors as nat)
}

/// The one-line health report of a component: its status, its name and its counters.
pub fn health_status_line(
    component: &str,
    status: &str,
    inferences: u64,
    failures: u64,
    latency_micros: u64,
    unavailable_monitors: u64,
) -> (line: String)
    ensures
        line@ == status_line(component@, status@, inferences, failures, latency_micros, unavailable_monitors),
{
    let mut line = String::from_str("status=");
    line.append(status);
    line.append(" component=");
    line.append(component);
    line.append(" inferences=");
    line.append(decimal_string(inferences).as_str());
    line.append(" failures=");
    line.append(decimal_string(failures).as_str());
    line.append(" latency_total_us=");
    line.append(decimal_string(latency_micros).as_str());
    line.append(" unavailable_monitors=");
    line.append(decimal_string(unavailable_monitors).as_str());
    line
}

/// No character of `s` is a backslash or a line break.
pub open spec fn plain_line(s: Seq<char>) -> bool {
    forall|i: int| 0 <= i < s.len() ==> #[trigger] s[i] != '\\' && s[i] != '\n' && s[i] != '\r'
}

proof fn lemma_decimal_is_plain(n: nat)
    ensures
        plain_line(decimal(n)),
    decreases n,
{
    if n >= 10 {
        lemma_decimal_is_plain(n / 10);
    }
}

proof fn lemma_plain_concat(a: Seq<char>, b: Seq<char>)
    requires
        plain_line(a),
        plain_line(b),
    ensures
        plain_line(a + b),
{
    assert forall|i: int| 0 <= i < (a + b).len() implies #[trigger] (a + b)[i] != '\\' && (a
        + b)[i] != '\n' && (a + b)[i] != '\r' by {
        if i < a.len() {
            assert((a + b)[i] == a[i]);
        } else {
            assert((a + b)[i] == b[i - a.len()]);
        }
    }
}

/// A health line is a single line without escape markers wherever the component's name
/// and status are.
pub proof fn lemma_status_line_is_single_line(
    component: Seq<char>,
    status: Seq<char>,
    inferences: u64,
    failures: u64,
    latency_micros: u64,
    unavailable_monitors: u64,
)
    requires
        plain_line(component),
        plain_line(status),
    ensures
        plain_line(status_line(component, status, inferences, failures, latency_micros, unavailable_monitors)),
{
    reveal_strlit("status=");
    reveal_strlit(" component=");
    reveal_strlit(" inferences=");
    reveal_strlit(" failures=");
    reveal_strlit(" latency_total_us=");
    reveal_strlit(" unavailable_monitors=");
    lemma_decimal_is_plain(inferences as nat);
    lemma_decimal_is_plain(failures as nat);
    lemma_decimal_is_plain(latency_micros as nat);
    lemma_decimal_is_plain(unavailable_monitors as nat);
    let s1 = "status="@ + status;
    lemma_plain_concat("status="@, status);
    let s2 = s1 + " component="@;
    lemma_plain_concat(s1, " component="@);
    let s3 = s2 + component;
    lemma_plain_concat(s2, component);
    let s4 = s3 + " inferences="@;
    lemma_plain_concat(s3, " inferences="@);
    let s5 = s4 + decimal(inferences as nat);
    lemma_plain_concat(s4, decimal(inferences as nat));
    let s6 = s5 + " failures="@;
    lemma_plain_concat(s5, " failures="@);
    let s7 = s6 + decimal(failures as nat);
    lemma_plain_concat(s6, decimal(failures as nat));
    let s8 = s7 + " latency_total_us="@;
    lemma_plain_concat(s7, " latency_total_us="@);
    let s9 = s8 + decimal(latency_micros as nat);
    lemma_plain_concat(s8, decimal(latency_micros as nat));
    let s10 = s9 + " unavailable_monitors="@;
    lemma_plain_concat(s9, " unavailable_monitors="@);
    lemma_plain_concat(s10, decimal(unavailable_monitors as nat));
}

/// The warning printed where the accurate profile was chosen over its performance budget.
pub open spec fn performance_warning_text() -> Seq<char> {
    "status=warning component=ocr_profile profile=accurate reason=performance_budget_exceeded"@
}

/// The warning to print, if the chosen profile is over its performance budget.
pub fn ocr_performance_warning(performance_budget_exceeded: bool) -> (warning: Option<&'static str>)
    ensures
        match warning {
            Some(w) => performance_budget_exceeded && w@ == performance_warning_text(),
            None => !performance_budget_exceeded,
        },
{
    if performance_budget_exceeded {
        Some("status=warning component=ocr_profile profile=accurate reason=performance_budget_exceeded")
    } else {
        None
    }
}

// ---------------------------------------------------------------------------
// Profile selection.
// ---------------------------------------------------------------------------

/// Classifications run and discarded before the measured ones.
pub const BENCHMARK_WARMUPS: usize = 3;

/// Measured classifications.
pub const BENCHMARK_ITERATIONS: usize = 10;

/// The slowest measured classification the accurate profile may take, in milliseconds.
pub const PERFORMANCE_BUDGET_MILLIS: u64 = 800;

/// The largest benchmark cache file that is read.
pub const MAX_CACHE_BYTES: u64 = 16_384;

/// The strings the benchmark frame shows; nothing else is rendered or matched.
pub const APPROVED_BENCHMARK_STRINGS: [&'static str; 5] = ["System Status", "Ready", "简体中文", "繁體中文", "English"];

/// What a saved benchmark was measured on; a saved result counts only for the same key.
#[derive(Debug, Clone, PartialEq, Eq)]
pub struct BenchmarkKey {
    pub profile: OcrModelProfile,
    pub bundle_version: String,
    pub cpu_architecture: String,
    pub logical_cpu_cores: usize,
    pub active_display_count: usize,
}

/// How the accurate profile fared in the benchmark.
#[derive(Debug, Clone, Copy, PartialEq, Eq, Structural)]
pub struct BenchmarkResult {
    pub p95_millis: u64,
    pub success: bool,
    pub resource_limit_reached: bool,
    pub reference_summary_matches: bool,
    pub performance_budget_exceeded: bool,
}

/// The benchmark admits the accurate profile on an automatic choice: every run succeeded,
/// no resource limit was reached, the output matched the reference and the budget held.
pub open spec fn admits_automatic(b: BenchmarkResult) -> bool {
    b.success && !b.resource_limit_reached && b.reference_summary_matches && !b.performance_budget_exceeded
}

/// The benchmark admits the accurate profile where the user asked for it: as on an
/// automatic choice, except that the budget may be exceeded.
pub open spec fn admits_explicit(b: BenchmarkResult) -> bool {
    b.success && !b.resource_limit_reached && b.reference_summary_matches
}

impl BenchmarkResult {
    /// Whether an automatic choice may take the accurate profile.
    pub fn accepts_automatic_selection(self) -> (accepts: bool)
        ensures
            accepts == admits_automatic(self),
    {
        self.success && !self.resource_limit_reached && self.reference_summary_matches
            && !self.performance_budget_exceeded
    }

    /// Whether an explicit request may take the accurate profile.
    pub fn accepts_explicit_accurate_selection(self) -> (accepts: bool)
        ensures
            accepts == admits_explicit(self),
    {
        self.success && !self.resource_limit_reached && self.reference_summary_matches
    }
}

/// The largest of the durations.
pub open spec fn slowest(durations: Seq<u64>) -> u64
    decreases durations.len(),
{
    if durations.len() == 0 {
        0
    } else {
        let rest = slowest(durations.drop_last());
        if durations.last() > rest {
            durations.last()
        } else {
            rest
        }
    }
}

proof fn lemma_slowest_bounds(durations: Seq<u64>)
    ensures
        forall|i: int| 0 <= i < durations.len() ==> durations[i] <= slowest(durations),
        durations.len() > 0 ==> exists|i: int| 0 <= i < durations.len() && durations[i] == slowest(durations),
    decreases durations.len(),
{
    if durations.len() > 0 {
        lemma_slowest_bounds(durations.drop_last());
        let last = durations.len() - 1;
        if slowest(durations) == durations[last] {
            assert(durations[last] == slowest(durations));
        } else {
            let i = choose|i: int| 0 <= i < durations.drop_last().len() && durations.drop_last()[i] == slowest(durations.drop_last());
            assert(durations[i] == slowest(durations));
        }
        assert forall|i: int| 0 <= i < durations.len() implies durations[i] <= slowest(durations) by {
            if i < durations.len() - 1 {
                assert(durations.drop_last()[i] == durations[i]);
            }
        }
    }
}

/// What one timed benchmark run showed: its duration, whether the engine succeeded, whether
/// the engine's resource-limit count grew during it, and whether the factory matched its
/// output against the reference (only meaningful for a run that succeeded).
#[derive(Debug, Clone, Copy, PartialEq, Eq, Structural)]
pub struct BenchmarkRun {
    pub millis: u64,
    pub succeeded: bool,
    pub limit_grew: bool,
    pub summary_matched: bool,
}

/// The durations of the runs.
pub open spec fn run_millis(runs: Seq<BenchmarkRun>) -> Seq<u64> {
    runs.map_values(|r: BenchmarkRun| r.millis)
}

/// The benchmark result of warm-up outcomes, whether the resource-limit count grew over the
/// warm-ups, and the timed runs: success iff every warm-up and every run succeeded, the limit
/// reached iff the count grew over the warm-ups or during some run, the reference matched iff
/// every succeeded run matched, and the 95th percentile the slowest run.
pub open spec fn benchmark_of(warmups: Seq<bool>, warmup_limit_grew: bool, runs: Seq<BenchmarkRun>) -> BenchmarkResult {
    let p95 = slowest(run_millis(runs));
    BenchmarkResult {
        p95_millis: p95,
        success: (forall|i: int| 0 <= i < warmups.len() ==> #[trigger] warmups[i]) && (forall|i: int|
            0 <= i < runs.len() ==> (#[trigger] runs[i]).succeeded),
        resource_limit_reached: warmup_limit_grew || (exists|i: int|
            0 <= i < runs.len() && (#[trigger] runs[i]).limit_grew),
        reference_summary_matches: forall|i: int|
            0 <= i < runs.len() && (#[trigger] runs[i]).succeeded ==> runs[i].summary_matched,
        performance_budget_exceeded: p95 > PERFORMANCE_BUDGET_MILLIS,
    }
}

/// The benchmark result of what the warm-ups and the timed runs showed.
pub fn benchmark_from_runs(warmups: &[bool], warmup_limit_grew: bool, runs: &[BenchmarkRun]) -> (result:
    BenchmarkResult)
    ensures
        result == benchmark_of(warmups@, warmup_limit_grew, runs@),
{
    let mut success = true;
    let mut i: usize = 0;
    while i < warmups.len()
        invariant
            i <= warmups@.len(),
            success == (forall|k: int| 0 <= k < i ==> #[trigger] warmups@[k]),
        decreases warmups@.len() - i,
    {
        success = success && warmups[i];
        i = i + 1;
    }
    let mut limit = warmup_limit_grew;
    let mut matched = true;
    let mut durations: Vec<u64> = Vec::new();
    let mut j: usize = 0;
    while j < runs.len()
        invariant
            j <= runs@.len(),
            success == ((forall|k: int| 0 <= k < warmups@.len() ==> #[trigger] warmups@[k]) && (forall|k: int|
                0 <= k < j ==> (#[trigger] runs@[k]).succeeded)),
            limit == (warmup_limit_grew || (exists|k: int| 0 <= k < j && (#[trigger] runs@[k]).limit_grew)),
            matched == (forall|k: int| 0 <= k < j && (#[trigger] runs@[k]).succeeded ==> runs@[k].summary_matched),
            durations@ == run_millis(runs@.take(j as int)),
        decreases runs@.len() - j,
    {
        let run = runs[j];
        success = success && run.succeeded;
        limit = limit || run.limit_grew;
        if run.succeeded {
            matched = matched && run.summary_matched;
        }
        durations.push(run.millis);
        proof {
            assert(runs@.take(j + 1) =~= runs@.take(j as int).push(run));
            assert(run_millis(runs@.take(j + 1)) =~= run_millis(runs@.take(j as int)).push(run.millis));
            if limit && !warmup_limit_grew && !run.limit_grew {
                let k = choose|k: int| 0 <= k < j && (#[trigger] runs@[k]).limit_grew;
                assert(0 <= k < j + 1 && runs@[k].limit_grew);
            }
            if run.limit_grew {
                assert(runs@[j as int].limit_grew);
            }
        }
        j = j + 1;
    }
    assert(runs@.take(runs@.len() as int) =~= runs@);
    let result = benchmark_result(durations.as_slice(), success, limit, matched);
    result
}

/// The benchmark result for measured durations: the 95th percentile of ten samples is the
/// slowest of them, and the budget is exceeded where it lies above the budget.
pub fn benchmark_result(
    durations: &[u64],
    success: bool,
    resource_limit_reached: bool,
    reference_summary_matches: bool,
) -> (result: BenchmarkResult)
    ensures
        result.p95_millis == slowest(durations@),
        durations@.len() > 0 ==> exists|i: int| 0 <= i < durations@.len() && durations@[i] == result.p95_millis,
        forall|i: int| 0 <= i < durations@.len() ==> durations@[i] <= result.p95_millis,
        result.success == success,
        result.resource_limit_reached == resource_limit_reached,
        result.reference_summary_matches == reference_summary_matches,
        result.performance_budget_exceeded == (result.p95_millis > PERFORMANCE_BUDGET_MILLIS),
{
    let mut p95: u64 = 0;
    let mut i: usize = 0;
    while i < durations.len()
        invariant
            i <= durations@.len(),
            p95 == slowest(durations@.take(i as int)),
        decreases durations@.len() - i,
    {
        assert(durations@.take(i + 1).drop_last() =~= durations@.take(i as int));
        if durations[i] > p95 {
            p95 = durations[i];
        }
        i = i + 1;
    }
    assert(durations@.take(durations@.len() as int) =~= durations@);
    proof {
        lemma_slowest_bounds(durations@);
    }
    BenchmarkResult {
        p95_millis: p95,
        success,
        resource_limit_reached,
        reference_summary_matches,
        performance_budget_exceeded: p95 > PERFORMANCE_BUDGET_MILLIS,
    }
}

/// The profile chosen, whether the accurate bundle should be downloaded, whether the budget
/// is exceeded, and the benchmark it was chosen on.
#[derive(Debug, Clone, Copy, PartialEq, Eq, Structural)]
pub struct ProfileSelection {
    pub profile: OcrModelProfile,
    pub download_required: bool,
    pub performance_budget_exceeded: bool,
    pub benchmark: Option<BenchmarkResult>,
}

/// The lightweight profile, within its budget.
pub open spec fn lightweight(download_required: bool, benchmark: Option<BenchmarkResult>) -> ProfileSelection {
    ProfileSelection {
        profile: OcrModelProfile::Lightweight,
        download_required,
        performance_budget_exceeded: false,
        benchmark,
    }
}

/// Selects the lightweight profile.
pub fn lightweight_selection(download_required: bool, benchmark: Option<BenchmarkResult>) -> (selection:
    ProfileSelection)
    ensures
        selection == lightweight(download_required, benchmark),
{
    ProfileSelection {
        profile: OcrModelProfile::Lightweight,
        download_required,
        performance_budget_exceeded: false,
        benchmark,
    }
}

/// What the accurate candidate turned out to be.
pub enum AccurateCandidate<E> {
    Ready(E),
    Missing,
    Rejected,
}

/// The selection that a preference settles alone: the lightweight profile where it was asked
/// for; otherwise none, and the accurate candidate must be looked at.
pub fn preference_selection(preference: OcrProfilePreference) -> (selection: Option<ProfileSelection>)
    ensures
        match selection {
            Some(s) => preference == OcrProfilePreference::Lightweight && s == lightweight(false, None),
            None => preference != OcrProfilePreference::Lightweight,
        },
{
    if preference == OcrProfilePreference::Lightweight {
        Some(lightweight_selection(false, None))
    } else {
        None
    }
}

/// The selection where the accurate candidate cannot run: the lightweight profile, with a
/// download requested only where the accurate profile was asked for and is missing.
pub fn unavailable_candidate_selection(preference: OcrProfilePreference, missing: bool) -> (selection:
    ProfileSelection)
    ensures
        selection == lightweight(missing && preference == OcrProfilePreference::Accurate, None),
{
    lightweight_selection(missing && preference == OcrProfilePreference::Accurate, None)
}

/// The profile a benchmark gives for a preference that is not the lightweight one.
pub open spec fn benchmarked_profile(preference: OcrProfilePreference, b: BenchmarkResult) -> OcrModelProfile {
    if (preference == OcrProfilePreference::Auto && admits_automatic(b)) || (preference
        == OcrProfilePreference::Accurate && admits_explicit(b)) {
        OcrModelProfile::Accurate
    } else {
        OcrModelProfile::Lightweight
    }
}

/// The selection after a benchmark: the accurate profile where the benchmark admits it for
/// the preference, the lightweight one otherwise; the budget counts as exceeded only for the
/// accurate profile.
pub fn benchmarked_selection(preference: OcrProfilePreference, benchmark: BenchmarkResult) -> (selection:
    ProfileSelection)
    requires
        preference != OcrProfilePreference::Lightweight,
    ensures
        selection.profile == benchmarked_profile(preference, benchmark),
        !selection.download_required,
        selection.performance_budget_exceeded == (selection.profile == OcrModelProfile::Accurate
            && benchmark.performance_budget_exceeded),
        selection.benchmark == Some(benchmark),
{
    let accurate = match preference {
        OcrProfilePreference::Auto => benchmark.accepts_automatic_selection(),
        OcrProfilePreference::Accurate => benchmark.accepts_explicit_accurate_selection(),
        OcrProfilePreference::Lightweight => false,
    };
    let profile = if accurate {
        OcrModelProfile::Accurate
    } else {
        OcrModelProfile::Lightweight
    };
    ProfileSelection {
        profile,
        download_required: false,
        performance_budget_exceeded: accurate && benchmark.performance_budget_exceeded,
        benchmark: Some(benchmark),
    }
}

/// The profile saved with a fresh benchmark: the one an automatic choice would take.
pub fn automatic_profile(benchmark: BenchmarkResult) -> (profile: OcrModelProfile)
    ensures
        profile == benchmarked_profile(OcrProfilePreference::Auto, benchmark),
{
    if benchmark.accepts_automatic_selection() {
        OcrModelProfile::Accurate
    } else {
        OcrModelProfile::Lightweight
    }
}

/// The accurate profile is never taken over a failed run, a reached resource limit or a
/// mismatched reference, whatever was asked for; and an automatic choice never takes it
/// over budget.
pub proof fn lemma_accurate_only_on_a_clean_benchmark(preference: OcrProfilePreference, b: BenchmarkResult)
    ensures
        benchmarked_profile(preference, b) == OcrModelProfile::Accurate ==> b.success
            && !b.resource_limit_reached && b.reference_summary_matches,
        preference == OcrProfilePreference::Auto && benchmarked_profile(preference, b)
            == OcrModelProfile::Accurate ==> !b.performance_budget_exceeded,
{
}

/// The characters drawn seven rows high: the Latin letters of the approved strings.
pub open spec fn latin_glyph(c: char) -> bool {
    c == 'A' || c == 'D' || c == 'E' || c == 'G' || c == 'H' || c == 'I' || c == 'L' || c == 'M' || c == 'N' || c == 'R' || c == 'S' || c == 'T' || c == 'U' || c == 'Y' || c == 'a' || c == 'd' || c == 'e' || c == 'g' || c == 'h' || c == 'i' || c == 'l' || c == 'm' || c == 'n' || c == 'r' || c == 's' || c == 't' || c == 'u' || c == 'y'
}

/// The characters drawn thirteen rows high: the Chinese characters of the approved strings.
pub open spec fn chinese_glyph(c: char) -> bool {
    c == '简' || c == '体' || c == '中' || c == '文' || c == '繁' || c == '體'
}

/// The number of glyph rows of a character: none for a character without a glyph.
pub open spec fn glyph_height(c: char) -> nat {
    if latin_glyph(c) {
        7
    } else if chinese_glyph(c) {
        13
    } else if c == ' ' {
        1
    } else {
        0
    }
}

/// The fixed bitmap of a character of the benchmark text, row by row, `1` for a lit pixel;
/// no rows for a character without a glyph.
pub fn glyph_rows(c: char) -> (rows: &'static [&'static str])
    ensures
        rows@.len() == glyph_height(c),
{
    match c {
        'A' => &[
            "01110", "10001", "10001", "11111", "10001", "10001", "10001",
        ],
        'D' => &[
            "11110", "10001", "10001", "10001", "10001", "10001", "11110",
        ],
        'E' => &[
            "11111", "10000", "10000", "11110", "10000", "10000", "11111",
        ],
        'G' => &[
            "01110", "10001", "10000", "10111", "10001", "10001", "01110",
        ],
        'H' => &[
            "10001", "10001", "10001", "11111", "10001", "10001", "10001",
        ],
        'I' => &[
            "11111", "00100", "00100", "00100", "00100", "00100", "11111",
        ],
        'L' => &[
            "10000", "10000", "10000", "10000", "10000", "10000", "11111",
        ],
        'M' => &[
            "10001", "11011", "10101", "10101", "10001", "10001", "10001",
        ],
        'N' => &[
            "10001", "11001", "10101", "10011", "10001", "10001", "10001",
        ],
        'R' => &[
            "11110", "10001", "10001", "11110", "10100", "10010", "10001",
        ],
        'S' => &[
            "01111", "10000", "10000", "01110", "00001", "00001", "11110",
        ],
        'T' => &[
            "11111", "00100", "00100", "00100", "00100", "00100", "00100",
        ],
        'U' => &[
            "10001", "10001", "10001", "10001", "10001", "10001", "01110",
        ],
        'Y' => &[
            "10001", "10001", "01010", "00100", "00100", "00100", "00100",
        ],
        'a' => &[
            "00000", "01110", "00001", "01111", "10001", "10011", "01101",
        ],
        'd' => &[
            "00001", "00001", "01111", "10001", "10001", "10011", "01101",
        ],
        'e' => &[
            "00000", "01110", "10001", "11111", "10000", "10001", "01110",
        ],
        'g' => &[
            "00000", "01101", "10011", "10001", "01111", "00001", "01110",
        ],
        'h' => &[
            "10000", "10000", "10110", "11001", "10001", "10001", "10001",
        ],
        'i' => &[
            "00100", "00000", "01100", "00100", "00100", "00100", "01110",
        ],
        'l' => &[
            "01100", "00100", "00100", "00100", "00100", "00100", "01110",
        ],
        'm' => &[
            "00000", "11010", "10101", "10101", "10101", "10101", "10101",
        ],
        'n' => &[
            "00000", "10110", "11001", "10001", "10001", "10001", "10001",
        ],
        'r' => &[
            "00000", "10110", "11001", "10000", "10000", "10000", "10000",
        ],
        's' => &[
            "00000", "01111", "10000", "01110", "00001", "00001", "11110",
        ],
        't' => &[
            "00100", "00100", "11111", "00100", "00100", "00101", "00010",
        ],
        'u' => &[
            "00000", "10001", "10001", "10001", "10001", "10011", "01101",
        ],
        'y' => &[
            "00000", "10001", "10001", "10011", "01101", "00001", "01110",
        ],
        ' ' => &["000"],
        '简' => &[
            "01000100010",
            "11101110111",
            "00000000000",
            "00111111100",
            "00100000100",
            "00111111100",
            "00100000100",
            "00111111100",
            "00010001000",
            "00100000100",
            "01000000010",
            "00011111000",
            "00000000000",
        ],
        '体' => &[
            "00100000000",
            "00100111110",
            "01100001000",
            "00100011110",
            "11111101000",
            "00100001000",
            "00100011110",
            "00100001000",
            "00100001000",
            "00100001000",
            "01110011110",
            "00000000000",
            "00000000000",
        ],
        '中' => &[
            "00111111100",
            "00100000100",
            "00100000100",
            "00100000100",
            "00111111100",
            "00000100000",
            "00000100000",
            "00000100000",
            "00000100000",
            "00000100000",
            "00000100000",
            "00000000000",
            "00000000000",
        ],
        '文' => &[
            "00011111000",
            "00000100000",
            "00000100000",
            "00111111100",
            "00001000000",
            "00010010000",
            "00100001000",
            "01000000100",
            "00000000000",
            "00000000000",
            "00000000000",
            "00000000000",
            "00000000000",
        ],
        '繁' => &[
            "00001111000",
            "11111111111",
            "00100100100",
            "00111111100",
            "00100100100",
            "11111111111",
            "00001000000",
            "01111111110",
            "00001000000",
            "00101010100",
            "01010101010",
            "10001000100",
            "00000000000",
        ],
        '體' => &[
            "00100000000",
            "00101111110",
            "01100010000",
            "00101111110",
            "11111010000",
            "00100111110",
            "00100100100",
            "00101111110",
            "00100001000",
            "00100111110",
            "01110100100",
            "00000000000",
            "00000000000",
        ],
        _ => &[],
    }
}

/// Every character of the approved strings has a glyph, so the benchmark frame shows all
/// of them.
pub proof fn lemma_every_approved_character_has_a_glyph()
    ensures
        forall|i: int, j: int|
            0 <= i < 5 && 0 <= j < APPROVED_BENCHMARK_STRINGS@[i]@.len() ==> glyph_height(
                #[trigger] APPROVED_BENCHMARK_STRINGS@[i]@[j],
            ) > 0,
{
    reveal_strlit("System Status");
    reveal_strlit("Ready");
    reveal_strlit("简体中文");
    reveal_strlit("繁體中文");
    reveal_strlit("English");
    assert(APPROVED_BENCHMARK_STRINGS@[0]@ == "System Status"@);
    assert(APPROVED_BENCHMARK_STRINGS@[1]@ == "Ready"@);
    assert(APPROVED_BENCHMARK_STRINGS@[2]@ == "简体中文"@);
    assert(APPROVED_BENCHMARK_STRINGS@[3]@ == "繁體中文"@);
    assert(APPROVED_BENCHMARK_STRINGS@[4]@ == "English"@);
}

} // verus!
