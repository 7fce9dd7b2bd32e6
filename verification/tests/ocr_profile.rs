use std::cell::RefCell;
use std::time::Duration;

use karma::benchmark::{
    benchmark_fixture, benchmark_word_pack, select_profile, BenchmarkClock, OcrCandidateFactory,
};
use karma::domain::OcrRisk;
use karma::engines::OcrEngine;
use karma::frame::PreparedFrame;
use karma::ocr_contract::OcrModelProfile;
use karma::word_pack::{OcrMatchSummary, WordPack};
use karma::ocr_profile::{
    benchmark_from_runs, BenchmarkRun,
    benchmark_result, benchmarked_selection, decimal_string, glyph_rows, health_status_line,
    lightweight_selection, ocr_performance_warning, preference_selection,
    start_after_ocr_preflight, unavailable_candidate_selection, AccurateCandidate,
    OcrPreflight,
    OcrProfilePreference, OcrRuntimeConfig, OcrRuntimeConfigError, APPROVED_BENCHMARK_STRINGS,
};

#[test]
fn preflight_completes_before_capture_starts_and_degrades_without_an_engine() {
    let events = RefCell::new(Vec::new());
    start_after_ocr_preflight(
        Some("selected bundle"),
        |bundle| {
            assert_eq!(*bundle, "selected bundle");
            events.borrow_mut().push("preflight");
            Err("ocr_contract_invalid")
        },
        |preflight| {
            events.borrow_mut().push("capture");
            assert!(matches!(preflight, OcrPreflight::Unavailable(Some(_))));
            assert!(preflight.bundle().is_none());
        },
    );
    assert_eq!(*events.borrow(), ["preflight", "capture"]);
}

#[test]
fn preflight_without_a_candidate_starts_degraded_and_a_valid_one_is_ready() {
    let started = start_after_ocr_preflight(
        None::<&str>,
        |_| -> Result<(), &str> { panic!("nothing to validate") },
        |preflight| preflight.error().is_none() && preflight.bundle().is_none(),
    );
    assert!(started);
    let ready = start_after_ocr_preflight(
        Some(7_u8),
        |_| -> Result<(), &str> { Ok(()) },
        |preflight| preflight.into_bundle(),
    );
    assert_eq!(ready, Some(7));
}

#[test]
fn health_status_line_is_single_line_and_has_no_escape_marker() {
    let line = health_status_line("ocr_inference", "running", 3, 1, 42, 0);

    assert!(!line.contains(['\\', '\n', '\r']));
    assert_eq!(
        line,
        "status=running component=ocr_inference inferences=3 failures=1 latency_total_us=42 unavailable_monitors=0"
    );
}

#[test]
fn decimal_strings_have_no_leading_zeros() {
    assert_eq!(decimal_string(0), "0");
    assert_eq!(decimal_string(10), "10");
    assert_eq!(decimal_string(u64::MAX), "18446744073709551615");
}

#[test]
fn ocr_runtime_config_requires_lightweight_manifest_and_validates_profile() {
    assert_eq!(
        OcrRuntimeConfig::from_values(None, None, None),
        Err(OcrRuntimeConfigError::MissingLightweightManifest)
    );
    assert_eq!(
        OcrRuntimeConfig::from_values(Some("lightweight.json"), None, Some("fast")),
        Err(OcrRuntimeConfigError::InvalidProfile)
    );
}

#[test]
fn ocr_runtime_config_accepts_optional_accurate_manifest_and_profile() {
    let config = OcrRuntimeConfig::from_values(
        Some("lightweight.json"),
        Some("accurate.json"),
        Some("accurate"),
    )
    .unwrap();

    assert_eq!(config.lightweight_manifest, "lightweight.json");
    assert_eq!(config.accurate_manifest, Some("accurate.json".to_string()));
    assert_eq!(config.profile, OcrModelProfile::Accurate);
}

#[test]
fn ocr_runtime_config_accepts_only_documented_profile_values() {
    let cases = [
        (None, OcrModelProfile::Lightweight),
        (Some("auto"), OcrModelProfile::Lightweight),
        (Some("lightweight"), OcrModelProfile::Lightweight),
        (Some("accurate"), OcrModelProfile::Accurate),
    ];

    for (value, expected_profile) in cases {
        let config = OcrRuntimeConfig::from_values(Some("lightweight.json"), None, value)
            .expect("documented profile value must parse");
        assert_eq!(config.profile, expected_profile);
    }
    for value in ["Auto", " lightweight", "accurate ", "other"] {
        assert_eq!(
            OcrRuntimeConfig::from_values(Some("lightweight.json"), None, Some(value)),
            Err(OcrRuntimeConfigError::InvalidProfile)
        );
    }
}

#[test]
fn empty_manifest_settings_count_as_absent() {
    assert_eq!(
        OcrRuntimeConfig::from_values(Some(""), None, None),
        Err(OcrRuntimeConfigError::MissingLightweightManifest)
    );
    let config = OcrRuntimeConfig::from_values(Some("a.json"), Some(""), None).unwrap();
    assert_eq!(config.accurate_manifest, None);
    assert_eq!(config.preference, OcrProfilePreference::Auto);
}

#[test]
fn explicit_accurate_over_budget_has_a_stable_privacy_safe_warning() {
    assert_eq!(
        ocr_performance_warning(true),
        Some(
            "status=warning component=ocr_profile profile=accurate \
             reason=performance_budget_exceeded"
        )
    );
    assert_eq!(ocr_performance_warning(false), None);
}

#[test]
fn preference_parser_accepts_only_documented_values() {
    assert_eq!("auto".parse(), Ok(OcrProfilePreference::Auto));
    assert_eq!("lightweight".parse(), Ok(OcrProfilePreference::Lightweight));
    assert_eq!("accurate".parse(), Ok(OcrProfilePreference::Accurate));
    assert_eq!(
        "accurate "
            .parse::<OcrProfilePreference>()
            .unwrap_err()
            .message(),
        "invalid OCR profile preference"
    );
}

const BENCHMARK_WARMUPS: usize = 3;
const BENCHMARK_ITERATIONS: usize = 10;

fn select(
    preference: OcrProfilePreference,
    factory: &FakeFactory,
    clock: &mut FakeClock,
) -> karma::ocr_profile::ProfileSelection {
    select_profile(preference, factory, clock, None).0
}

#[derive(Default)]
struct FakeClock {
    values: Vec<u64>,
    calls: usize,
}

impl FakeClock {
    fn with_millis(values: [u64; BENCHMARK_ITERATIONS]) -> Self {
        Self {
            values: values.to_vec(),
            calls: 0,
        }
    }
}

impl BenchmarkClock for FakeClock {
    fn now(&mut self) -> Duration {
        let call = self.calls;
        self.calls += 1;
        if call % 2 == 0 {
            Duration::ZERO
        } else {
            Duration::from_millis(self.values[call / 2])
        }
    }
}

enum FakeFactory {
    Accurate,
    Missing,
    Rejected,
    ReferenceMismatch,
    RuntimeFailure,
    ResourceLimited,
    WarmupResourceLimited,
    WarmupFailure,
}

enum FakeEngine {
    Accurate,
    RuntimeFailure,
    ResourceLimited {
        resource_limit_events: u64,
    },
    WarmupResourceLimited {
        classifications: usize,
        resource_limit_events: u64,
    },
    WarmupFailure {
        classifications: usize,
    },
}

impl OcrEngine for FakeEngine {
    type Error = ();

    fn classify(
        &mut self,
        _frame: &PreparedFrame,
        _word_pack: &WordPack,
    ) -> Result<OcrMatchSummary, Self::Error> {
        if matches!(self, Self::RuntimeFailure) {
            return Err(());
        }
        if let Self::WarmupFailure { classifications } = self {
            *classifications += 1;
            if *classifications <= BENCHMARK_WARMUPS {
                return Err(());
            }
        }
        if let Self::ResourceLimited {
            resource_limit_events,
        } = self
        {
            *resource_limit_events += 1;
        }
        if let Self::WarmupResourceLimited {
            classifications,
            resource_limit_events,
        } = self
        {
            *classifications += 1;
            if *classifications <= BENCHMARK_WARMUPS {
                *resource_limit_events += 1;
            }
        }
        Ok(OcrMatchSummary {
            risk: OcrRisk::NoRisk,
            categories: Vec::new(),
            exemption_context: false,
        })
    }

    fn resource_limit_events(&self) -> u64 {
        match self {
            Self::ResourceLimited {
                resource_limit_events,
            } => *resource_limit_events,
            Self::WarmupResourceLimited {
                resource_limit_events,
                ..
            } => *resource_limit_events,
            Self::Accurate | Self::RuntimeFailure | Self::WarmupFailure { .. } => 0,
        }
    }
}

impl OcrCandidateFactory for FakeFactory {
    type Engine = FakeEngine;

    fn create_accurate(&self) -> AccurateCandidate<Self::Engine> {
        match self {
            Self::Missing => AccurateCandidate::Missing,
            Self::Rejected => AccurateCandidate::Rejected,
            Self::Accurate | Self::ReferenceMismatch => AccurateCandidate::Ready(FakeEngine::Accurate),
            Self::RuntimeFailure => AccurateCandidate::Ready(FakeEngine::RuntimeFailure),
            Self::ResourceLimited => AccurateCandidate::Ready(FakeEngine::ResourceLimited {
                resource_limit_events: 0,
            }),
            Self::WarmupResourceLimited => AccurateCandidate::Ready(FakeEngine::WarmupResourceLimited {
                classifications: 0,
                resource_limit_events: 0,
            }),
            Self::WarmupFailure => {
                AccurateCandidate::Ready(FakeEngine::WarmupFailure { classifications: 0 })
            }
        }
    }

    fn reference_summary_matches(&self, _summary: &OcrMatchSummary) -> bool {
        !matches!(self, Self::ReferenceMismatch)
    }
}

#[test]
fn lightweight_preference_always_selects_the_bundled_profile() {
    let mut clock = FakeClock::default();

    let selected = select(OcrProfilePreference::Lightweight, &FakeFactory::Accurate, &mut clock);

    assert_eq!(selected.profile, OcrModelProfile::Lightweight);
    assert!(!selected.download_required);
    assert_eq!(clock.calls, 0);
}

#[test]
fn missing_explicit_accurate_profile_falls_back_and_requests_download() {
    let mut clock = FakeClock::default();

    let selected = select(OcrProfilePreference::Accurate, &FakeFactory::Missing, &mut clock);

    assert_eq!(selected.profile, OcrModelProfile::Lightweight);
    assert!(selected.download_required);
    assert!(!selected.performance_budget_exceeded);
}

#[test]
fn explicit_accurate_overrides_only_the_performance_budget() {
    let mut clock = FakeClock::with_millis([900; 10]);

    let selected = select(OcrProfilePreference::Accurate, &FakeFactory::Accurate, &mut clock);

    assert_eq!(selected.profile, OcrModelProfile::Accurate);
    assert!(selected.performance_budget_exceeded);
}

#[test]
fn explicit_accurate_never_overrides_a_reference_failure() {
    let mut clock = FakeClock::with_millis([100; 10]);

    let selected = select(OcrProfilePreference::Accurate, &FakeFactory::ReferenceMismatch, &mut clock);

    assert_eq!(selected.profile, OcrModelProfile::Lightweight);
}

#[test]
fn explicit_accurate_never_overrides_a_runtime_or_resource_failure() {
    for factory in [FakeFactory::RuntimeFailure, FakeFactory::ResourceLimited] {
        let mut clock = FakeClock::with_millis([100; 10]);
        let selected = select(OcrProfilePreference::Accurate, &factory, &mut clock);
        assert_eq!(selected.profile, OcrModelProfile::Lightweight);
    }
}

#[test]
fn accurate_selection_rejects_a_resource_limit_reached_during_warmup() {
    let mut clock = FakeClock::with_millis([100; 10]);

    let selected = select(OcrProfilePreference::Auto, &FakeFactory::WarmupResourceLimited, &mut clock);

    assert_eq!(selected.profile, OcrModelProfile::Lightweight);
    assert!(selected.benchmark.unwrap().resource_limit_reached);
}

#[test]
fn accurate_selection_rejects_a_runtime_failure_during_warmup() {
    let mut clock = FakeClock::with_millis([100; 10]);

    let selected = select(OcrProfilePreference::Auto, &FakeFactory::WarmupFailure, &mut clock);

    assert_eq!(selected.profile, OcrModelProfile::Lightweight);
    assert!(!selected.benchmark.unwrap().success);
}

#[test]
fn rejected_accurate_candidate_falls_back_without_requesting_a_download() {
    let mut clock = FakeClock::default();

    let selected = select(OcrProfilePreference::Accurate, &FakeFactory::Rejected, &mut clock);

    assert_eq!(selected.profile, OcrModelProfile::Lightweight);
    assert!(!selected.download_required);
}

#[test]
fn auto_selects_accurate_only_after_ten_successes_without_limits_or_reference_failure() {
    let mut clock = FakeClock::with_millis([100; 10]);

    let selected = select(OcrProfilePreference::Auto, &FakeFactory::Accurate, &mut clock);

    assert_eq!(selected.profile, OcrModelProfile::Accurate);
    assert_eq!(selected.benchmark.unwrap().p95_millis, 100);
}

#[test]
fn auto_uses_sorted_tenth_sample_as_p95_and_rejects_over_budget_accuracy() {
    let mut clock = FakeClock::with_millis([10, 20, 30, 40, 50, 60, 70, 80, 800, 801]);

    let selected = select(OcrProfilePreference::Auto, &FakeFactory::Accurate, &mut clock);

    let benchmark = selected.benchmark.unwrap();
    assert_eq!(benchmark.p95_millis, 801);
    assert!(benchmark.performance_budget_exceeded);
    assert_eq!(selected.profile, OcrModelProfile::Lightweight);
}

#[test]
fn a_saved_benchmark_is_used_without_measuring_and_a_fresh_one_is_returned() {
    let mut clock = FakeClock::with_millis([100; 10]);
    let saved = benchmark_result(&[900; 10], true, false, true);
    let (selected, fresh) =
        select_profile(OcrProfilePreference::Auto, &FakeFactory::Accurate, &mut clock, Some(saved));
    assert_eq!(clock.calls, 0);
    assert!(fresh.is_none());
    assert_eq!(selected.profile, OcrModelProfile::Lightweight);
    let (_, fresh) = select_profile(OcrProfilePreference::Auto, &FakeFactory::Accurate, &mut clock, None);
    assert_eq!(clock.calls, 20);
    assert_eq!(fresh.unwrap().p95_millis, 100);
}

#[test]
fn selection_decisions_in_isolation() {
    assert_eq!(
        preference_selection(OcrProfilePreference::Lightweight),
        Some(lightweight_selection(false, None))
    );
    assert!(preference_selection(OcrProfilePreference::Auto).is_none());
    assert!(unavailable_candidate_selection(OcrProfilePreference::Accurate, true).download_required);
    assert!(!unavailable_candidate_selection(OcrProfilePreference::Auto, true).download_required);
    let over_budget = benchmark_result(&[900; 10], true, false, true);
    assert_eq!(
        benchmarked_selection(OcrProfilePreference::Auto, over_budget).profile,
        OcrModelProfile::Lightweight
    );
    assert_eq!(
        benchmarked_selection(OcrProfilePreference::Accurate, over_budget).profile,
        OcrModelProfile::Accurate
    );
}

#[test]
fn benchmark_fixture_only_uses_approved_fixed_ui_strings() {
    let fixture = benchmark_fixture();

    assert_eq!(fixture.dimensions(), (640, 360));
    assert_eq!(fixture.strings(), APPROVED_BENCHMARK_STRINGS);
    assert_eq!(fixture.frame().dimensions().width(), 640);
    assert_eq!(fixture.frame().dimensions().height(), 360);
    assert!(fixture.frame().pixels().iter().any(|byte| *byte == 232));
}

#[test]
fn benchmark_word_pack_matches_only_the_fixed_disclosed_ui_strings() {
    let pack = benchmark_word_pack();
    let summary = pack.classify(&APPROVED_BENCHMARK_STRINGS);

    assert_eq!(summary.risk, OcrRisk::Keyword);
    assert_eq!(summary.categories.len(), APPROVED_BENCHMARK_STRINGS.len());
    assert!(summary
        .categories
        .iter()
        .all(|category| category.starts_with("benchmark_ui_")));
}

#[test]
fn benchmark_renderer_has_a_fixed_glyph_for_every_approved_character() {
    for character in APPROVED_BENCHMARK_STRINGS
        .iter()
        .flat_map(|text| text.chars())
    {
        assert!(
            !glyph_rows(character).is_empty(),
            "missing glyph for {character}"
        );
    }
}

#[test]
fn benchmark_renderer_preserves_title_case_glyphs() {
    assert_ne!(glyph_rows('S'), glyph_rows('s'));
    assert_ne!(glyph_rows('R'), glyph_rows('r'));
    assert_ne!(glyph_rows('E'), glyph_rows('e'));
}

#[test]
fn characters_outside_the_approved_strings_have_no_glyph() {
    assert!(glyph_rows('x').is_empty());
    assert_eq!(glyph_rows('中').len(), 13);
    assert_eq!(glyph_rows(' '), &["000"]);
}

#[test]
fn benchmark_runs_decide_each_flag() {
    let run = |millis: u64, succeeded: bool, limit_grew: bool, summary_matched: bool| BenchmarkRun {
        millis,
        succeeded,
        limit_grew,
        summary_matched,
    };
    let good = [run(90, true, false, true), run(120, true, false, true)];
    let result = benchmark_from_runs(&[true, true, true], false, &good);
    assert_eq!(result.p95_millis, 120);
    assert!(result.success && !result.resource_limit_reached && result.reference_summary_matches);

    let failed = benchmark_from_runs(&[true, false, true], false, &good);
    assert!(!failed.success);

    let limited = benchmark_from_runs(&[true], false, &[run(10, true, true, true)]);
    assert!(limited.resource_limit_reached);
    assert!(benchmark_from_runs(&[true], true, &[run(10, true, false, true)]).resource_limit_reached);

    let mismatch = benchmark_from_runs(&[true], false, &[run(10, true, false, false)]);
    assert!(!mismatch.reference_summary_matches);
    let failed_run = benchmark_from_runs(&[true], false, &[run(10, false, false, false)]);
    assert!(!failed_run.success && failed_run.reference_summary_matches);
    assert!(benchmark_from_runs(&[], false, &[run(1_001, true, false, true)]).performance_budget_exceeded);
}
