use vstd::prelude::*;

use core::time::Duration;

use crate::domain::{MonitorId, OcrRisk};
use crate::engines::OcrEngine;
use crate::frame::{BgraFrame, FrameDimensions, PreparedFrame};
use crate::ocr_profile::{
    benchmark_result, benchmarked_profile, slowest, benchmarked_selection, decimal, decimal_string, glyph_rows,
    lightweight, preference_selection, unavailable_candidate_selection, AccurateCandidate,
    BenchmarkResult, BenchmarkRun, benchmark_from_runs, benchmark_of, OcrProfilePreference, ProfileSelection, APPROVED_BENCHMARK_STRINGS,
    BENCHMARK_ITERATIONS, BENCHMARK_WARMUPS, PERFORMANCE_BUDGET_MILLIS,
};
use crate::ocr_contract::OcrModelProfile;
use crate::preparation::FramePreparer;
use crate::word_pack::{compiled, normalized, OcrMatchSummary, RuleModel, WordPack, WordRule, WordRuleKind};

verus! {

/// A monotonic clock for timing benchmark runs.
pub trait BenchmarkClock {
    fn now(&mut self) -> Duration;
}

/// Offers the accurate OCR engine and judges its output on the benchmark frame.
pub trait OcrCandidateFactory {
    type Engine: OcrEngine;

    /// A verified accurate engine, an absent optional bundle, or a rejected candidate.
    fn create_accurate(&self) -> AccurateCandidate<Self::Engine>;

    /// Whether a benchmark summary matches the bundle's reference; implementations must not
    /// keep the summary.
    fn reference_summary_matches(&self, summary: &OcrMatchSummary) -> bool;
}

/// `later - earlier` with `Duration::saturating_sub`, zero where `earlier` is later.
#[verifier::external_body]
fn duration_since(later: Duration, earlier: Duration) -> Duration {
    later.saturating_sub(earlier)
}

/// The number of whole milliseconds in a duration, as `Duration::as_millis` counts them.
pub uninterp spec fn millis_in(value: Duration) -> u128;

/// The whole milliseconds of a duration, with `Duration::as_millis`: a function of the
/// duration alone.
#[verifier::external_body]
fn whole_millis(value: Duration) -> (millis: u128)
    ensures
        millis == millis_in(value),
{
    value.as_millis()
}

/// Whole milliseconds held at `u64::MAX`.
pub open spec fn clamped_millis(value: Duration) -> u64 {
    if millis_in(value) > u64::MAX as u128 {
        u64::MAX
    } else {
        millis_in(value) as u64
    }
}

/// Whole milliseconds, held at `u64::MAX`.
fn duration_millis(value: Duration) -> (millis: u64)
    ensures
        millis == clamped_millis(value),
{
    let millis = whole_millis(value);
    if millis > u64::MAX as u128 {
        u64::MAX
    } else {
        millis as u64
    }
}

/// The width of the benchmark frame.
pub const BENCHMARK_WIDTH: u32 = 640;

/// The height of the benchmark frame.
pub const BENCHMARK_HEIGHT: u32 = 360;

/// The prepared benchmark frame: the approved strings drawn light on dark.
pub struct BenchmarkFixture {
    frame: PreparedFrame,
}

impl BenchmarkFixture {
    /// The prepared frame.
    pub closed spec fn spec_frame(self) -> PreparedFrame {
        self.frame
    }

    /// The width and height of the frame.
    pub fn dimensions(&self) -> (dims: (u32, u32))
        ensures
            dims == (
                self.spec_frame().spec_dimensions().spec_width(),
                self.spec_frame().spec_dimensions().spec_height(),
            ),
    {
        (self.frame.dimensions().width(), self.frame.dimensions().height())
    }

    /// The strings the frame shows.
    pub fn strings(&self) -> (strings: [&'static str; 5])
        ensures
            strings == APPROVED_BENCHMARK_STRINGS,
    {
        APPROVED_BENCHMARK_STRINGS
    }

    /// The prepared frame.
    pub fn frame(&self) -> (frame: &PreparedFrame)
        ensures
            *frame == self.spec_frame(),
    {
        &self.frame
    }
}

/// The four bytes of pixel `i` of a tight BGRA buffer.
spec fn pixel_at(pixels: Seq<u8>, i: int) -> Seq<u8> {
    pixels.subrange(4 * i, 4 * i + 4)
}

/// The colour of drawn text.
spec fn text_pixel() -> Seq<u8> {
    seq![232u8, 232u8, 232u8, 255u8]
}

/// `after` is `before` with text drawn into it: each pixel of the `width` by `height` frame
/// is either unchanged or the text colour, and no pixel above row `y` or left of column `x`
/// changed.
spec fn drawn_over(before: Seq<u8>, after: Seq<u8>, width: int, height: int, x: int, y: int) -> bool {
    &&& after.len() == before.len()
    &&& forall|i: int|
        0 <= i < width * height ==> #[trigger] pixel_at(after, i) == pixel_at(before, i) || pixel_at(
            after,
            i,
        ) == text_pixel()
    &&& forall|i: int|
        0 <= i < width * height && (i / width < y || i % width < x) ==> #[trigger] pixel_at(after, i)
            == pixel_at(before, i)
}

/// Painting one pixel at or right of column `x` and at or below row `y` in the text colour
/// keeps a drawing a drawing.
proof fn lemma_paint_pixel(
    before: Seq<u8>,
    current: Seq<u8>,
    width: int,
    height: int,
    x: int,
    y: int,
    px: int,
    py: int,
)
    requires
        drawn_over(before, current, width, height, x, y),
        current.len() == width * 4 * height,
        0 <= x <= px < width,
        0 <= y <= py < height,
    ensures
        ({
            let offset = 4 * (py * width + px);
            drawn_over(
                before,
                current.update(offset, 232).update(offset + 1, 232).update(offset + 2, 232).update(
                    offset + 3,
                    255,
                ),
                width,
                height,
                x,
                y,
            )
        }),
{
    let p = py * width + px;
    let offset = 4 * p;
    let after = current.update(offset, 232).update(offset + 1, 232).update(offset + 2, 232).update(
        offset + 3,
        255,
    );
    assert(0 <= p < width * height && 4 * p + 4 <= width * 4 * height) by (nonlinear_arith)
        requires
            0 <= px < width,
            0 <= py < height,
            p == py * width + px,
    ;
    vstd::arithmetic::div_mod::lemma_fundamental_div_mod_converse_div(p, width, py, px);
    vstd::arithmetic::div_mod::lemma_fundamental_div_mod_converse_mod(p, width, py, px);
    assert(pixel_at(after, p) =~= text_pixel());
    assert forall|i: int| 0 <= i < width * height && i != p implies #[trigger] pixel_at(after, i)
        == pixel_at(current, i) by {
        assert(4 * i + 4 <= width * 4 * height) by (nonlinear_arith)
            requires
                0 <= i < width * height,
        ;
        assert(pixel_at(after, i) =~= pixel_at(current, i));
    }
}

/// Draws `text` with the fixed glyphs into a tight BGRA buffer of `width` by `height`
/// pixels, starting at column `x` and row `y`; Latin glyphs at twice the size. Pixels that
/// fall outside the frame are skipped.
fn draw_fixed_text(pixels: &mut Vec<u8>, width: usize, height: usize, x: usize, y: usize, text: &str)
    requires
        old(pixels)@.len() == width * 4 * height,
    ensures
        drawn_over(old(pixels)@, final(pixels)@, width as int, height as int, x as int, y as int),
{
    let ghost before = pixels@;
    let mut cursor = x;
    for character in it: text.chars()
        invariant
            pixels@.len() == width * 4 * height,
            drawn_over(before, pixels@, width as int, height as int, x as int, y as int),
            x <= cursor,
    {
        let rows = glyph_rows(character);
        let scale: usize = if (character as u32) < 128 { 2 } else { 1 };
        let mut row: usize = 0;
        while row < rows.len()
            invariant
                pixels@.len() == width * 4 * height,
                drawn_over(before, pixels@, width as int, height as int, x as int, y as int),
                x <= cursor,
                scale == 1 || scale == 2,
                row <= rows@.len(),
            decreases rows@.len() - row,
        {
            let pattern = rows[row].as_bytes();
            let mut column: usize = 0;
            while column < pattern.len()
                invariant
                    pixels@.len() == width * 4 * height,
                    drawn_over(before, pixels@, width as int, height as int, x as int, y as int),
                    x <= cursor,
                    scale == 1 || scale == 2,
                    column <= pattern@.len(),
                decreases pattern@.len() - column,
            {
                if pattern[column] == 49 {
                    let mut y_scale: usize = 0;
                    while y_scale < scale
                        invariant
                            pixels@.len() == width * 4 * height,
                            drawn_over(before, pixels@, width as int, height as int, x as int, y as int),
                            x <= cursor,
                            scale == 1 || scale == 2,
                            y_scale <= scale,
                        decreases scale - y_scale,
                    {
                        let mut x_scale: usize = 0;
                        while x_scale < scale
                            invariant
                                pixels@.len() == width * 4 * height,
                                drawn_over(before, pixels@, width as int, height as int, x as int, y as int),
                                x <= cursor,
                                scale == 1 || scale == 2,
                                x_scale <= scale,
                            decreases scale - x_scale,
                        {
                            let pixel_x = match column.checked_mul(scale) {
                                Some(c) => match c.checked_add(x_scale) {
                                    Some(c) => c.checked_add(cursor),
                                    None => None,
                                },
                                None => None,
                            };
                            let pixel_y = match row.checked_mul(scale) {
                                Some(r) => match r.checked_add(y_scale) {
                                    Some(r) => r.checked_add(y),
                                    None => None,
                                },
                                None => None,
                            };
                            if let (Some(px), Some(py)) = (pixel_x, pixel_y) {
                                if px < width && py < height {
                                    let buffer_len = pixels.len();
                                    assert(buffer_len == width * 4 * height);
                                    assert(py * (width * 4) + px * 4 + 4 <= width * 4 * height
                                        && width * 4 <= width * 4 * height && py * (width * 4)
                                        <= width * 4 * height && py * (width * 4) + px * 4 == 4 * (py
                                        * width + px)) by (nonlinear_arith)
                                        requires
                                            px < width,
                                            py < height,
                                    ;
                                    proof {
                                        lemma_paint_pixel(
                                            before,
                                            pixels@,
                                            width as int,
                                            height as int,
                                            x as int,
                                            y as int,
                                            px as int,
                                            py as int,
                                        );
                                    }
                                    let offset = py * (width * 4) + px * 4;
                                    pixels.set(offset, 232);
                                    pixels.set(offset + 1, 232);
                                    pixels.set(offset + 2, 232);
                                    pixels.set(offset + 3, 255);
                                }
                            }
                            x_scale = x_scale + 1;
                        }
                        y_scale = y_scale + 1;
                    }
                }
                column = column + 1;
            }
            row = row + 1;
        }
        let glyph_width: usize = if rows.len() > 0 {
            rows[0].len()
        } else {
            0
        };
        let advance = glyph_width.saturating_add(if scale == 2 {
            glyph_width
        } else {
            0
        });
        cursor = cursor.saturating_add(advance).saturating_add(scale * 2);
    }
}

/// The benchmark frame: 640 by 360 pixels, dark, with each approved string on its own line.
pub fn benchmark_fixture() -> (fixture: BenchmarkFixture)
    ensures
        fixture.spec_frame().spec_dimensions().spec_width() == BENCHMARK_WIDTH,
        fixture.spec_frame().spec_dimensions().spec_height() == BENCHMARK_HEIGHT,
{
    let width: usize = 640;
    let height: usize = 360;
    let count: usize = 230_400;
    let mut pixels: Vec<u8> = Vec::new();
    let mut i: usize = 0;
    while i < count
        invariant
            i <= count,
            pixels@.len() == i * 4,
        decreases count - i,
    {
        pixels.push(32);
        pixels.push(32);
        pixels.push(32);
        pixels.push(255);
        i = i + 1;
    }
    let strings = APPROVED_BENCHMARK_STRINGS;
    let mut index: usize = 0;
    while index < 5
        invariant
            pixels@.len() == width * 4 * height,
            index <= 5,
        decreases 5 - index,
    {
        draw_fixed_text(&mut pixels, width, height, 32, 28 + index * 60, strings[index]);
        index = index + 1;
    }
    let dimensions = match FrameDimensions::new(BENCHMARK_WIDTH, BENCHMARK_HEIGHT) {
        Ok(d) => d,
        Err(_) => vstd::pervasive::unreached(),
    };
    let frame = match BgraFrame::new(MonitorId(String::from_str("benchmark")), 0, dimensions, 2560, pixels) {
        Ok(f) => f,
        Err(_) => vstd::pervasive::unreached(),
    };
    let prepared = match FramePreparer::default().prepare(frame) {
        Ok(p) => p,
        Err(_) => vstd::pervasive::unreached(),
    };
    BenchmarkFixture { frame: prepared }
}

/// The word pack the benchmark classifies with: one keyword rule per approved string, in
/// the categories `benchmark_ui_0` to `benchmark_ui_4`.
pub fn benchmark_word_pack() -> (pack: WordPack)
    ensures
        pack.rules().len() == 5,
        forall|k: int|
            0 <= k < 5 ==> #[trigger] pack.rules()[k] == (RuleModel {
                category: "benchmark_ui_"@ + decimal(k as nat),
                value: normalized(APPROVED_BENCHMARK_STRINGS@[k]@),
                kind: WordRuleKind::Literal,
                risk: OcrRisk::Keyword,
            }),
{
    let strings = APPROVED_BENCHMARK_STRINGS;
    let mut rules: Vec<WordRule> = Vec::new();
    let mut index: usize = 0;
    while index < 5
        invariant
            index <= 5,
            strings == APPROVED_BENCHMARK_STRINGS,
            rules@.len() == index,
            forall|k: int| 0 <= k < index ==> (#[trigger] rules@[k]).kind == WordRuleKind::Literal,
            forall|k: int|
                0 <= k < index ==> #[trigger] compiled(rules@[k]) == (RuleModel {
                    category: "benchmark_ui_"@ + decimal(k as nat),
                    value: normalized(APPROVED_BENCHMARK_STRINGS@[k]@),
                    kind: WordRuleKind::Literal,
                    risk: OcrRisk::Keyword,
                }),
        decreases 5 - index,
    {
        let mut category = String::from_str("benchmark_ui_");
        category.append(decimal_string(index as u64).as_str());
        rules.push(WordRule::literal(category.as_str(), strings[index], OcrRisk::Keyword));
        index = index + 1;
    }
    match WordPack::compile(rules) {
        Ok(pack) => {
            assert(pack.rules().len() == 5);
            assert forall|k: int| 0 <= k < 5 implies #[trigger] pack.rules()[k] == (RuleModel {
                category: "benchmark_ui_"@ + decimal(k as nat),
                value: normalized(APPROVED_BENCHMARK_STRINGS@[k]@),
                kind: WordRuleKind::Literal,
                risk: OcrRisk::Keyword,
            }) by {
                assert(pack.rules()[k] == compiled(rules@[k]));
            }
            pack
        },
        Err(_) => {
            proof {
                let i = choose|i: int| crate::word_pack::first_bad_regex(rules@, i);
            }
            vstd::pervasive::unreached()
        },
    }
}

/// `b` is what warm-ups and timed runs of the benchmark give: three warm-ups, ten timed runs,
/// each run's duration the whole milliseconds of its elapsed time held at `u64::MAX`.
pub open spec fn measured_benchmark(b: BenchmarkResult) -> bool {
    exists|warmups: Seq<bool>, warmup_limit_grew: bool, runs: Seq<BenchmarkRun>, elapsed: Seq<Duration>|
        #![trigger benchmark_of(warmups, warmup_limit_grew, runs), elapsed.len()]
        {
            &&& warmups.len() == BENCHMARK_WARMUPS
            &&& runs.len() == BENCHMARK_ITERATIONS
            &&& elapsed.len() == BENCHMARK_ITERATIONS
            &&& forall|i: int| 0 <= i < runs.len() ==> (#[trigger] runs[i]).millis == clamped_millis(elapsed[i])
            &&& b == benchmark_of(warmups, warmup_limit_grew, runs)
        }
}

/// Runs the accurate engine on the benchmark frame: three warm-up runs, then ten timed
/// runs. Any failed run marks the benchmark unsuccessful, any growth of the engine's
/// resource-limit count marks the limit reached, and any output that the factory does not
/// match against its reference marks a mismatch. The 95th percentile is the slowest timed
/// run, each run counted in whole milliseconds.
pub fn benchmark_accurate<E, F, C>(engine: &mut E, factory: &F, clock: &mut C) -> (result: BenchmarkResult)
    where
        E: OcrEngine,
        F: OcrCandidateFactory<Engine = E>,
        C: BenchmarkClock,
    ensures
        measured_benchmark(result),
{
    let fixture = benchmark_fixture();
    let word_pack = benchmark_word_pack();
    let initial_resource_limit_events = engine.resource_limit_events();
    let mut warmups: Vec<bool> = Vec::new();
    let mut warmup: usize = 0;
    while warmup < BENCHMARK_WARMUPS
        invariant
            warmup <= BENCHMARK_WARMUPS,
            warmups@.len() == warmup,
        decreases BENCHMARK_WARMUPS - warmup,
    {
        let ok = engine.classify(fixture.frame(), &word_pack).is_ok();
        warmups.push(ok);
        warmup = warmup + 1;
    }
    let warmup_limit_grew = engine.resource_limit_events() > initial_resource_limit_events;
    let mut runs: Vec<BenchmarkRun> = Vec::new();
    let ghost mut elapsed: Seq<Duration> = Seq::empty();
    let mut run: usize = 0;
    while run < BENCHMARK_ITERATIONS
        invariant
            run <= BENCHMARK_ITERATIONS,
            runs@.len() == run,
            elapsed.len() == run,
            forall|i: int| 0 <= i < runs@.len() ==> (#[trigger] runs@[i]).millis == clamped_millis(elapsed[i]),
        decreases BENCHMARK_ITERATIONS - run,
    {
        let before_limits = engine.resource_limit_events();
        let started = clock.now();
        let output = engine.classify(fixture.frame(), &word_pack);
        let finished = clock.now();
        let took = duration_since(finished, started);
        let millis = duration_millis(took);
        let limit_grew = engine.resource_limit_events() > before_limits;
        let observed = match output {
            Ok(summary) => BenchmarkRun {
                millis,
                succeeded: true,
                limit_grew,
                summary_matched: factory.reference_summary_matches(&summary),
            },
            Err(_) => BenchmarkRun { millis, succeeded: false, limit_grew, summary_matched: false },
        };
        runs.push(observed);
        proof {
            elapsed = elapsed.push(took);
        }
        run = run + 1;
    }
    let result = benchmark_from_runs(warmups.as_slice(), warmup_limit_grew, runs.as_slice());
    assert(elapsed.len() == BENCHMARK_ITERATIONS);
    result
}

/// Chooses the OCR profile. The lightweight preference needs no candidate; a missing or
/// rejected accurate candidate falls back to the lightweight profile, asking for a download
/// only where the accurate profile was asked for and is missing; otherwise the accurate
/// engine is judged on `cached`, a saved result for the same key, or else on a fresh
/// benchmark, which is handed back to be saved.
pub fn select_profile<F, C>(
    preference: OcrProfilePreference,
    factory: &F,
    clock: &mut C,
    cached: Option<BenchmarkResult>,
) -> (outcome: (ProfileSelection, Option<BenchmarkResult>))
    where
        F: OcrCandidateFactory,
        C: BenchmarkClock,
    ensures
        preference == OcrProfilePreference::Lightweight ==> outcome.0 == lightweight(false, None)
            && outcome.1 is None,
        outcome.1 is Some ==> cached is None && outcome.0.benchmark == outcome.1,
        outcome.1 matches Some(b) ==> measured_benchmark(b),
        match outcome.0.benchmark {
            None => outcome.1 is None && (outcome.0 == lightweight(false, None) || (outcome.0
                == lightweight(true, None) && preference == OcrProfilePreference::Accurate)),
            Some(b) => {
                &&& preference != OcrProfilePreference::Lightweight
                &&& (cached == Some(b) || (cached is None && outcome.1 == Some(b)))
                &&& outcome.0.profile == benchmarked_profile(preference, b)
                &&& !outcome.0.download_required
                &&& outcome.0.performance_budget_exceeded == (outcome.0.profile
                    == OcrModelProfile::Accurate && b.performance_budget_exceeded)
            },
        },
{
    if let Some(selection) = preference_selection(preference) {
        return (selection, None);
    }
    let mut engine = match factory.create_accurate() {
        AccurateCandidate::Ready(engine) => engine,
        AccurateCandidate::Missing => return (unavailable_candidate_selection(preference, true), None),
        AccurateCandidate::Rejected => return (unavailable_candidate_selection(preference, false), None),
    };
    match cached {
        Some(benchmark) => (benchmarked_selection(preference, benchmark), None),
        None => {
            let measured = benchmark_accurate(&mut engine, factory, clock);
            (benchmarked_selection(preference, measured), Some(measured))
        },
    }
}

} // verus!
