use vstd::prelude::*;

use crate::domain::MonitorId;
use crate::frame::{BgraFrame, FrameError, PreparedFrame};
use crate::preparation::{target_edges, FramePreparer, DEFAULT_MAXIMUM_EDGE};

verus! {

/// What the scheduler needs to know of a prepared frame.
#[derive(Debug, Clone, PartialEq, Eq)]
pub struct FrameMetadata {
    pub monitor_id: MonitorId,
    pub captured_at_ms: i64,
    pub fingerprint: u64,
}

/// Which engines should run on a frame.
#[derive(Debug, Clone, Copy, PartialEq, Eq, Structural)]
pub struct FrameWork {
    pub run_image: bool,
    pub run_ocr: bool,
}

/// When a monitor last ran each engine, and the fingerprint OCR last saw.
#[derive(Debug, Clone, Copy, PartialEq, Eq, Structural)]
pub struct MonitorSchedule {
    pub image_at_ms: i64,
    pub ocr_at_ms: i64,
    pub ocr_fingerprint: u64,
}

/// The minimum time between two image inferences on one monitor (two per second).
pub const IMAGE_INTERVAL_MS: i64 = 500;

/// The minimum time between two OCR passes on one monitor.
pub const OCR_INTERVAL_MS: i64 = 1000;

/// The work chosen for a frame, given the monitor's schedule before it: the first frame of
/// a monitor runs both engines; later, the image engine runs once 500 ms have passed and OCR
/// once a second has passed and the fingerprint changed. Time differences are exact, so a
/// timestamp that goes backwards never runs anything.
pub open spec fn work_for(previous: Option<MonitorSchedule>, frame: FrameMetadata) -> FrameWork {
    match previous {
        None => FrameWork { run_image: true, run_ocr: true },
        Some(p) => FrameWork {
            run_image: frame.captured_at_ms - p.image_at_ms >= IMAGE_INTERVAL_MS,
            run_ocr: frame.captured_at_ms - p.ocr_at_ms >= OCR_INTERVAL_MS && frame.fingerprint
                != p.ocr_fingerprint,
        },
    }
}

/// The monitor's schedule after the frame: each engine that ran records the frame's time,
/// and OCR records the frame's fingerprint.
pub open spec fn schedule_after(previous: Option<MonitorSchedule>, frame: FrameMetadata) -> MonitorSchedule {
    let work = work_for(previous, frame);
    match previous {
        None => MonitorSchedule {
            image_at_ms: frame.captured_at_ms,
            ocr_at_ms: frame.captured_at_ms,
            ocr_fingerprint: frame.fingerprint,
        },
        Some(p) => MonitorSchedule {
            image_at_ms: if work.run_image {
                frame.captured_at_ms
            } else {
                p.image_at_ms
            },
            ocr_at_ms: if work.run_ocr {
                frame.captured_at_ms
            } else {
                p.ocr_at_ms
            },
            ocr_fingerprint: if work.run_ocr {
                frame.fingerprint
            } else {
                p.ocr_fingerprint
            },
        },
    }
}

/// Decides, per monitor, which engines run on each frame.
///
/// The schedules are kept as a vector of entries, one per monitor, beside a ghost map from
/// each monitor id's text to its schedule. Monitor ids are strings, and a `HashMap` keyed by
/// a `String` gives Verus nothing to prove a lookup with; a linear search over a few
/// monitors proves exactly which schedule it finds.
pub struct FrameScheduler {
    entries: Vec<(MonitorId, MonitorSchedule)>,
    model: Ghost<Map<Seq<char>, MonitorSchedule>>,
}

impl FrameScheduler {
    /// The schedule of each monitor seen so far, by monitor id.
    pub closed spec fn schedules(&self) -> Map<Seq<char>, MonitorSchedule> {
        self.model@
    }

    /// The entries hold each monitor once and agree with the model.
    pub closed spec fn wf(&self) -> bool {
        &&& forall|i: int, j: int|
            0 <= i < j < self.entries@.len() ==> self.entries@[i].0.0@ != self.entries@[j].0.0@
        &&& forall|i: int|
            0 <= i < self.entries@.len() ==> #[trigger] self.model@.contains_key(
                self.entries@[i].0.0@,
            ) && self.model@[self.entries@[i].0.0@] == self.entries@[i].1
        &&& forall|k: Seq<char>|
            #[trigger] self.model@.contains_key(k) ==> exists|i: int|
                0 <= i < self.entries@.len() && self.entries@[i].0.0@ == k
    }

    /// A scheduler that has seen no monitor.
    pub fn new() -> (s: Self)
        ensures
            s.wf(),
            s.schedules() == Map::<Seq<char>, MonitorSchedule>::empty(),
    {
        FrameScheduler { entries: Vec::new(), model: Ghost(Map::empty()) }
    }

    /// Chooses the work for `frame` and records it in its monitor's schedule; no other
    /// monitor's schedule changes.
    pub fn select(&mut self, frame: FrameMetadata) -> (work: FrameWork)
        requires
            old(self).wf(),
        ensures
            final(self).wf(),
            ({
                let id = frame.monitor_id.0@;
                let previous = if old(self).schedules().contains_key(id) {
                    Some(old(self).schedules()[id])
                } else {
                    None
                };
                &&& work == work_for(previous, frame)
                &&& final(self).schedules() == old(self).schedules().insert(
                    id,
                    schedule_after(previous, frame),
                )
            }),
    {
        let ghost id = frame.monitor_id.0@;
        let mut i: usize = 0;
        while i < self.entries.len() && !(self.entries[i].0.0 == frame.monitor_id.0)
            invariant
                self.wf(),
                self == old(self),
                id == frame.monitor_id.0@,
                i <= self.entries@.len(),
                forall|j: int| 0 <= j < i ==> self.entries@[j].0.0@ != id,
            decreases self.entries@.len() - i,
        {
            i = i + 1;
        }
        if i == self.entries.len() {
            assert(!self.model@.contains_key(id));
            let schedule = MonitorSchedule {
                image_at_ms: frame.captured_at_ms,
                ocr_at_ms: frame.captured_at_ms,
                ocr_fingerprint: frame.fingerprint,
            };
            let ghost old_entries = self.entries@;
            self.entries.push((frame.monitor_id, schedule));
            self.model = Ghost(self.model@.insert(id, schedule));
            proof {
                assert forall|k: Seq<char>| #[trigger] self.model@.contains_key(k) implies exists|
                    j: int,
                | 0 <= j < self.entries@.len() && self.entries@[j].0.0@ == k by {
                    if k == id {
                        assert(self.entries@[old_entries.len() as int].0.0@ == k);
                    } else {
                        let j = choose|j: int| 0 <= j < old_entries.len() && old_entries[j].0.0@ == k;
                        assert(self.entries@[j] == old_entries[j]);
                    }
                }
            }
            return FrameWork { run_image: true, run_ocr: true };
        }
        let previous = self.entries[i].1;
        assert(self.model@.contains_key(self.entries@[i as int].0.0@));
        assert(self.model@[id] == previous);
        let run_image = (frame.captured_at_ms as i128) - (previous.image_at_ms as i128)
            >= IMAGE_INTERVAL_MS as i128;
        let run_ocr = (frame.captured_at_ms as i128) - (previous.ocr_at_ms as i128)
            >= OCR_INTERVAL_MS as i128 && frame.fingerprint != previous.ocr_fingerprint;
        let updated = MonitorSchedule {
            image_at_ms: if run_image {
                frame.captured_at_ms
            } else {
                previous.image_at_ms
            },
            ocr_at_ms: if run_ocr {
                frame.captured_at_ms
            } else {
                previous.ocr_at_ms
            },
            ocr_fingerprint: if run_ocr {
                frame.fingerprint
            } else {
                previous.ocr_fingerprint
            },
        };
        let ghost old_entries = self.entries@;
        let key = self.entries[i].0.clone();
        self.entries.set(i, (key, updated));
        self.model = Ghost(self.model@.insert(id, updated));
        proof {
            assert forall|a: int, b: int|
                0 <= a < b < self.entries@.len() implies self.entries@[a].0.0@ != self.entries@[b].0.0@ by {
                assert(old_entries[a].0.0@ != old_entries[b].0.0@);
            }
            assert forall|a: int| 0 <= a < self.entries@.len() implies #[trigger] self.model@.contains_key(
                self.entries@[a].0.0@,
            ) && self.model@[self.entries@[a].0.0@] == self.entries@[a].1 by {
                if a != i {
                    assert(old_entries[a].0.0@ != old_entries[i as int].0.0@);
                    assert(old_entries[a] == self.entries@[a]);
                    assert(old(self).model@.contains_key(old_entries[a].0.0@));
                }
            }
            assert forall|k: Seq<char>| #[trigger] self.model@.contains_key(k) implies exists|
                j: int,
            | 0 <= j < self.entries@.len() && self.entries@[j].0.0@ == k by {
                if k == id {
                    assert(self.entries@[i as int].0.0@ == k);
                } else {
                    let j = choose|j: int| 0 <= j < old_entries.len() && old_entries[j].0.0@ == k;
                    assert(self.entries@[j] == old_entries[j]);
                }
            }
        }
        FrameWork { run_image, run_ocr }
    }
}

impl Default for FrameScheduler {
    fn default() -> (s: Self)
        ensures
            s.wf(),
            s.schedules() == Map::<Seq<char>, MonitorSchedule>::empty(),
    {
        FrameScheduler::new()
    }
}

/// Selecting work for one monitor leaves every other monitor's schedule as it was.
pub proof fn lemma_monitors_are_independent(
    before: Map<Seq<char>, MonitorSchedule>,
    frame: FrameMetadata,
    other: Seq<char>,
)
    requires
        other != frame.monitor_id.0@,
    ensures
        ({
            let id = frame.monitor_id.0@;
            let previous = if before.contains_key(id) {
                Some(before[id])
            } else {
                None
            };
            let after = before.insert(id, schedule_after(previous, frame));
            &&& after.contains_key(other) == before.contains_key(other)
            &&& before.contains_key(other) ==> after[other] == before[other]
        }),
{
}

/// A frame whose time does not lie after the monitor's last recorded times runs nothing.
pub proof fn lemma_backwards_time_runs_nothing(previous: MonitorSchedule, frame: FrameMetadata)
    requires
        frame.captured_at_ms <= previous.image_at_ms,
        frame.captured_at_ms <= previous.ocr_at_ms,
    ensures
        work_for(Some(previous), frame) == (FrameWork { run_image: false, run_ocr: false }),
{
}

/// The schedule of a monitor, if it has one, in a map of schedules.
pub open spec fn schedule_in(schedules: Map<Seq<char>, MonitorSchedule>, id: Seq<char>) -> Option<MonitorSchedule> {
    if schedules.contains_key(id) {
        Some(schedules[id])
    } else {
        None
    }
}

/// The schedules after `frames` were selected, in order, starting from `start`: each frame
/// updates its own monitor's schedule, as `FrameScheduler::select` does.
pub open spec fn schedules_after(start: Map<Seq<char>, MonitorSchedule>, frames: Seq<FrameMetadata>) -> Map<
    Seq<char>,
    MonitorSchedule,
>
    decreases frames.len(),
{
    if frames.len() == 0 {
        start
    } else {
        let before = schedules_after(start, frames.drop_last());
        let frame = frames.last();
        before.insert(frame.monitor_id.0@, schedule_after(schedule_in(before, frame.monitor_id.0@), frame))
    }
}

/// The schedule one monitor has after its own frames, in order: none before its first
/// frame, which runs both engines.
pub open spec fn monitor_history(frames: Seq<FrameMetadata>) -> Option<MonitorSchedule>
    decreases frames.len(),
{
    if frames.len() == 0 {
        None
    } else {
        Some(schedule_after(monitor_history(frames.drop_last()), frames.last()))
    }
}

/// The frames of one monitor.
pub open spec fn of_monitor(id: Seq<char>) -> spec_fn(FrameMetadata) -> bool {
    |f: FrameMetadata| f.monitor_id.0@ == id
}

/// Monitors have independent schedules: after any history of frames selected by a fresh
/// scheduler, a monitor's schedule is what its own frames alone give, the frames of other
/// monitors ignored; so the work chosen for its next frame depends on its own history only.
pub proof fn lemma_monitors_have_independent_histories(frames: Seq<FrameMetadata>, id: Seq<char>)
    ensures
        schedule_in(schedules_after(Map::empty(), frames), id) == monitor_history(frames.filter(of_monitor(id))),
    decreases frames.len(),
{
    reveal_with_fuel(Seq::filter, 1);
    let p = of_monitor(id);
    if frames.len() > 0 {
        let rest = frames.drop_last();
        let last = frames.last();
        lemma_monitors_have_independent_histories(rest, id);
        let before = schedules_after(Map::empty(), rest);
        if p(last) {
            assert(frames.filter(p) == rest.filter(p).push(last));
            assert(frames.filter(p).drop_last() =~= rest.filter(p));
        } else {
            assert(frames.filter(p) == rest.filter(p));
            assert(last.monitor_id.0@ != id);
            assert(schedules_after(Map::empty(), frames) == before.insert(
                last.monitor_id.0@,
                schedule_after(schedule_in(before, last.monitor_id.0@), last),
            ));
        }
    } else {
        assert(frames.filter(p) =~= Seq::<FrameMetadata>::empty());
    }
}

/// Frame `i` of a monitor's own frames ran the image engine.
pub open spec fn ran_image(frames: Seq<FrameMetadata>, i: int) -> bool {
    work_for(monitor_history(frames.take(i)), frames[i]).run_image
}

/// Frame `i` of a monitor's own frames ran OCR.
pub open spec fn ran_ocr(frames: Seq<FrameMetadata>, i: int) -> bool {
    work_for(monitor_history(frames.take(i)), frames[i]).run_ocr
}

/// After a monitor's own frames, its schedule holds the time of the last frame that ran the
/// image engine, and the time and fingerprint of the last frame that ran OCR; the first
/// frame runs both.
pub proof fn lemma_history_records_the_last_runs(frames: Seq<FrameMetadata>)
    requires
        frames.len() > 0,
    ensures
        ran_image(frames, 0) && ran_ocr(frames, 0),
        monitor_history(frames) is Some,
        exists|i: int|
            0 <= i < frames.len() && ran_image(frames, i) && monitor_history(frames)->0.image_at_ms
                == frames[i].captured_at_ms && forall|j: int| i < j < frames.len() ==> !ran_image(frames, j),
        exists|i: int|
            0 <= i < frames.len() && ran_ocr(frames, i) && monitor_history(frames)->0.ocr_at_ms
                == frames[i].captured_at_ms && monitor_history(frames)->0.ocr_fingerprint == frames[i].fingerprint
                && forall|j: int| i < j < frames.len() ==> !ran_ocr(frames, j),
    decreases frames.len(),
{
    let n = frames.len() - 1;
    let rest = frames.drop_last();
    assert(frames.take(0) =~= Seq::<FrameMetadata>::empty());
    assert(frames.take(n) =~= rest);
    if n == 0 {
        assert(ran_image(frames, 0) && ran_ocr(frames, 0));
    } else {
        lemma_history_records_the_last_runs(rest);
        assert(rest.take(0) =~= Seq::<FrameMetadata>::empty());
        assert forall|j: int| 0 <= j < n implies #[trigger] ran_image(frames, j) == ran_image(rest, j) by {
            assert(frames.take(j) =~= rest.take(j));
            assert(frames[j] == rest[j]);
        }
        assert forall|j: int| 0 <= j < n implies #[trigger] ran_ocr(frames, j) == ran_ocr(rest, j) by {
            assert(frames.take(j) =~= rest.take(j));
            assert(frames[j] == rest[j]);
        }
        assert(ran_image(frames, 0) && ran_ocr(frames, 0));
        let last = frames[n];
        if !ran_image(frames, n) {
            let i = choose|i: int|
                0 <= i < rest.len() && ran_image(rest, i) && monitor_history(rest)->0.image_at_ms
                    == rest[i].captured_at_ms && forall|j: int| i < j < rest.len() ==> !ran_image(rest, j);
            assert(ran_image(frames, i) && monitor_history(frames)->0.image_at_ms == frames[i].captured_at_ms);
            assert forall|j: int| i < j < frames.len() implies !ran_image(frames, j) by {
                if j < n {
                    assert(ran_image(frames, j) == ran_image(rest, j));
                }
            }
        }
        if !ran_ocr(frames, n) {
            let i = choose|i: int|
                0 <= i < rest.len() && ran_ocr(rest, i) && monitor_history(rest)->0.ocr_at_ms == rest[i].captured_at_ms
                    && monitor_history(rest)->0.ocr_fingerprint == rest[i].fingerprint && forall|j: int|
                    i < j < rest.len() ==> !ran_ocr(rest, j);
            assert(ran_ocr(frames, i) && monitor_history(frames)->0.ocr_at_ms == frames[i].captured_at_ms);
            assert forall|j: int| i < j < frames.len() implies !ran_ocr(frames, j) by {
                if j < n {
                    assert(ran_ocr(frames, j) == ran_ocr(rest, j));
                }
            }
        }
    }
}

/// The work a fresh scheduler chooses for `frame` after the history `frames`: what the
/// frame's monitor's own earlier frames give.
pub proof fn lemma_work_after_history(frames: Seq<FrameMetadata>, frame: FrameMetadata)
    ensures
        work_for(schedule_in(schedules_after(Map::empty(), frames), frame.monitor_id.0@), frame) == work_for(
            monitor_history(frames.filter(of_monitor(frame.monitor_id.0@))),
            frame,
        ),
{
    lemma_monitors_have_independent_histories(frames, frame.monitor_id.0@);
}

/// A prepared frame and the work chosen for it.
pub struct ScheduledFrame {
    pub frame: PreparedFrame,
    pub work: FrameWork,
}

/// Prepares captured frames and schedules the engines for them.
pub struct FramePipeline {
    preparer: FramePreparer,
    scheduler: FrameScheduler,
}

impl FramePipeline {
    pub closed spec fn wf(&self) -> bool {
        self.scheduler.wf()
    }

    pub closed spec fn schedules(&self) -> Map<Seq<char>, MonitorSchedule> {
        self.scheduler.schedules()
    }

    /// The longest edge frames are prepared at.
    pub closed spec fn maximum_edge(&self) -> u32 {
        self.preparer.spec_config().spec_maximum_edge()
    }

    /// Whether a frame of `width` by `height` pixels prepares: its prepared buffer fits in
    /// memory.
    pub open spec fn prepares(&self, width: u32, height: u32) -> bool {
        let (tw, th) = target_edges(self.maximum_edge() as nat, width as nat, height as nat);
        tw * 4 * th <= usize::MAX
    }

    /// A pipeline with the default preparation size and no monitor seen.
    pub fn new() -> (p: Self)
        ensures
            p.wf(),
            p.schedules() == Map::<Seq<char>, MonitorSchedule>::empty(),
            p.maximum_edge() == DEFAULT_MAXIMUM_EDGE,
    {
        FramePipeline { preparer: FramePreparer::default(), scheduler: FrameScheduler::new() }
    }

    /// Prepares `input`, then schedules the engines for the prepared frame.
    pub fn process(&mut self, input: BgraFrame) -> (r: Result<ScheduledFrame, FrameError>)
        requires
            old(self).wf(),
        ensures
            final(self).wf(),
            final(self).maximum_edge() == old(self).maximum_edge(),
            r is Ok <== old(self).prepares(
                input.spec_dimensions().spec_width(),
                input.spec_dimensions().spec_height(),
            ),
            match r {
                Ok(s) => {
                    let id = s.frame.spec_monitor_id().0@;
                    let metadata = FrameMetadata {
                        monitor_id: s.frame.spec_monitor_id(),
                        captured_at_ms: s.frame.spec_captured_at_ms(),
                        fingerprint: s.frame.spec_fingerprint(),
                    };
                    let previous = if old(self).schedules().contains_key(id) {
                        Some(old(self).schedules()[id])
                    } else {
                        None
                    };
                    &&& s.frame.spec_monitor_id() == input.spec_monitor_id()
                    &&& s.frame.spec_captured_at_ms() == input.spec_captured_at_ms()
                    &&& (s.frame.spec_dimensions().spec_width() as nat, s.frame.spec_dimensions().spec_height()
                        as nat) == target_edges(
                        old(self).maximum_edge() as nat,
                        input.spec_dimensions().spec_width() as nat,
                        input.spec_dimensions().spec_height() as nat,
                    )
                    &&& s.work == work_for(previous, metadata)
                    &&& final(self).schedules() == old(self).schedules().insert(
                        id,
                        schedule_after(previous, metadata),
                    )
                },
                Err(e) => {
                    &&& e == FrameError::ArithmeticOverflow
                    &&& !old(self).prepares(
                        input.spec_dimensions().spec_width(),
                        input.spec_dimensions().spec_height(),
                    )
                    &&& final(self).schedules() == old(self).schedules()
                },
            },
    {
        let frame = self.preparer.prepare(input)?;
        let work = self.scheduler.select(
            FrameMetadata {
                monitor_id: frame.monitor_id().clone(),
                captured_at_ms: frame.captured_at_ms(),
                fingerprint: frame.fingerprint(),
            },
        );
        Ok(ScheduledFrame { frame, work })
    }
}

impl Default for FramePipeline {
    fn default() -> (p: Self)
        ensures
            p.wf(),
            p.schedules() == Map::<Seq<char>, MonitorSchedule>::empty(),
            p.maximum_edge() == DEFAULT_MAXIMUM_EDGE,
    {
        FramePipeline::new()
    }
}

} // verus!
