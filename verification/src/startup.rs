use vstd::prelude::*;

verus! {

/// Lists the active monitors.
pub trait MonitorInventory {
    type Monitor;

    type Error;

    fn active_monitors(&self) -> Result<Vec<Self::Monitor>, Self::Error>;
}

/// Prepares screen capture for one monitor.
pub trait CaptureTargetFactory<M> {
    type Error;

    fn create(&self, monitor: &M) -> Result<(), Self::Error>;
}

/// How far capture could start.
#[derive(Debug, Clone, Copy, PartialEq, Eq, Structural)]
pub enum StartupStatus {
    Ready,
    Degraded,
    Unavailable,
}

/// The word each status is printed as.
pub open spec fn status_word(status: StartupStatus) -> Seq<char> {
    match status {
        StartupStatus::Ready => "ready"@,
        StartupStatus::Degraded => "degraded"@,
        StartupStatus::Unavailable => "unavailable"@,
    }
}

impl StartupStatus {
    /// The word this status is printed as.
    pub fn as_str(&self) -> (word: &'static str)
        ensures
            word@ == status_word(*self),
    {
        match self {
            StartupStatus::Ready => "ready",
            StartupStatus::Degraded => "degraded",
            StartupStatus::Unavailable => "unavailable",
        }
    }
}

/// The result of preparing capture on every monitor.
#[derive(Debug, Clone, Copy, PartialEq, Eq, Structural)]
pub struct StartupSummary {
    pub status: StartupStatus,
    pub monitor_count: usize,
    pub wgc_ready_count: usize,
    pub wgc_failed_count: usize,
}

/// The status for `ready` prepared monitors out of `monitors`: unavailable with none,
/// ready with all, degraded otherwise.
pub open spec fn status_of(monitors: int, ready: int) -> StartupStatus {
    if monitors == 0 || ready == 0 {
        StartupStatus::Unavailable
    } else if ready == monitors {
        StartupStatus::Ready
    } else {
        StartupStatus::Degraded
    }
}

impl StartupSummary {
    /// The summary for `wgc_ready_count` prepared monitors out of `monitor_count`.
    pub fn from_counts(monitor_count: usize, wgc_ready_count: usize) -> (summary: Self)
        ensures
            summary.status == status_of(monitor_count as int, wgc_ready_count as int),
            summary.monitor_count == monitor_count,
            summary.wgc_ready_count == wgc_ready_count,
            summary.wgc_failed_count == (if wgc_ready_count <= monitor_count {
                monitor_count - wgc_ready_count
            } else {
                0
            }),
    {
        let wgc_failed_count = monitor_count.saturating_sub(wgc_ready_count);
        let status = if monitor_count == 0 || wgc_ready_count == 0 {
            StartupStatus::Unavailable
        } else if wgc_ready_count == monitor_count {
            StartupStatus::Ready
        } else {
            StartupStatus::Degraded
        };
        StartupSummary { status, monitor_count, wgc_ready_count, wgc_failed_count }
    }

    /// The summary where the monitors could not be listed.
    pub fn unavailable() -> (summary: Self)
        ensures
            summary.status == StartupStatus::Unavailable,
            summary.monitor_count == 0,
            summary.wgc_ready_count == 0,
            summary.wgc_failed_count == 0,
    {
        StartupSummary { status: StartupStatus::Unavailable, monitor_count: 0, wgc_ready_count: 0, wgc_failed_count: 0 }
    }
}

/// The summary where the monitors could not be listed.
pub open spec fn unlisted_summary() -> StartupSummary {
    StartupSummary { status: StartupStatus::Unavailable, monitor_count: 0, wgc_ready_count: 0, wgc_failed_count: 0 }
}

/// The summary of the per-monitor outcomes.
pub open spec fn summary_of(prepared: Seq<bool>) -> StartupSummary {
    StartupSummary {
        status: status_of(prepared.len() as int, count_true(prepared) as int),
        monitor_count: prepared.len() as usize,
        wgc_ready_count: count_true(prepared) as usize,
        wgc_failed_count: (prepared.len() - count_true(prepared)) as usize,
    }
}

/// How many monitors were prepared.
pub open spec fn count_true(prepared: Seq<bool>) -> nat
    decreases prepared.len(),
{
    if prepared.len() == 0 {
        0
    } else {
        count_true(prepared.drop_last()) + if prepared.last() {
            1nat
        } else {
            0nat
        }
    }
}

proof fn lemma_count_true_bounded(prepared: Seq<bool>)
    ensures
        count_true(prepared) <= prepared.len(),
    decreases prepared.len(),
{
    if prepared.len() > 0 {
        lemma_count_true_bounded(prepared.drop_last());
    }
}

impl StartupSummary {
    /// The summary of the per-monitor outcomes, `true` for each monitor on which capture was
    /// prepared.
    pub fn from_outcomes(prepared: &[bool]) -> (summary: Self)
        ensures
            summary.monitor_count == prepared@.len(),
            summary.wgc_ready_count == count_true(prepared@),
            summary.wgc_failed_count == prepared@.len() - count_true(prepared@),
            summary.status == status_of(prepared@.len() as int, count_true(prepared@) as int),
    {
        let mut ready: usize = 0;
        let mut i: usize = 0;
        while i < prepared.len()
            invariant
                i <= prepared@.len(),
                ready == count_true(prepared@.take(i as int)),
                ready <= i,
            decreases prepared@.len() - i,
        {
            assert(prepared@.take(i + 1).drop_last() =~= prepared@.take(i as int));
            if prepared[i] {
                ready = ready + 1;
            }
            i = i + 1;
        }
        assert(prepared@.take(prepared@.len() as int) =~= prepared@);
        StartupSummary::from_counts(prepared.len(), ready)
    }
}

/// Checks, before capture starts, on how many monitors capture can be prepared.
pub struct StartupProbe;

impl StartupProbe {
    /// Lists the monitors and tries to prepare capture on each. The summary is unavailable
    /// with no counts where listing fails; otherwise it counts the monitors, the prepared
    /// ones and the rest, and its status follows from those counts.
    pub fn run<I, F>(inventory: &I, factory: &F) -> (summary: StartupSummary)
        where
            I: MonitorInventory,
            F: CaptureTargetFactory<I::Monitor>,
        ensures
            summary.wgc_ready_count <= summary.monitor_count,
            summary.wgc_ready_count + summary.wgc_failed_count == summary.monitor_count,
            summary.status == status_of(summary.monitor_count as int, summary.wgc_ready_count as int),
            summary == unlisted_summary() || exists|prepared: Seq<bool>|
                summary == #[trigger] summary_of(prepared),
    {
        let monitors = match inventory.active_monitors() {
            Ok(monitors) => monitors,
            Err(_) => return StartupSummary::unavailable(),
        };
        let mut prepared: Vec<bool> = Vec::new();
        let mut i: usize = 0;
        while i < monitors.len()
            invariant
                i <= monitors@.len(),
                prepared@.len() == i,
            decreases monitors@.len() - i,
        {
            prepared.push(factory.create(&monitors[i]).is_ok());
            i = i + 1;
        }
        proof {
            lemma_count_true_bounded(prepared@);
        }
        let summary = StartupSummary::from_outcomes(prepared.as_slice());
        assert(summary == summary_of(prepared@));
        summary
    }
}

} // verus!
