//! The decisions of the periodic descriptor-usage monitor.
//!
//! Once a minute the driver samples the number of open descriptors and the
//! soft limit. A sample where either is unknown ends monitoring; a zero limit
//! is skipped. Otherwise the usage percentage is recorded: the peak is kept,
//! every sixtieth recorded sample is logged at info level with a breakdown by
//! descriptor type, and a warning is raised once per threshold (50%, 75%,
//! 90%) crossed, re-armed only after usage falls below 40%.

use vstd::prelude::*;

verus! {

/// Percentages at which a warning is raised, in ascending order.
pub const WARN_LOW: u8 = 50;
pub const WARN_MID: u8 = 75;
pub const WARN_HIGH: u8 = 90;
/// Usage below this percentage re-arms every warning.
pub const REARM_BELOW: u8 = 40;
/// Every this many recorded samples, usage is logged at info level.
pub const INFO_EVERY: u64 = 60;

/// What to do with one sample of (open descriptors, soft limit).
#[derive(PartialEq, Eq, Structural, Clone, Copy, Debug)]
pub enum Sample {
    /// Usage is not observable: monitoring ends.
    Stop,
    /// The limit is zero: nothing is recorded for this sample.
    Skip,
    /// Record this many open descriptors against this limit.
    Record { open: u64, limit: u64 },
}

/// The classification of a sample, as `classify_sample` computes it.
pub open spec fn sample_of(open_fds: Option<u64>, limit: Option<u64>) -> Sample {
    match (open_fds, limit) {
        (Some(open), Some(limit)) => if limit == 0 {
            Sample::Skip
        } else {
            Sample::Record { open, limit }
        },
        _ => Sample::Stop,
    }
}

/// Sampling in plain terms: monitoring stops exactly when the count or the
/// limit is unknown, a sample is skipped exactly when both are known and the
/// limit is zero, and every other sample is recorded with the count and the
/// limit read.
pub proof fn lemma_sample_in_plain_terms(open_fds: Option<u64>, limit: Option<u64>)
    ensures
        sample_of(open_fds, limit) == Sample::Stop <==> (open_fds is None || limit is None),
        sample_of(open_fds, limit) == Sample::Skip <==> (open_fds is Some && limit == Some(0u64)),
        forall|o: u64, l: u64|
            open_fds == Some(o) && limit == Some(l) && l != 0 ==> #[trigger] sample_of(
                Some(o),
                Some(l),
            ) == (Sample::Record { open: o, limit: l }),
{
}

/// Decides what to do with one sample of the descriptor count and limit.
pub fn classify_sample(open_fds: Option<u64>, limit: Option<u64>) -> (sample: Sample)
    ensures
        sample == sample_of(open_fds, limit),
        open_fds is None || limit is None ==> sample == Sample::Stop,
        open_fds is Some && limit == Some(0u64) ==> sample == Sample::Skip,
        forall|o: u64, l: u64|
            open_fds == Some(o) && limit == Some(l) && l != 0 ==> sample == (Sample::Record {
                open: o,
                limit: l,
            }),
{
    proof {
        lemma_sample_in_plain_terms(open_fds, limit);
    }
    match (open_fds, limit) {
        (Some(open), Some(limit)) => if limit == 0 {
            Sample::Skip
        } else {
            Sample::Record { open, limit }
        },
        _ => Sample::Stop,
    }
}

/// The warning levels the monitor can be in: none yet, or the highest
/// threshold warned about since the last re-arm.
pub open spec fn is_warn_level(level: u8) -> bool {
    level == 0 || level == WARN_LOW || level == WARN_MID || level == WARN_HIGH
}

/// Whether `threshold` is one of the warning thresholds.
pub open spec fn is_threshold(threshold: u8) -> bool {
    threshold == WARN_LOW || threshold == WARN_MID || threshold == WARN_HIGH
}

/// Whether a sample at `pct` percent warns about `threshold`, given the
/// level already warned about.
pub open spec fn crosses(warned_at: u8, pct: u8, threshold: u8) -> bool {
    warned_at < threshold && threshold <= pct
}

/// The thresholds a sample at `pct` percent warns about, in ascending order.
pub open spec fn crossed_thresholds(warned_at: u8, pct: u8) -> Seq<u8> {
    (if crosses(warned_at, pct, WARN_LOW) {
        seq![WARN_LOW]
    } else {
        Seq::empty()
    }) + (if crosses(warned_at, pct, WARN_MID) {
        seq![WARN_MID]
    } else {
        Seq::empty()
    }) + (if crosses(warned_at, pct, WARN_HIGH) {
        seq![WARN_HIGH]
    } else {
        Seq::empty()
    })
}

/// The warning level after a sample at `pct` percent.
pub open spec fn next_warn_level(warned_at: u8, pct: u8) -> u8 {
    if pct < REARM_BELOW {
        0
    } else if crosses(warned_at, pct, WARN_HIGH) {
        WARN_HIGH
    } else if crosses(warned_at, pct, WARN_MID) {
        WARN_MID
    } else if crosses(warned_at, pct, WARN_LOW) {
        WARN_LOW
    } else {
        warned_at
    }
}

/// The larger of two counts.
pub open spec fn max_u64(a: u64, b: u64) -> u64 {
    if a < b {
        b
    } else {
        a
    }
}

/// The abstract state of the monitor between samples.
#[derive(PartialEq, Eq, Structural, Clone, Copy, Debug)]
pub struct MonitorState {
    /// The highest threshold warned about since the last re-arm, or 0.
    pub warned_at: u8,
    /// The most descriptors seen open in any recorded sample.
    pub peak: u64,
    /// How many samples have been recorded.
    pub ticks: u64,
}

/// The monitor's state between samples; its warning level is always one of
/// the levels.
pub struct FdMonitor {
    warned_at: u8,
    peak: u64,
    ticks: u64,
}

/// What the driver should log for one recorded sample.
pub struct TickReport {
    /// Log usage at info level together with the breakdown by type (every
    /// sixtieth recorded sample); otherwise at debug level.
    pub hourly: bool,
    /// The thresholds crossed by this sample, in ascending order: one
    /// warning, with the breakdown by type, for each.
    pub warnings: Vec<u8>,
}

impl View for FdMonitor {
    type V = MonitorState;

    closed spec fn view(&self) -> MonitorState {
        MonitorState { warned_at: self.warned_at, peak: self.peak, ticks: self.ticks }
    }
}

impl FdMonitor {
    #[verifier::type_invariant]
    spec fn inv(self) -> bool {
        is_warn_level(self.warned_at)
    }

    /// The warning level of any monitor is one of the levels.
    pub fn warn_level(&self) -> (level: u8)
        ensures
            level == self@.warned_at,
            is_warn_level(level),
    {
        proof {
            use_type_invariant(self);
        }
        self.warned_at
    }

    /// The most descriptors seen open in any recorded sample.
    pub fn peak(&self) -> (peak: u64)
        ensures
            peak == self@.peak,
    {
        self.peak
    }

    /// How many samples have been recorded.
    pub fn ticks(&self) -> (ticks: u64)
        ensures
            ticks == self@.ticks,
    {
        self.ticks
    }

    /// A monitor that has recorded nothing and warned about nothing.
    pub fn new() -> (m: FdMonitor)
        ensures
            m@ == (MonitorState { warned_at: 0, peak: 0, ticks: 0 }),
    {
        FdMonitor { warned_at: 0, peak: 0, ticks: 0 }
    }

    /// Records a sample of `open` descriptors at `pct` percent of the limit.
    pub fn record(&mut self, open: u64, pct: u8) -> (report: TickReport)
        requires
            old(self)@.ticks < u64::MAX,
        ensures
            final(self)@.peak == max_u64(old(self)@.peak, open),
            final(self)@.ticks == old(self)@.ticks + 1,
            final(self)@.warned_at == next_warn_level(old(self)@.warned_at, pct),
            is_warn_level(final(self)@.warned_at),
            report.hourly == (final(self)@.ticks % INFO_EVERY == 0),
            report.warnings@ == crossed_thresholds(old(self)@.warned_at, pct),
    {
        proof {
            use_type_invariant(&*self);
        }
        let peak = if open > self.peak {
            open
        } else {
            self.peak
        };
        let ticks = self.ticks + 1;
        let hourly = ticks % INFO_EVERY == 0;
        let start = self.warned_at;
        let mut level = start;
        let mut warnings: Vec<u8> = Vec::new();
        if pct >= WARN_LOW && level < WARN_LOW {
            level = WARN_LOW;
            warnings.push(WARN_LOW);
        }
        if pct >= WARN_MID && level < WARN_MID {
            level = WARN_MID;
            warnings.push(WARN_MID);
        }
        if pct >= WARN_HIGH && level < WARN_HIGH {
            level = WARN_HIGH;
            warnings.push(WARN_HIGH);
        }
        if pct < REARM_BELOW {
            level = 0;
        }
        assert(warnings@ =~= crossed_thresholds(start, pct));
        *self = FdMonitor { warned_at: level, peak, ticks };
        TickReport { hourly, warnings }
    }
}

/// The warning level after recording the samples `pcts` in order, starting
/// from level `start`.
pub open spec fn level_after(start: u8, pcts: Seq<u8>) -> u8
    decreases pcts.len(),
{
    if pcts.len() == 0 {
        start
    } else {
        next_warn_level(level_after(start, pcts.drop_last()), pcts.last())
    }
}

/// A sample warns about exactly the thresholds it crosses.
pub proof fn lemma_crossed_exactly(warned_at: u8, pct: u8, threshold: u8)
    ensures
        crossed_thresholds(warned_at, pct).contains(threshold) <==> (is_threshold(threshold)
            && crosses(warned_at, pct, threshold)),
{
    let s = crossed_thresholds(warned_at, pct);
    if is_threshold(threshold) && crosses(warned_at, pct, threshold) {
        if threshold == WARN_LOW {
            assert(s[0] == threshold);
        } else if threshold == WARN_MID {
            let i: int = if crosses(warned_at, pct, WARN_LOW) { 1 } else { 0 };
            assert(s[i] == threshold);
        } else {
            let i: int = (if crosses(warned_at, pct, WARN_LOW) { 1int } else { 0int }) + (if crosses(
                warned_at,
                pct,
                WARN_MID,
            ) {
                1int
            } else {
                0int
            });
            assert(s[i] == threshold);
        }
    }
    if s.contains(threshold) {
        let i = choose|i: int| 0 <= i < s.len() && s[i] == threshold;
        assert(is_threshold(s[i]) && crosses(warned_at, pct, s[i]));
    }
}

/// The monitor's rules in plain terms: warnings at 50%, 75% and 90%,
/// re-arming below 40%, an info report every 60 samples; a sample warns
/// about exactly the thresholds above the level already warned about and at
/// most its percentage, in ascending order; below 40% the level resets to
/// none, otherwise it becomes the highest threshold just warned about, or
/// stays; and the peak is the larger of the old peak and the new count.
pub proof fn lemma_monitor_in_plain_terms(warned_at: u8, pct: u8, a: u64, b: u64)
    ensures
        WARN_LOW == 50 && WARN_MID == 75 && WARN_HIGH == 90,
        REARM_BELOW == 40 && INFO_EVERY == 60,
        forall|t: u8|
            crossed_thresholds(warned_at, pct).contains(t) <==> ((t == 50 || t == 75 || t == 90)
                && warned_at < t && t <= pct),
        forall|i: int, j: int|
            0 <= i < j < crossed_thresholds(warned_at, pct).len() ==> crossed_thresholds(
                warned_at,
                pct,
            )[i] < crossed_thresholds(warned_at, pct)[j],
        pct < 40 ==> next_warn_level(warned_at, pct) == 0,
        pct >= 40 && crossed_thresholds(warned_at, pct).len() == 0 ==> next_warn_level(
            warned_at,
            pct,
        ) == warned_at,
        pct >= 40 && crossed_thresholds(warned_at, pct).len() > 0 ==> next_warn_level(
            warned_at,
            pct,
        ) == crossed_thresholds(warned_at, pct).last(),
        max_u64(a, b) >= a && max_u64(a, b) >= b,
        max_u64(a, b) == a || max_u64(a, b) == b,
{
    assert forall|t: u8|
        crossed_thresholds(warned_at, pct).contains(t) <==> ((t == 50 || t == 75 || t == 90)
            && warned_at < t && t <= pct) by {
        lemma_crossed_exactly(warned_at, pct, t);
    }
}

/// Valid levels stay valid, and while usage is at or above the re-arm
/// percentage the level never goes down; a crossed threshold is reached.
pub proof fn lemma_next_level(warned_at: u8, pct: u8)
    requires
        is_warn_level(warned_at),
    ensures
        is_warn_level(next_warn_level(warned_at, pct)),
        pct >= REARM_BELOW ==> next_warn_level(warned_at, pct) >= warned_at,
        forall|t: u8|
            is_threshold(t) && crosses(warned_at, pct, t) ==> next_warn_level(warned_at, pct)
                >= t,
{
}

/// Below the lowest threshold nothing is warned about.
pub proof fn lemma_quiet_below_low(warned_at: u8, pct: u8)
    requires
        pct < WARN_LOW,
    ensures
        crossed_thresholds(warned_at, pct) == Seq::<u8>::empty(),
{
    assert(crossed_thresholds(warned_at, pct) =~= Seq::<u8>::empty());
}

/// Warn once per threshold crossed rather than every minute: after a sample
/// that warns about `threshold`, no later sample warns about it again as
/// long as every sample since stayed at or above the re-arm percentage.
pub proof fn lemma_warns_once_until_rearm(start: u8, pcts: Seq<u8>, i: int, j: int, threshold: u8)
    requires
        is_warn_level(start),
        0 <= i < j < pcts.len(),
        crossed_thresholds(level_after(start, pcts.take(i)), pcts[i]).contains(threshold),
        forall|k: int| i < k < j ==> pcts[k] >= REARM_BELOW,
    ensures
        !crossed_thresholds(level_after(start, pcts.take(j)), pcts[j]).contains(threshold),
{
    lemma_level_valid(start, pcts.take(i));
    lemma_crossed_exactly(level_after(start, pcts.take(i)), pcts[i], threshold);
    lemma_next_level(level_after(start, pcts.take(i)), pcts[i]);
    assert(pcts.take(i + 1).drop_last() =~= pcts.take(i));
    lemma_level_stays_above(start, pcts, i + 1, j, threshold);
    lemma_crossed_exactly(level_after(start, pcts.take(j)), pcts[j], threshold);
}

/// Once the level is at least `threshold` after the first `from` samples,
/// it stays so through sample `to` while no sample in between re-arms.
proof fn lemma_level_stays_above(start: u8, pcts: Seq<u8>, from: int, to: int, threshold: u8)
    requires
        is_warn_level(start),
        0 <= from <= to <= pcts.len(),
        level_after(start, pcts.take(from)) >= threshold,
        forall|k: int| from <= k < to ==> pcts[k] >= REARM_BELOW,
    ensures
        level_after(start, pcts.take(to)) >= threshold,
    decreases to - from,
{
    if from < to {
        lemma_level_stays_above(start, pcts, from, to - 1, threshold);
        lemma_level_valid(start, pcts.take(to - 1));
        lemma_next_level(level_after(start, pcts.take(to - 1)), pcts[to - 1]);
        assert(pcts.take(to).drop_last() =~= pcts.take(to - 1));
    }
}

/// Every level reached from a valid level is valid.
proof fn lemma_level_valid(start: u8, pcts: Seq<u8>)
    requires
        is_warn_level(start),
    ensures
        is_warn_level(level_after(start, pcts)),
    decreases pcts.len(),
{
    if pcts.len() > 0 {
        lemma_level_valid(start, pcts.drop_last());
        lemma_next_level(level_after(start, pcts.drop_last()), pcts.last());
    }
}

/// A sample below the re-arm percentage re-arms every warning: the next
/// sample at or above a threshold warns about it.
pub proof fn lemma_rearm(warned_at: u8, low: u8, pct: u8, threshold: u8)
    requires
        low < REARM_BELOW,
        is_threshold(threshold),
        threshold <= pct,
    ensures
        next_warn_level(warned_at, low) == 0,
        crossed_thresholds(next_warn_level(warned_at, low), pct).contains(threshold),
{
    lemma_crossed_exactly(0, pct, threshold);
}


/// The warning level of a new monitor just before it records sample `k` of
/// the percentages `pcts`.
pub open spec fn level_before(pcts: Seq<u8>, k: int) -> u8 {
    level_after(0, pcts.take(k))
}

/// Whether a new monitor, fed the percentages `pcts` in order, warns about
/// `threshold` when it records sample `k`.
pub open spec fn warns_at(pcts: Seq<u8>, k: int, threshold: u8) -> bool {
    crossed_thresholds(level_before(pcts, k), pcts[k]).contains(threshold)
}

/// Whether sample `k` warns about some threshold at or above `threshold`.
pub open spec fn warns_at_or_above(pcts: Seq<u8>, k: int, threshold: u8) -> bool {
    ||| (WARN_LOW >= threshold && warns_at(pcts, k, WARN_LOW))
    ||| (WARN_MID >= threshold && warns_at(pcts, k, WARN_MID))
    ||| (WARN_HIGH >= threshold && warns_at(pcts, k, WARN_HIGH))
}

/// The index of the last sample before sample `k` that was below the re-arm
/// percentage, or -1 when there was none.
pub open spec fn last_rearm(pcts: Seq<u8>, k: int) -> int
    decreases k,
{
    if k <= 0 {
        -1
    } else if pcts[k - 1] < REARM_BELOW {
        k - 1
    } else {
        last_rearm(pcts, k - 1)
    }
}

/// Whether, since the last sample below the re-arm percentage (or since the
/// start), some sample before sample `k` warned about a threshold at or
/// above `threshold`.
pub open spec fn warned_since_rearm(pcts: Seq<u8>, k: int, threshold: u8) -> bool {
    exists|j: int| last_rearm(pcts, k) < j < k && #[trigger] warns_at_or_above(pcts, j, threshold)
}

/// The last re-arm before sample `k` comes before it.
proof fn lemma_last_rearm_before(pcts: Seq<u8>, k: int)
    ensures
        last_rearm(pcts, k) < k || k <= 0,
        -1 <= last_rearm(pcts, k),
    decreases k,
{
    if k > 0 {
        lemma_last_rearm_before(pcts, k - 1);
    }
}

/// The warning law of the monitor: sample `k` warns about threshold `t`
/// exactly when its percentage is at least `t` and no sample since the last
/// one below the re-arm percentage warned about `t` or a higher threshold.
/// So a threshold never warns twice without a sample below 40% in between.
pub proof fn lemma_warning_law(pcts: Seq<u8>, k: int, threshold: u8)
    requires
        0 <= k < pcts.len(),
        is_threshold(threshold),
    ensures
        warns_at(pcts, k, threshold) <==> (threshold <= pcts[k] && !warned_since_rearm(
            pcts,
            k,
            threshold,
        )),
{
    lemma_level_tracks_warnings(pcts, k);
    lemma_crossed_exactly(level_before(pcts, k), pcts[k], threshold);
}

/// The level before sample `k` is at least a threshold exactly when a
/// warning at or above that threshold was given since the last re-arm.
proof fn lemma_level_tracks_warnings(pcts: Seq<u8>, k: int)
    requires
        0 <= k <= pcts.len(),
    ensures
        is_warn_level(level_before(pcts, k)),
        forall|t: u8|
            is_threshold(t) ==> (level_before(pcts, k) >= t <==> warned_since_rearm(pcts, k, t)),
    decreases k,
{
    if k == 0 {
        assert(pcts.take(0) =~= Seq::<u8>::empty());
        assert forall|t: u8| is_threshold(t) implies !warned_since_rearm(pcts, 0, t) by {}
    } else {
        let p = k - 1;
        lemma_level_tracks_warnings(pcts, p);
        assert(pcts.take(k).drop_last() =~= pcts.take(p));
        let w = level_before(pcts, p);
        let pct = pcts[p];
        assert(level_before(pcts, k) == next_warn_level(w, pct));
        lemma_next_level(w, pct);
        lemma_crossed_exactly(w, pct, WARN_LOW);
        lemma_crossed_exactly(w, pct, WARN_MID);
        lemma_crossed_exactly(w, pct, WARN_HIGH);
        lemma_last_rearm_before(pcts, p);
        assert forall|t: u8| is_threshold(t) implies (level_before(pcts, k) >= t
            <==> warned_since_rearm(pcts, k, t)) by {
            if pct < REARM_BELOW {
                assert(last_rearm(pcts, k) == p);
                assert(!warned_since_rearm(pcts, k, t));
            } else {
                assert(last_rearm(pcts, k) == last_rearm(pcts, p));
                if warned_since_rearm(pcts, k, t) {
                    let j = choose|j: int|
                        last_rearm(pcts, k) < j < k && #[trigger] warns_at_or_above(pcts, j, t);
                    if j < p {
                        assert(warned_since_rearm(pcts, p, t));
                    }
                }
                if warned_since_rearm(pcts, p, t) {
                    let j = choose|j: int|
                        last_rearm(pcts, p) < j < p && #[trigger] warns_at_or_above(pcts, j, t);
                    assert(last_rearm(pcts, k) < j < k);
                }
                if warns_at_or_above(pcts, p, t) {
                    assert(last_rearm(pcts, k) < p < k);
                }
            }
        }
    }
}

/// The peak after recording the counts `opens` in order, starting from
/// `start`.
pub open spec fn peak_after(start: u64, opens: Seq<u64>) -> u64
    decreases opens.len(),
{
    if opens.len() == 0 {
        start
    } else {
        max_u64(peak_after(start, opens.drop_last()), opens.last())
    }
}

/// The peak law of the monitor: the peak of a new monitor after its first
/// samples is the largest count among them (0 before any), and it never
/// decreases from one sample to a later one.
pub proof fn lemma_peak_law(opens: Seq<u64>, j: int, k: int)
    requires
        0 <= j <= k <= opens.len(),
    ensures
        forall|i: int| 0 <= i < k ==> opens[i] <= peak_after(0, opens.take(k)),
        k == 0 ==> peak_after(0, opens.take(k)) == 0,
        k > 0 ==> exists|i: int| 0 <= i < k && opens[i] == peak_after(0, opens.take(k)),
        peak_after(0, opens.take(j)) <= peak_after(0, opens.take(k)),
    decreases k,
{
    if k > 0 {
        assert(opens.take(k).drop_last() =~= opens.take(k - 1));
        if j < k {
            lemma_peak_law(opens, j, k - 1);
        } else {
            lemma_peak_law(opens, k - 1, k - 1);
        }
        if peak_after(0, opens.take(k - 1)) >= opens[k - 1] && k > 1 {
            let i = choose|i: int| 0 <= i < k - 1 && opens[i] == peak_after(0, opens.take(k - 1));
            assert(opens[i] == peak_after(0, opens.take(k)));
        }
    } else {
        assert(opens.take(0) =~= Seq::<u64>::empty());
    }
}

} // verus!
