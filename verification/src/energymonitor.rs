//! Energy telemetry: the collected-sample model, the collector protocol,
//! and the step-hold integrator that turns power samples into energy.
//!
//! Power is held in milliwatts and timestamps in milliseconds since the
//! epoch, so every quantity here is exact integer arithmetic; energies come
//! out in microwatt-milliseconds, i.e. microjoules. The socket that the
//! samples arrive on lives outside this crate; the functions here receive
//! the samples as plain values.

use vstd::prelude::*;

use crate::docker::{DockerError, DockerRunResult};

verus! {

/// One timestamped power reading from the telemetry source.
#[derive(Clone, Copy, Debug, PartialEq, Eq)]
pub struct EnergyMeasurement {
    /// Power in milliwatts.
    pub power_mw: u32,
    /// Sample time in milliseconds since the epoch.
    pub timestamp_ms: i64,
}

/// Width of one integration step, in milliseconds.
pub const STEP_SIZE_MS: i64 = 50;

/// How long one receive on the telemetry stream may take before the
/// session counts as stalled.
pub const TELEMETRY_RECV_TIMEOUT_MS: u64 = 5000;

/// The samples are in non-decreasing timestamp order. The collector
/// appends samples as they arrive, so a violation is a defect in the
/// telemetry source, not a recoverable condition.
pub open spec fn sorted_by_timestamp(ms: Seq<EnergyMeasurement>) -> bool {
    forall|i: int, j: int|
        0 <= i <= j < ms.len() ==> ms[i].timestamp_ms <= ms[j].timestamp_ms
}

/// Some sample was taken at or before time `t`, so a held reading exists
/// for a step starting at `t`.
pub open spec fn covered_at(ms: Seq<EnergyMeasurement>, t: int) -> bool {
    exists|i: int| 0 <= i < ms.len() && ms[i].timestamp_ms <= t
}

/// The reading held at time `t`: the power of the last sample in sequence
/// order whose timestamp is at or before `t`. Meaningful only when
/// `covered_at(ms, t)` holds.
pub open spec fn held_power(ms: Seq<EnergyMeasurement>, t: int) -> u32
    decreases ms.len(),
{
    if ms.len() == 0 {
        0
    } else if ms.last().timestamp_ms <= t {
        ms.last().power_mw
    } else {
        held_power(ms.drop_last(), t)
    }
}

/// Where the step that starts at `cur` ends: `STEP_SIZE_MS` later, clipped
/// to the window end.
pub open spec fn step_end(cur: int, end: int) -> int {
    if end - cur < STEP_SIZE_MS {
        end
    } else {
        cur + STEP_SIZE_MS
    }
}

/// Energy over `[cur, end)` by step-hold integration: each step
/// contributes the held power times the step length, in
/// milliwatt-milliseconds (microjoules).
pub open spec fn spec_energy(ms: Seq<EnergyMeasurement>, cur: int, end: int) -> int
    decreases end - cur,
{
    if end <= cur {
        0
    } else {
        held_power(ms, cur) * (step_end(cur, end) - cur) + spec_energy(
            ms,
            step_end(cur, end),
            end,
        )
    }
}

/// The error reported when some step of the window has no sample at or
/// before its start.
pub open spec fn coverage_violation_msg() -> Seq<char> {
    "Expected to find measurements for all steps in interval"@
}

/// Every step of the window `[cur, end)` has a held reading.
pub open spec fn covered_all_steps(ms: Seq<EnergyMeasurement>, cur: int, end: int) -> bool
    decreases end - cur,
{
    end <= cur || (covered_at(ms, cur) && covered_all_steps(ms, step_end(cur, end), end))
}

/// Law: a reading at or before the window's start serves every step of
/// the window, so checking the first step is checking them all.
pub proof fn lemma_first_step_coverage_suffices(
    ms: Seq<EnergyMeasurement>,
    start: int,
    end: int,
)
    requires
        end <= start || covered_at(ms, start),
    ensures
        covered_all_steps(ms, start, end),
    decreases end - start,
{
    if end > start {
        let se = step_end(start, end);
        lemma_covered_monotone(ms, start, se);
        lemma_first_step_coverage_suffices(ms, se, end);
    }
}

/// Coverage is monotone: a sample at or before `t` also serves any later
/// time.
pub proof fn lemma_covered_monotone(ms: Seq<EnergyMeasurement>, t1: int, t2: int)
    requires
        covered_at(ms, t1),
        t1 <= t2,
    ensures
        covered_at(ms, t2),
{
    let i = choose|i: int| 0 <= i < ms.len() && ms[i].timestamp_ms <= t1;
    assert(0 <= i < ms.len() && ms[i].timestamp_ms <= t2);
}

/// Law: when every sample lies strictly after a window's start, no sample
/// covers the window's first step, so integration over a non-empty window
/// must fail rather than hold a wrong reading.
pub proof fn lemma_all_samples_after_start_uncovered(ms: Seq<EnergyMeasurement>, start: int)
    requires
        forall|i: int| 0 <= i < ms.len() ==> ms[i].timestamp_ms > start,
    ensures
        !covered_at(ms, start),
{
}

/// Truncating a sequence whose dropped suffix lies after `t` changes
/// neither coverage at `t` nor the held reading.
proof fn lemma_held_power_prefix(ms: Seq<EnergyMeasurement>, t: int, j: int)
    requires
        0 <= j <= ms.len(),
        forall|k: int| j <= k < ms.len() ==> ms[k].timestamp_ms > t,
    ensures
        held_power(ms, t) == held_power(ms.take(j), t),
        covered_at(ms, t) <==> covered_at(ms.take(j), t),
    decreases ms.len() - j,
{
    if j == ms.len() {
        assert(ms.take(j) =~= ms);
    } else {
        lemma_held_power_prefix(ms.drop_last(), t, j);
        assert(ms.drop_last().take(j) =~= ms.take(j));
        if covered_at(ms, t) {
            let i = choose|i: int| 0 <= i < ms.len() && ms[i].timestamp_ms <= t;
            assert(i < j);
            assert(0 <= i < ms.drop_last().len() && ms.drop_last()[i].timestamp_ms <= t);
        }
        if covered_at(ms.drop_last(), t) {
            let i = choose|i: int|
                0 <= i < ms.drop_last().len() && ms.drop_last()[i].timestamp_ms <= t;
            assert(ms[i].timestamp_ms <= t);
        }
    }
}

/// The integral is bounded by the window length times the largest
/// representable power.
proof fn lemma_energy_bound(ms: Seq<EnergyMeasurement>, cur: int, end: int)
    requires
        cur <= end,
    ensures
        0 <= spec_energy(ms, cur, end) <= (end - cur) * (u32::MAX as int),
    decreases end - cur,
{
    if end <= cur {
    } else {
        let se = step_end(cur, end);
        lemma_energy_bound(ms, se, end);
        assert(held_power(ms, cur) * (se - cur) <= (u32::MAX as int) * (se - cur))
            by (nonlinear_arith)
            requires
                held_power(ms, cur) <= u32::MAX,
                se - cur >= 0,
        ;
        assert((u32::MAX as int) * (se - cur) + (end - se) * (u32::MAX as int) == (end - cur) * (
        u32::MAX as int)) by (nonlinear_arith);
        assert(held_power(ms, cur) * (se - cur) >= 0) by (nonlinear_arith)
            requires
                held_power(ms, cur) >= 0,
                se - cur >= 0,
        ;
    }
}

/// The accumulated samples of one telemetry session, ready to integrate.
pub struct EnergyMonitorResult {
    pub measurements: Vec<EnergyMeasurement>,
}

impl EnergyMonitorResult {
    /// Integrates the collected samples over the window
    /// `[start_ms, end_ms)`: the window is cut into `STEP_SIZE_MS` steps
    /// (the last clipped to the window end), each step is charged with the
    /// reading held at its start, and the step energies are summed. The
    /// result is in microjoules. Fails exactly when the window is
    /// non-empty and no sample covers its start.
    pub fn calculate_consumed_energy(&self, start_ms: i64, end_ms: i64) -> (r: Result<
        u128,
        String,
    >)
        requires
            sorted_by_timestamp(self.measurements@),
            end_ms - start_ms <= i64::MAX,
        ensures
            r is Ok <==> (end_ms <= start_ms || covered_at(
                self.measurements@,
                start_ms as int,
            )),
            r is Ok <==> covered_all_steps(self.measurements@, start_ms as int, end_ms as int),
            r matches Ok(e) ==> e == spec_energy(
                self.measurements@,
                start_ms as int,
                end_ms as int,
            ),
            r matches Err(m) ==> m@ == coverage_violation_msg(),
    {
        let ghost ms = self.measurements@;
        if end_ms <= start_ms {
            return Ok(0);
        }
        let mut cur: i64 = start_ms;
        let mut acc: u128 = 0;
        while cur < end_ms
            invariant
                sorted_by_timestamp(ms),
                ms == self.measurements@,
                end_ms - start_ms <= i64::MAX,
                start_ms <= cur <= end_ms,
                cur > start_ms ==> covered_at(ms, start_ms as int),
                acc <= (cur - start_ms) * (u32::MAX as int),
                spec_energy(ms, start_ms as int, end_ms as int) == acc + spec_energy(
                    ms,
                    cur as int,
                    end_ms as int,
                ),
            decreases end_ms - cur,
        {
            let held = held_power_at(&self.measurements, cur);
            match held {
                None => {
                    proof {
                        if covered_at(ms, start_ms as int) {
                            lemma_covered_monotone(ms, start_ms as int, cur as int);
                        }
                    }
                    return Err(
                        "Expected to find measurements for all steps in interval".to_owned(),
                    );
                },
                Some(p) => {
                    let step_e: i64 = if end_ms - cur < STEP_SIZE_MS {
                        end_ms
                    } else {
                        cur + STEP_SIZE_MS
                    };
                    let step_len: i64 = step_e - cur;
                    proof {
                        assert(step_e == step_end(cur as int, end_ms as int));
                        lemma_energy_bound(ms, step_e as int, end_ms as int);
                        assert((p as int) * (step_len as int) <= (step_len as int) * (
                        u32::MAX as int)) by (nonlinear_arith)
                            requires
                                0 <= p <= u32::MAX,
                                0 <= step_len,
                        ;
                        assert(acc + (p as int) * (step_len as int) <= (step_e - start_ms) * (
                        u32::MAX as int)) by (nonlinear_arith)
                            requires
                                acc <= (cur - start_ms) * (u32::MAX as int),
                                (p as int) * (step_len as int) <= (step_len as int) * (
                                u32::MAX as int),
                                step_e == cur + step_len,
                                0 <= step_len,
                                cur >= start_ms,
                        ;
                        assert((step_e - start_ms) * (u32::MAX as int) <= (i64::MAX as int) * (
                        u32::MAX as int)) by (nonlinear_arith)
                            requires
                                0 <= step_e - start_ms <= i64::MAX as int,
                        ;
                    }
                    acc = acc + (p as u128) * (step_len as u128);
                    cur = step_e;
                },
            }
        }
        proof {
            lemma_first_step_coverage_suffices(ms, start_ms as int, end_ms as int);
        }
        Ok(acc)
    }
}

/// Scans the samples from the most recent backwards for the reading held
/// at `t`, as the integrator's hold-last-known-reading rule asks.
fn held_power_at(ms: &Vec<EnergyMeasurement>, t: i64) -> (r: Option<u32>)
    ensures
        r matches Some(p) ==> covered_at(ms@, t as int) && p == held_power(ms@, t as int),
        r is None ==> !covered_at(ms@, t as int),
{
    let mut j = ms.len();
    while j > 0
        invariant
            j <= ms@.len(),
            forall|k: int| j <= k < ms@.len() ==> ms@[k].timestamp_ms > t,
        decreases j,
    {
        if ms[j - 1].timestamp_ms <= t {
            proof {
                lemma_held_power_prefix(ms@, t as int, j as int);
                assert(ms@.take(j as int).last() == ms@[j - 1]);
            }
            return Some(ms[j - 1].power_mw);
        }
        j = j - 1;
    }
    proof {
        lemma_held_power_prefix(ms@, t as int, 0);
        assert(!covered_at(ms@.take(0), t as int));
    }
    None
}

/// Law: the integrator's contract pins one result for each sample
/// sequence and window, so two results that both satisfy it agree.
pub proof fn lemma_integration_deterministic(
    ms: Seq<EnergyMeasurement>,
    start: int,
    end: int,
    r1: Result<u128, Seq<char>>,
    r2: Result<u128, Seq<char>>,
)
    requires
        (r1 is Ok) <==> (end <= start || covered_at(ms, start)),
        r1 matches Ok(e) ==> e == spec_energy(ms, start, end),
        r1 matches Err(m) ==> m == coverage_violation_msg(),
        (r2 is Ok) <==> (end <= start || covered_at(ms, start)),
        r2 matches Ok(e) ==> e == spec_energy(ms, start, end),
        r2 matches Err(m) ==> m == coverage_violation_msg(),
    ensures
        r1 == r2,
{
}

/// What a measured execution yields: wall-clock time, energy when a
/// telemetry session ran, and where the run's output landed.
pub struct MeasurementResult {
    pub time_ms: u32,
    pub energy_uj: Option<u128>,
    pub results_dir: String,
}

/// Why a measured execution failed: the measured operation itself failed
/// (an operational condition for the caller to classify), or the
/// measurement machinery hit a defect.
pub enum MeasureFnError {
    FnError { error: DockerError },
    InternalError { error: String },
}

/// The error reported when a run's execution window is inverted or too
/// long to account in whole milliseconds.
pub open spec fn window_defect_msg() -> Seq<char> {
    "Measured execution window is malformed"@
}

/// Settles one measured execution: a failed run is handed back for the
/// caller to classify; a successful run is charged with its wall-clock
/// window, and with the integral of the session's samples over that
/// window when a session ran. A window no sample covers, like a malformed
/// window, is a defect.
pub fn measure_fn(run: Result<DockerRunResult, DockerError>, samples: Option<
    EnergyMonitorResult,
>) -> (r: Result<MeasurementResult, MeasureFnError>)
    requires
        samples matches Some(sm) ==> sorted_by_timestamp(sm.measurements@),
    ensures
        run matches Err(e) ==> (r matches Err(f) && f matches MeasureFnError::FnError {
            error,
        } && error == e),
        run matches Ok(rr) ==> (if !(0 <= rr.end_timestamp_ms - rr.start_timestamp_ms
            <= u32::MAX) {
            r matches Err(f) && f matches MeasureFnError::InternalError { error } && error@
                == window_defect_msg()
        } else {
            match samples {
                None => r matches Ok(m) && m.time_ms == rr.end_timestamp_ms
                    - rr.start_timestamp_ms && m.energy_uj is None && m.results_dir
                    == rr.results_dir,
                Some(sm) => (if rr.end_timestamp_ms <= rr.start_timestamp_ms || covered_at(
                    sm.measurements@,
                    rr.start_timestamp_ms as int,
                ) {
                    r matches Ok(m) && m.time_ms == rr.end_timestamp_ms - rr.start_timestamp_ms
                        && (m.energy_uj matches Some(e) && e == spec_energy(
                        sm.measurements@,
                        rr.start_timestamp_ms as int,
                        rr.end_timestamp_ms as int,
                    )) && m.results_dir == rr.results_dir
                } else {
                    r matches Err(f) && f matches MeasureFnError::InternalError { error }
                        && error@ == coverage_violation_msg()
                }),
            }
        }),
{
    match run {
        Err(e) => Err(MeasureFnError::FnError { error: e }),
        Ok(rr) => {
            let diff: i128 = (rr.end_timestamp_ms as i128) - (rr.start_timestamp_ms as i128);
            if !(0 <= diff && diff <= u32::MAX as i128) {
                return Err(
                    MeasureFnError::InternalError {
                        error: "Measured execution window is malformed".to_owned(),
                    },
                );
            }
            let time_ms: u32 = diff as u32;
            match samples {
                None => Ok(
                    MeasurementResult { time_ms, energy_uj: None, results_dir: rr.results_dir },
                ),
                Some(sm) => {
                    match sm.calculate_consumed_energy(
                        rr.start_timestamp_ms,
                        rr.end_timestamp_ms,
                    ) {
                        Ok(e) => Ok(
                            MeasurementResult {
                                time_ms,
                                energy_uj: Some(e),
                                results_dir: rr.results_dir,
                            },
                        ),
                        Err(m) => Err(MeasureFnError::InternalError { error: m }),
                    }
                },
            }
        },
    }
}

/// The telemetry endpoint a session will stream samples from.
pub struct EnergyMonitor {
    pub ws_url: String,
}

/// One running collection session: the samples gathered so far and whether
/// the trailing post-stop sample has already arrived.
pub struct RunningEnergyMonitor {
    pub samples: Vec<EnergyMeasurement>,
    pub done: bool,
}

impl EnergyMonitor {
    /// Opens a session from the handshake's two bootstrap samples. They
    /// are retained at the head of the sequence: the first of them is what
    /// guarantees a reading at or before the execution window's start.
    pub fn start(self, first: EnergyMeasurement, second: EnergyMeasurement) -> (r:
        RunningEnergyMonitor)
        ensures
            r.samples@ == seq![first, second],
            !r.done,
    {
        let mut samples: Vec<EnergyMeasurement> = Vec::new();
        samples.push(first);
        samples.push(second);
        proof {
            assert(samples@ =~= seq![first, second]);
        }
        RunningEnergyMonitor { samples, done: false }
    }
}

impl RunningEnergyMonitor {
    /// Records one received sample. While no stop has been requested the
    /// session stays open; the first sample that arrives after the stop
    /// request is still recorded — the sequence always extends slightly
    /// past the stop signal — and then the session is done.
    pub fn on_sample(&mut self, m: EnergyMeasurement, stop_requested: bool)
        requires
            !old(self).done,
        ensures
            final(self).samples@ == old(self).samples@.push(m),
            final(self).done == stop_requested,
    {
        self.samples.push(m);
        self.done = stop_requested;
    }

    /// Hands the collected samples over, once the trailing sample has been
    /// taken in. Callers block until the collector is done before this.
    pub fn stop(self) -> (r: EnergyMonitorResult)
        requires
            self.done,
        ensures
            r.measurements@ == self.samples@,
    {
        EnergyMonitorResult { measurements: self.samples }
    }
}

} // verus!
