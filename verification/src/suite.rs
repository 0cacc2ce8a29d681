//! The test-execution engine's decisions: discovering test cases,
//! classifying one trial's outcome, repeating trials and aggregating
//! their statistics, and computing the suite verdict. Walking
//! directories, running containers and reading files happen outside this
//! crate; each function here receives what that produced as plain values.

use vstd::prelude::*;

use crate::docker::DockerError;
use crate::energymonitor::{MeasureFnError, MeasurementResult};
use crate::text::{digits_val, parse_u8, parse_u8_ok, unsigned_body};

verus! {

/// The language a submission is written in; selects the build template.
#[derive(Clone, Copy, Debug, PartialEq, Eq)]
pub enum Lang {
    Rust,
    Python,
    CPP,
    Node,
    Clojure,
}

impl Lang {
    /// Directory holding the build template for this language.
    pub fn base_image(&self) -> (r: String)
        ensures
            r@ == match *self {
                Lang::Rust => "base-images/rust"@,
                Lang::Python => "base-images/python"@,
                Lang::CPP => "base-images/cpp"@,
                Lang::Node => "base-images/node"@,
                Lang::Clojure => "base-images/clojure"@,
            },
    {
        match self {
            Lang::Rust => "base-images/rust".to_owned(),
            Lang::Python => "base-images/python".to_owned(),
            Lang::CPP => "base-images/cpp".to_owned(),
            Lang::Node => "base-images/node".to_owned(),
            Lang::Clojure => "base-images/clojure".to_owned(),
        }
    }
}

/// One run's headline numbers, rounded to whole units.
#[derive(Clone, Copy, Debug, PartialEq, Eq)]
pub struct RunResult {
    pub time_elapsed_ms: u32,
    pub energy_consumed_j: u32,
}

/// One trial's statistics: wall-clock time and, when telemetry ran,
/// energy in microjoules.
#[derive(Clone, Copy, Debug, PartialEq, Eq)]
pub struct TestStats {
    pub time_elapsed_ms: u32,
    pub energy_consumed_uj: Option<u128>,
}

/// How one test case came out. An `Error` is an operational failure of
/// the trial itself; a defect aborts the suite instead and never becomes
/// a `TestRunResult`.
#[derive(Clone, Debug, PartialEq, Eq)]
pub enum TestRunResult {
    TestError { error: String },
    Incorrect,
    Correct { stats: TestStats },
}

/// One test case's identity and outcome.
#[derive(Clone, Debug, PartialEq, Eq)]
pub struct TestResult {
    pub test_number: u8,
    pub run_result: TestRunResult,
}

/// The suite-level failure reported instead of per-test results: a broken
/// submission (`BuildError`), build-infrastructure flakiness
/// (`BuildTimeout`), or a defect (`InternalError`).
#[derive(Clone, Debug, PartialEq, Eq)]
pub enum CLIResponseError {
    BuildError { error: String },
    BuildTimeout,
    InternalError { error: String },
}

/// How often a single test case is repeated: at least `min_num_test_trials`
/// times, and until `min_time_test_trials_ms` of wall time has passed
/// since the case's first trial began.
#[derive(Clone, Copy, Debug, PartialEq, Eq)]
pub struct RepeatTestsParams {
    pub min_num_test_trials: u8,
    pub min_time_test_trials_ms: u64,
}

/// The suite-level grading result.
#[derive(Clone, Copy, Debug, PartialEq, Eq)]
pub enum Verdict {
    Accepted,
    Rejected,
}

/// One directory entry under the tests path, as the directory walk hands
/// it over.
#[derive(Clone, Debug, PartialEq, Eq)]
pub struct DirEntryInfo {
    pub name: String,
    pub is_dir: bool,
}

/// One discovered test case: its identity and where its input and
/// expected output live.
#[derive(Clone, Debug, PartialEq, Eq)]
pub struct Test {
    pub test_number: u8,
    pub input: String,
    pub solution: String,
}

/// A directory entry names a test case: a subdirectory whose name parses
/// as an unsigned byte.
pub open spec fn entry_valid(e: DirEntryInfo) -> bool {
    e.is_dir && parse_u8_ok(e.name@)
}

/// The discovery error an invalid entry is reported with.
pub open spec fn entry_error_msg(e: DirEntryInfo) -> Seq<char> {
    if !e.is_dir {
        "Expected to find subfolders under tests, but "@ + e.name@ + " is a file"@
    } else {
        "Could not parse test number "@ + e.name@
    }
}

/// Where a test case's input file lives.
pub open spec fn test_input_path(tests_path: Seq<char>, name: Seq<char>) -> Seq<char> {
    tests_path + "/"@ + name + "/input.txt"@
}

/// Where a test case's expected output lives.
pub open spec fn test_solution_path(tests_path: Seq<char>, name: Seq<char>) -> Seq<char> {
    tests_path + "/"@ + name + "/solution.txt"@
}

/// Turns the entries found under the tests path into test cases, in the
/// order the walk delivered them. Discovery fails on the first entry that
/// is not a subdirectory with a byte-valued name, with that entry's
/// error.
pub fn get_tests(tests_path: &str, entries: &Vec<DirEntryInfo>) -> (r: Result<Vec<Test>, String>)
    ensures
        r is Ok <==> (forall|i: int| 0 <= i < entries@.len() ==> entry_valid(entries@[i])),
        r matches Ok(ts) ==> ts@.len() == entries@.len() && (forall|i: int|
            0 <= i < entries@.len() ==> (#[trigger] ts@[i]).test_number as int == digits_val(
                unsigned_body(entries@[i].name@),
            ) && ts@[i].input@ == test_input_path(tests_path@, entries@[i].name@)
                && ts@[i].solution@ == test_solution_path(tests_path@, entries@[i].name@)),
        r matches Err(m) ==> exists|i: int|
            0 <= i < entries@.len() && !entry_valid(#[trigger] entries@[i]) && (forall|k: int|
                0 <= k < i ==> entry_valid(#[trigger] entries@[k])) && m@ == entry_error_msg(
                entries@[i],
            ),
{
    let mut tests: Vec<Test> = Vec::new();
    let n = entries.len();
    let mut i: usize = 0;
    while i < n
        invariant
            i <= n,
            n == entries@.len(),
            tests@.len() == i,
            forall|k: int| 0 <= k < i ==> entry_valid(#[trigger] entries@[k]),
            forall|k: int|
                0 <= k < i ==> (#[trigger] tests@[k]).test_number as int == digits_val(
                    unsigned_body(entries@[k].name@),
                ) && tests@[k].input@ == test_input_path(tests_path@, entries@[k].name@)
                    && tests@[k].solution@ == test_solution_path(
                    tests_path@,
                    entries@[k].name@,
                ),
        decreases n - i,
    {
        let entry = &entries[i];
        if !entry.is_dir {
            return Err(
                "Expected to find subfolders under tests, but ".to_owned().concat(
                    entry.name.as_str(),
                ).concat(" is a file"),
            );
        }
        match parse_u8(entry.name.as_str()) {
            None => {
                return Err(
                    "Could not parse test number ".to_owned().concat(entry.name.as_str()),
                );
            },
            Some(test_number) => {
                let input = tests_path.to_owned().concat("/").concat(entry.name.as_str())
                    .concat("/input.txt");
                let solution = tests_path.to_owned().concat("/").concat(entry.name.as_str())
                    .concat("/solution.txt");
                tests.push(Test { test_number, input, solution });
            },
        }
        i += 1;
    }
    Ok(tests)
}

/// Classifies one trial. A failed engine command or a timeout becomes
/// that test's error outcome; a defect is handed up to abort the suite;
/// a measured run is correct exactly when its output matched the expected
/// output, and then carries the trial's statistics.
pub fn run_test(
    test_number: u8,
    measurement: Result<MeasurementResult, MeasureFnError>,
    output_equal: bool,
) -> (r: Result<TestResult, String>)
    ensures
        measurement matches Err(MeasureFnError::FnError {
            error: DockerError::UnsuccessfulCommand { stderr },
        }) ==> (r matches Ok(tr) && tr.test_number == test_number && (
        tr.run_result matches TestRunResult::TestError { error } && error@
            == "Docker run failed: "@ + stderr@)),
        measurement matches Err(MeasureFnError::FnError { error: DockerError::Timeout }) ==> (
        r matches Ok(tr) && tr.test_number == test_number && (
        tr.run_result matches TestRunResult::TestError { error } && error@ == "Test timed out"@)),
        measurement matches Err(MeasureFnError::FnError {
            error: DockerError::UnexpectedError { error },
        }) ==> (r matches Err(m) && m@ == error@),
        measurement matches Err(MeasureFnError::InternalError { error }) ==> (r matches Err(m)
            && m@ == error@),
        measurement matches Ok(m) ==> (r matches Ok(tr) && tr.test_number == test_number && (
        if output_equal {
            tr.run_result matches TestRunResult::Correct { stats }
                && stats.time_elapsed_ms == m.time_ms && stats.energy_consumed_uj == m.energy_uj
        } else {
            tr.run_result is Incorrect
        })),
{
    match measurement {
        Err(MeasureFnError::FnError { error }) => match error {
            DockerError::UnsuccessfulCommand { stderr } => Ok(
                TestResult {
                    test_number,
                    run_result: TestRunResult::TestError {
                        error: "Docker run failed: ".to_owned().concat(stderr.as_str()),
                    },
                },
            ),
            DockerError::Timeout => Ok(
                TestResult {
                    test_number,
                    run_result: TestRunResult::TestError {
                        error: "Test timed out".to_owned(),
                    },
                },
            ),
            DockerError::UnexpectedError { error } => Err(error),
        },
        Err(MeasureFnError::InternalError { error }) => Err(error),
        Ok(m) => Ok(
            TestResult {
                test_number,
                run_result: if output_equal {
                    TestRunResult::Correct {
                        stats: TestStats {
                            time_elapsed_ms: m.time_ms,
                            energy_consumed_uj: m.energy_uj,
                        },
                    }
                } else {
                    TestRunResult::Incorrect
                },
            },
        ),
    }
}

/// Whether the repetition loop owes another trial: it runs until both the
/// minimum number of trials have completed and the minimum wall time has
/// passed since the case's first trial began.
pub fn should_run_another_trial(
    trials_completed: usize,
    elapsed_ms: u64,
    params: &RepeatTestsParams,
) -> (r: bool)
    ensures
        r == (trials_completed < params.min_num_test_trials as usize || elapsed_ms
            < params.min_time_test_trials_ms),
{
    trials_completed < params.min_num_test_trials as usize || elapsed_ms
        < params.min_time_test_trials_ms
}

/// Records one trial of a repeated sequence. A correct trial adds its
/// statistics to the tally and the sequence goes on; any other outcome
/// stops the sequence at once and is returned exactly as it came,
/// unaveraged, leaving the tally untouched.
pub fn record_trial(results: &mut Vec<TestStats>, outcome: TestRunResult) -> (r: Option<
    TestRunResult,
>)
    ensures
        outcome matches TestRunResult::Correct { stats } ==> final(results)@ == old(
            results,
        )@.push(stats) && r is None,
        !(outcome matches TestRunResult::Correct { .. }) ==> final(results)@ == old(results)@
            && r == Some(outcome),
{
    match outcome {
        TestRunResult::Correct { stats } => {
            results.push(stats);
            None
        },
        other => Some(other),
    }
}

/// The tally's total wall-clock time, in milliseconds.
pub open spec fn sum_time(s: Seq<TestStats>) -> int
    decreases s.len(),
{
    if s.len() == 0 {
        0
    } else {
        sum_time(s.drop_last()) + s.last().time_elapsed_ms
    }
}

/// What one trial contributes to the energy total: its measurement, or
/// nothing.
pub open spec fn energy_term(st: TestStats) -> int {
    match st.energy_consumed_uj {
        Some(e) => e as int,
        None => 0,
    }
}

/// The tally's total energy over the trials that measured one.
pub open spec fn sum_energy(s: Seq<TestStats>) -> int
    decreases s.len(),
{
    if s.len() == 0 {
        0
    } else {
        sum_energy(s.drop_last()) + energy_term(s.last())
    }
}

/// Every trial of the tally carries an energy measurement.
pub open spec fn all_energies_present(s: Seq<TestStats>) -> bool {
    forall|i: int| 0 <= i < s.len() ==> (#[trigger] s[i]).energy_consumed_uj is Some
}

/// Integer division rounded to the nearest value, halves up: the
/// arithmetic mean of `n` summands rounds this way.
pub open spec fn round_half_up_div(sum: int, n: int) -> int {
    sum / n + if 2 * (sum % n) >= n {
        1int
    } else {
        0int
    }
}

proof fn lemma_sum_time_bound(s: Seq<TestStats>)
    ensures
        0 <= sum_time(s) <= s.len() * (u32::MAX as int),
    decreases s.len(),
{
    if s.len() > 0 {
        lemma_sum_time_bound(s.drop_last());
    }
}

proof fn lemma_sum_energy_prefix(s: Seq<TestStats>, i: int)
    requires
        0 <= i <= s.len(),
    ensures
        0 <= sum_energy(s.take(i)) <= sum_energy(s),
    decreases s.len(),
{
    if i == s.len() {
        assert(s.take(i) =~= s);
        lemma_sum_energy_nonneg(s);
    } else {
        assert(s.drop_last().take(i) =~= s.take(i));
        lemma_sum_energy_prefix(s.drop_last(), i);
    }
}

proof fn lemma_sum_energy_nonneg(s: Seq<TestStats>)
    ensures
        sum_energy(s) >= 0,
    decreases s.len(),
{
    if s.len() > 0 {
        lemma_sum_energy_nonneg(s.drop_last());
    }
}

/// Division facts behind the rounded mean: the quotient of a sum of `n`
/// values each at most `bound` stays at most `bound`, rounding included.
proof fn lemma_mean_bound(sum: int, n: int, bound: int)
    requires
        n >= 1,
        bound >= 0,
        0 <= sum <= n * bound,
    ensures
        0 <= round_half_up_div(sum, n) <= bound,
{
    vstd::arithmetic::div_mod::lemma_fundamental_div_mod(sum, n);
    let q = sum / n;
    let rem = sum % n;
    assert(0 <= rem < n);
    assert(q >= 0) by (nonlinear_arith)
        requires
            sum == n * q + rem,
            0 <= rem < n,
            n >= 1,
            sum >= 0,
    ;
    assert(q <= bound) by (nonlinear_arith)
        requires
            sum == n * q + rem,
            0 <= rem < n,
            n >= 1,
            sum <= n * bound,
    ;
    if 2 * rem >= n {
        assert(q < bound) by (nonlinear_arith)
            requires
                sum == n * q + rem,
                0 <= rem < n,
                2 * rem >= n,
                n >= 1,
                sum <= n * bound,
                q <= bound,
        ;
    }
}

/// Aggregates the statistics of a completed repeated-trial sequence:
/// elapsed time is the arithmetic mean of the trials' times rounded to
/// the nearest millisecond, and energy is the mean of the per-trial
/// energies exactly when every trial measured one, otherwise absent.
pub fn aggregate_stats(results: &Vec<TestStats>) -> (r: TestStats)
    requires
        results@.len() >= 1,
        sum_energy(results@) <= u128::MAX,
    ensures
        r.time_elapsed_ms as int == round_half_up_div(
            sum_time(results@),
            results@.len() as int,
        ),
        all_energies_present(results@) ==> (r.energy_consumed_uj matches Some(e) && e as int
            == round_half_up_div(sum_energy(results@), results@.len() as int)),
        !all_energies_present(results@) ==> r.energy_consumed_uj is None,
{
    let n = results.len();
    let mut sum_t: u128 = 0;
    let mut sum_e: u128 = 0;
    let mut all_present: bool = true;
    let mut i: usize = 0;
    while i < n
        invariant
            i <= n,
            n == results@.len(),
            sum_energy(results@) <= u128::MAX,
            sum_t == sum_time(results@.take(i as int)),
            sum_t <= i * (u32::MAX as int),
            all_present == all_energies_present(results@.take(i as int)),
            all_present ==> sum_e == sum_energy(results@.take(i as int)),
        decreases n - i,
    {
        let st = &results[i];
        proof {
            assert(results@.take(i + 1).drop_last() =~= results@.take(i as int));
            assert(results@.take(i + 1).last() == results@[i as int]);
            lemma_sum_energy_prefix(results@, i + 1);
        }
        sum_t = sum_t + (st.time_elapsed_ms as u128);
        if all_present {
            match st.energy_consumed_uj {
                Some(e) => {
                    sum_e = sum_e + e;
                    proof {
                        assert forall|k: int|
                            0 <= k < i + 1 implies (#[trigger] results@.take(
                            i + 1,
                        )[k]).energy_consumed_uj is Some by {
                            if k < i {
                                assert(results@.take(i as int)[k].energy_consumed_uj is Some);
                            }
                        }
                    }
                },
                None => {
                    all_present = false;
                    proof {
                        assert(results@.take(i + 1)[i as int].energy_consumed_uj is None);
                    }
                },
            }
        } else {
            proof {
                let k = choose|k: int|
                    0 <= k < i && !((#[trigger] results@.take(i as int)[k]).energy_consumed_uj
                        is Some);
                assert(results@.take(i + 1)[k].energy_consumed_uj is None);
            }
        }
        i += 1;
    }
    proof {
        assert(results@.take(n as int) =~= results@);
        lemma_sum_time_bound(results@);
        lemma_mean_bound(sum_time(results@), n as int, u32::MAX as int);
    }
    let nn: u128 = n as u128;
    let qt: u128 = sum_t / nn;
    let rt: u128 = sum_t % nn;
    proof {
        vstd::arithmetic::div_mod::lemma_fundamental_div_mod(sum_t as int, nn as int);
    }
    let time_mean: u128 = if 2 * rt >= nn {
        qt + 1
    } else {
        qt
    };
    let energy_mean: Option<u128> = if all_present {
        proof {
            lemma_sum_energy_nonneg(results@);
            lemma_mean_bound(sum_energy(results@), n as int, u128::MAX as int);
            vstd::arithmetic::div_mod::lemma_fundamental_div_mod(sum_e as int, nn as int);
        }
        let qe: u128 = sum_e / nn;
        let re: u128 = sum_e % nn;
        if 2 * re >= nn {
            Some(qe + 1)
        } else {
            Some(qe)
        }
    } else {
        None
    };
    TestStats { time_elapsed_ms: time_mean as u32, energy_consumed_uj: energy_mean }
}

/// Records one test case's outcome in the suite's tally: a classified
/// outcome is appended and the suite goes on; a defect stops the suite
/// and is handed back, with every already-collected result preserved in
/// the tally.
pub fn record_test_outcome(results: &mut Vec<TestResult>, outcome: Result<TestResult, String>)
    -> (r: Option<String>)
    ensures
        outcome matches Ok(tr) ==> final(results)@ == old(results)@.push(tr) && r is None,
        outcome matches Err(e) ==> final(results)@ == old(results)@ && r == Some(e),
{
    match outcome {
        Ok(tr) => {
            results.push(tr);
            None
        },
        Err(e) => Some(e),
    }
}

/// Grades the whole suite: accepted when every test case came out
/// correct, rejected otherwise.
pub fn compute_verdict(results: &Vec<TestResult>) -> (r: Verdict)
    ensures
        (r is Accepted) <==> (forall|i: int|
            0 <= i < results@.len() ==> (#[trigger] results@[i]).run_result matches
                TestRunResult::Correct { .. }),
{
    let n = results.len();
    let mut i: usize = 0;
    while i < n
        invariant
            i <= n,
            n == results@.len(),
            forall|k: int|
                0 <= k < i ==> (#[trigger] results@[k]).run_result matches
                    TestRunResult::Correct { .. },
        decreases n - i,
    {
        match &results[i].run_result {
            TestRunResult::Correct { .. } => {
                i += 1;
            },
            _ => {
                return Verdict::Rejected;
            },
        }
    }
    Verdict::Accepted
}

/// Maps a failed image build onto the suite-level error: the deadline
/// striking is infrastructure flakiness, a failing build command is the
/// submission's own error, and anything else is a defect.
pub fn build_error_response(err: DockerError) -> (r: CLIResponseError)
    ensures
        err is Timeout ==> r is BuildTimeout,
        err matches DockerError::UnsuccessfulCommand { stderr } ==> (
        r matches CLIResponseError::BuildError { error } && error@ == stderr@),
        err matches DockerError::UnexpectedError { error } ==> (
        r matches CLIResponseError::InternalError { error: m } && m@ == error@),
{
    match err {
        DockerError::Timeout => CLIResponseError::BuildTimeout,
        DockerError::UnsuccessfulCommand { stderr } => CLIResponseError::BuildError {
            error: stderr,
        },
        DockerError::UnexpectedError { error } => CLIResponseError::InternalError { error },
    }
}

} // verus!
