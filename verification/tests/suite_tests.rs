use speedwar_cli::compare::{answer_is_equal_to_solution, compare_chunk, ChunkOutcome};
use speedwar_cli::docker::DockerError;
use speedwar_cli::energymonitor::{MeasureFnError, MeasurementResult};
use speedwar_cli::suite::{
    aggregate_stats, build_error_response, compute_verdict, get_tests, record_test_outcome,
    record_trial, run_test, should_run_another_trial, CLIResponseError, DirEntryInfo, Lang,
    RepeatTestsParams, Test, TestResult, TestRunResult, TestStats, Verdict,
};
use speedwar_cli::text::parse_u8;

fn dir(name: &str) -> DirEntryInfo {
    DirEntryInfo {
        name: name.to_string(),
        is_dir: true,
    }
}

fn stats(time_elapsed_ms: u32, energy_consumed_uj: Option<u128>) -> TestStats {
    TestStats {
        time_elapsed_ms,
        energy_consumed_uj,
    }
}

#[test]
fn lang_base_image_points_into_the_templates() {
    assert_eq!(Lang::Rust.base_image(), "base-images/rust");
    assert_eq!(Lang::Python.base_image(), "base-images/python");
    assert_eq!(Lang::CPP.base_image(), "base-images/cpp");
    assert_eq!(Lang::Node.base_image(), "base-images/node");
    assert_eq!(Lang::Clojure.base_image(), "base-images/clojure");
}

#[test]
fn parse_u8_follows_the_standard_grammar() {
    assert_eq!(parse_u8("0"), Some(0));
    assert_eq!(parse_u8("17"), Some(17));
    assert_eq!(parse_u8("255"), Some(255));
    assert_eq!(parse_u8("+7"), Some(7));
    assert_eq!(parse_u8("007"), Some(7));
    assert_eq!(parse_u8("256"), None);
    assert_eq!(parse_u8(""), None);
    assert_eq!(parse_u8("+"), None);
    assert_eq!(parse_u8("12a"), None);
    assert_eq!(parse_u8("-1"), None);
    assert_eq!(parse_u8("9999999999"), None);
}

#[test]
fn get_tests_builds_one_case_per_subdirectory() {
    let entries = vec![dir("3"), dir("0"), dir("255")];
    let tests = get_tests("problems/1/tests", &entries).expect("all entries are valid");
    assert_eq!(
        tests,
        vec![
            Test {
                test_number: 3,
                input: "problems/1/tests/3/input.txt".to_string(),
                solution: "problems/1/tests/3/solution.txt".to_string(),
            },
            Test {
                test_number: 0,
                input: "problems/1/tests/0/input.txt".to_string(),
                solution: "problems/1/tests/0/solution.txt".to_string(),
            },
            Test {
                test_number: 255,
                input: "problems/1/tests/255/input.txt".to_string(),
                solution: "problems/1/tests/255/solution.txt".to_string(),
            },
        ]
    );
}

#[test]
fn get_tests_of_an_empty_directory_is_empty() {
    assert_eq!(get_tests("tests", &Vec::new()), Ok(Vec::new()));
}

#[test]
fn get_tests_rejects_a_file_entry() {
    let entries = vec![
        dir("1"),
        DirEntryInfo {
            name: "notes.txt".to_string(),
            is_dir: false,
        },
    ];
    assert_eq!(
        get_tests("tests", &entries),
        Err("Expected to find subfolders under tests, but notes.txt is a file".to_string())
    );
}

#[test]
fn get_tests_rejects_a_name_that_is_no_byte() {
    let entries = vec![dir("helpers"), dir("2")];
    assert_eq!(
        get_tests("tests", &entries),
        Err("Could not parse test number helpers".to_string())
    );
}

#[test]
fn get_tests_reports_the_first_invalid_entry() {
    let entries = vec![
        dir("1"),
        dir("300"),
        DirEntryInfo {
            name: "stray".to_string(),
            is_dir: false,
        },
    ];
    assert_eq!(
        get_tests("tests", &entries),
        Err("Could not parse test number 300".to_string())
    );
}

#[test]
fn comparator_accepts_identical_contents() {
    let a: Vec<u8> = (0..10000u32).map(|i| (i % 251) as u8).collect();
    let b = a.clone();
    assert!(answer_is_equal_to_solution(&a, &b));
}

#[test]
fn comparator_rejects_a_single_differing_byte() {
    let a: Vec<u8> = vec![7u8; 9000];
    let mut b = a.clone();
    b[4100] = 8;
    assert!(!answer_is_equal_to_solution(&a, &b));
}

#[test]
fn comparator_rejects_differing_lengths() {
    let a: Vec<u8> = vec![7u8; 5000];
    let b: Vec<u8> = vec![7u8; 5001];
    assert!(!answer_is_equal_to_solution(&a, &b));
    assert!(answer_is_equal_to_solution(&[], &[]));
}

#[test]
fn chunk_comparison_short_circuits() {
    // A length mismatch within one round decides at once: the bytes after
    // the mismatching chunk pair are never needed.
    assert_eq!(
        compare_chunk(&[1, 2, 3], &[1, 2]),
        ChunkOutcome::Done { equal: false }
    );
    assert_eq!(
        compare_chunk(&[1, 2, 3], &[1, 9, 3]),
        ChunkOutcome::Done { equal: false }
    );
    assert_eq!(compare_chunk(&[1, 2, 3], &[1, 2, 3]), ChunkOutcome::Continue);
    assert_eq!(compare_chunk(&[], &[]), ChunkOutcome::Done { equal: true });
}

#[test]
fn run_test_marks_a_matching_output_correct() {
    let measurement = Ok(MeasurementResult {
        time_ms: 42,
        energy_uj: Some(1_000_000),
        results_dir: "results".to_string(),
    });
    assert_eq!(
        run_test(3, measurement, true),
        Ok(TestResult {
            test_number: 3,
            run_result: TestRunResult::Correct {
                stats: stats(42, Some(1_000_000)),
            },
        })
    );
}

#[test]
fn run_test_marks_a_differing_output_incorrect() {
    let measurement = Ok(MeasurementResult {
        time_ms: 42,
        energy_uj: None,
        results_dir: "results".to_string(),
    });
    assert_eq!(
        run_test(3, measurement, false),
        Ok(TestResult {
            test_number: 3,
            run_result: TestRunResult::Incorrect,
        })
    );
}

#[test]
fn run_test_turns_operational_failures_into_test_errors() {
    let failed = Err(MeasureFnError::FnError {
        error: DockerError::UnsuccessfulCommand {
            stderr: "exit 1".to_string(),
        },
    });
    assert_eq!(
        run_test(9, failed, false),
        Ok(TestResult {
            test_number: 9,
            run_result: TestRunResult::TestError {
                error: "Docker run failed: exit 1".to_string(),
            },
        })
    );
    let timed_out = Err(MeasureFnError::FnError {
        error: DockerError::Timeout,
    });
    assert_eq!(
        run_test(9, timed_out, false),
        Ok(TestResult {
            test_number: 9,
            run_result: TestRunResult::TestError {
                error: "Test timed out".to_string(),
            },
        })
    );
}

#[test]
fn run_test_hands_defects_up() {
    let unexpected = Err(MeasureFnError::FnError {
        error: DockerError::UnexpectedError {
            error: "bad digest".to_string(),
        },
    });
    assert_eq!(run_test(9, unexpected, false), Err("bad digest".to_string()));
    let internal = Err(MeasureFnError::InternalError {
        error: "no samples".to_string(),
    });
    assert_eq!(run_test(9, internal, true), Err("no samples".to_string()));
}

#[test]
fn repetition_runs_until_both_minima_are_met() {
    let params = RepeatTestsParams {
        min_num_test_trials: 3,
        min_time_test_trials_ms: 1000,
    };
    assert!(should_run_another_trial(0, 0, &params));
    assert!(should_run_another_trial(2, 5000, &params));
    assert!(should_run_another_trial(3, 999, &params));
    assert!(!should_run_another_trial(3, 1000, &params));
}

#[test]
fn an_incorrect_trial_stops_the_sequence_unaveraged() {
    let mut tally = vec![stats(10, Some(500))];
    let r = record_trial(&mut tally, TestRunResult::Incorrect);
    assert_eq!(r, Some(TestRunResult::Incorrect));
    assert_eq!(tally, vec![stats(10, Some(500))]);

    let error = TestRunResult::TestError {
        error: "Test timed out".to_string(),
    };
    let r = record_trial(&mut tally, error.clone());
    assert_eq!(r, Some(error));
    assert_eq!(tally.len(), 1);
}

#[test]
fn a_correct_trial_joins_the_tally() {
    let mut tally = Vec::new();
    let r = record_trial(
        &mut tally,
        TestRunResult::Correct {
            stats: stats(10, Some(500)),
        },
    );
    assert_eq!(r, None);
    assert_eq!(tally, vec![stats(10, Some(500))]);
}

#[test]
fn aggregation_means_time_and_energy() {
    let tally = vec![
        stats(100, Some(1_000_000)),
        stats(101, Some(2_000_000)),
    ];
    let agg = aggregate_stats(&tally);
    // 100.5 ms rounds up; the energy mean is exact.
    assert_eq!(agg.time_elapsed_ms, 101);
    assert_eq!(agg.energy_consumed_uj, Some(1_500_000));
}

#[test]
fn aggregation_is_absent_when_any_trial_lacks_energy() {
    let tally = vec![
        stats(100, Some(1_000_000)),
        stats(100, None),
        stats(100, Some(2_000_000)),
    ];
    let agg = aggregate_stats(&tally);
    assert_eq!(agg.time_elapsed_ms, 100);
    assert_eq!(agg.energy_consumed_uj, None);
}

#[test]
fn aggregation_of_one_trial_is_that_trial() {
    let tally = vec![stats(77, Some(320_000))];
    let agg = aggregate_stats(&tally);
    assert_eq!(agg.time_elapsed_ms, 77);
    assert_eq!(agg.energy_consumed_uj, Some(320_000));
}

#[test]
fn aggregation_rounds_the_energy_mean_half_up() {
    let tally = vec![
        stats(1, Some(1)),
        stats(2, Some(2)),
        stats(2, Some(2)),
    ];
    let agg = aggregate_stats(&tally);
    // times 1,2,2: mean 5/3 rounds to 2; energies the same.
    assert_eq!(agg.time_elapsed_ms, 2);
    assert_eq!(agg.energy_consumed_uj, Some(2));
}

#[test]
fn suite_tally_preserves_collected_results_on_a_defect() {
    let mut results = Vec::new();
    let first = TestResult {
        test_number: 1,
        run_result: TestRunResult::Incorrect,
    };
    assert_eq!(record_test_outcome(&mut results, Ok(first.clone())), None);
    let r = record_test_outcome(&mut results, Err("boom".to_string()));
    assert_eq!(r, Some("boom".to_string()));
    assert_eq!(results, vec![first]);
}

#[test]
fn verdict_is_accepted_only_when_every_test_is_correct() {
    let correct = TestResult {
        test_number: 1,
        run_result: TestRunResult::Correct {
            stats: stats(1, None),
        },
    };
    let incorrect = TestResult {
        test_number: 2,
        run_result: TestRunResult::Incorrect,
    };
    assert_eq!(
        compute_verdict(&vec![correct.clone(), correct.clone()]),
        Verdict::Accepted
    );
    assert_eq!(
        compute_verdict(&vec![correct.clone(), incorrect]),
        Verdict::Rejected
    );
    assert_eq!(
        compute_verdict(&vec![
            correct,
            TestResult {
                test_number: 3,
                run_result: TestRunResult::TestError {
                    error: "Test timed out".to_string(),
                },
            },
        ]),
        Verdict::Rejected
    );
    assert_eq!(compute_verdict(&Vec::new()), Verdict::Accepted);
}

#[test]
fn build_failures_map_onto_the_response_taxonomy() {
    assert_eq!(
        build_error_response(DockerError::Timeout),
        CLIResponseError::BuildTimeout
    );
    assert_eq!(
        build_error_response(DockerError::UnsuccessfulCommand {
            stderr: "missing Dockerfile".to_string(),
        }),
        CLIResponseError::BuildError {
            error: "missing Dockerfile".to_string(),
        }
    );
    assert_eq!(
        build_error_response(DockerError::UnexpectedError {
            error: "bad digest".to_string(),
        }),
        CLIResponseError::InternalError {
            error: "bad digest".to_string(),
        }
    );
}
