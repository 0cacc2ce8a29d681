use speedwar_cli::command::{poll_step, CmdOutcome, PollAction};
use speedwar_cli::docker::{
    build_docker_image, parse_output, parse_rfc3339_ms, parse_sha256, random_container_name,
    run_failure, run_result_from_timing, DockerError, DockerImage,
};

const DIGEST: &str = "0123456789abcdef0123456789abcdef0123456789abcdef0123456789abcdef";

fn image() -> DockerImage {
    DockerImage {
        image_name: "0123456789ab".to_string(),
    }
}

#[test]
fn parse_output_trims_both_ends() {
    assert_eq!(parse_output("  abc \n"), "abc");
    assert_eq!(parse_output("\t\r\n"), "");
    assert_eq!(parse_output("xyz"), "xyz");
}

#[test]
fn parse_sha256_accepts_a_bare_digest() {
    assert_eq!(parse_sha256(DIGEST), Ok("0123456789ab".to_string()));
}

#[test]
fn parse_sha256_accepts_a_prefixed_digest() {
    let prefixed = format!("sha256:{}", DIGEST);
    assert_eq!(parse_sha256(&prefixed), Ok("0123456789ab".to_string()));
}

#[test]
fn parse_sha256_rejects_other_shapes() {
    assert_eq!(
        parse_sha256("abc"),
        Err("Unrecognized SHA value abc".to_string())
    );
    let not_hex = format!("z{}", &DIGEST[1..]);
    assert_eq!(
        parse_sha256(&not_hex),
        Err(format!("Unrecognized SHA value {}", not_hex))
    );
    let wrong_prefix = format!("sha512:{}", DIGEST);
    assert_eq!(
        parse_sha256(&wrong_prefix),
        Err(format!("Unrecognized SHA value {}", wrong_prefix))
    );
}

#[test]
fn build_parses_the_digest_of_a_successful_command() {
    let outcome = CmdOutcome::Completed {
        exit_ok: true,
        stdout: format!("sha256:{}\n", DIGEST),
        stderr: String::new(),
    };
    match DockerImage::build(outcome) {
        Ok(img) => assert_eq!(img.image_name, "0123456789ab"),
        Err(_) => panic!("expected an image"),
    }
}

#[test]
fn build_rejects_malformed_digest_output() {
    let outcome = CmdOutcome::Completed {
        exit_ok: true,
        stdout: "not a digest".to_string(),
        stderr: String::new(),
    };
    match build_docker_image(outcome) {
        Err(DockerError::UnexpectedError { error }) => {
            assert_eq!(error, "Unrecognized SHA value not a digest");
        }
        _ => panic!("expected a defect"),
    }
}

#[test]
fn build_keeps_the_output_of_a_failing_command() {
    let outcome = CmdOutcome::Completed {
        exit_ok: false,
        stdout: " out ".to_string(),
        stderr: " err ".to_string(),
    };
    match DockerImage::build(outcome) {
        Err(DockerError::UnsuccessfulCommand { stderr }) => assert_eq!(stderr, "outerr"),
        _ => panic!("expected a build failure"),
    }
}

#[test]
fn build_reports_timeout_and_spawn_failures() {
    match DockerImage::build(CmdOutcome::TimedOut) {
        Err(DockerError::Timeout) => {}
        _ => panic!("expected a timeout"),
    }
    match DockerImage::build(CmdOutcome::SpawnFailure {
        error: "no shell".to_string(),
    }) {
        Err(DockerError::UnexpectedError { error }) => {
            assert_eq!(error, "Docker build error: no shell");
        }
        _ => panic!("expected a defect"),
    }
}

#[test]
fn build_request_names_the_context_directory() {
    let r = DockerImage::build_request("/tmp/ctx");
    assert_eq!(r.command, "docker build --quiet \"/tmp/ctx\"");
    assert_eq!(r.timeout_ms, 300_000);
}

#[test]
fn run_request_wires_mount_limits_and_redirections() {
    let r = image().run_request("in.txt", "/tmp/results", "abcdefghijkl");
    assert_eq!(
        r.command,
        "docker run --mount type=bind,src=\"/tmp/results\",target=/timing/ \
         -i -m 512MB --memory-swap 512MB --name abcdefghijkl 0123456789ab \
         < \"in.txt\" > \"/tmp/results/output.txt\""
    );
    assert_eq!(r.timeout_ms, 30_000);
}

#[test]
fn container_and_image_removal_requests() {
    let img = image();
    let rm = img.delete_docker_container("abcdefghijkl");
    assert_eq!(rm.command, "docker rm abcdefghijkl");
    assert_eq!(rm.timeout_ms, 20_000);
    let rmi = img.delete_docker_image();
    assert_eq!(rmi.command, "docker image rm 0123456789ab");
    assert_eq!(rmi.timeout_ms, 20_000);
}

#[test]
fn cleanup_after_run_is_the_same_for_every_outcome() {
    let img = image();
    let outcomes = vec![
        CmdOutcome::Completed {
            exit_ok: true,
            stdout: String::new(),
            stderr: String::new(),
        },
        CmdOutcome::Completed {
            exit_ok: false,
            stdout: String::new(),
            stderr: "boom".to_string(),
        },
        CmdOutcome::TimedOut,
        CmdOutcome::SpawnFailure {
            error: "no shell".to_string(),
        },
    ];
    for outcome in &outcomes {
        let r = img.cleanup_after_run(outcome, "abcdefghijkl");
        assert_eq!(r.command, "docker rm abcdefghijkl");
        assert_eq!(r.timeout_ms, 20_000);
    }
}

#[test]
fn run_failure_classifies_each_outcome() {
    assert_eq!(
        run_failure(&CmdOutcome::Completed {
            exit_ok: true,
            stdout: String::new(),
            stderr: String::new(),
        }),
        None
    );
    assert_eq!(
        run_failure(&CmdOutcome::Completed {
            exit_ok: false,
            stdout: "a\n".to_string(),
            stderr: " b".to_string(),
        }),
        Some(DockerError::UnsuccessfulCommand {
            stderr: "ab".to_string()
        })
    );
    assert_eq!(
        run_failure(&CmdOutcome::TimedOut),
        Some(DockerError::Timeout)
    );
    assert_eq!(
        run_failure(&CmdOutcome::SpawnFailure {
            error: "no shell".to_string()
        }),
        Some(DockerError::UnexpectedError {
            error: "Docker run error: no shell".to_string()
        })
    );
}

#[test]
fn parse_rfc3339_ms_reads_a_utc_instant() {
    assert_eq!(
        parse_rfc3339_ms("2023-01-01T00:00:00Z"),
        Some(1_672_531_200_000)
    );
    assert_eq!(
        parse_rfc3339_ms("1970-01-01T00:00:01+00:00"),
        Some(1_000)
    );
    assert_eq!(parse_rfc3339_ms("yesterday"), None);
}

#[test]
fn parse_timing_reads_both_instrumentation_lines() {
    let r = DockerImage::parse_timing("2023-01-01T00:00:00Z\n", " 2023-01-01T00:00:01Z ");
    assert_eq!(r, Ok((1_672_531_200_000, 1_672_531_201_000)));
}

#[test]
fn parse_timing_reports_the_offending_line() {
    assert_eq!(
        DockerImage::parse_timing("garbage\n", "2023-01-01T00:00:01Z"),
        Err("Couldn't parse before timestamp garbage".to_string())
    );
    assert_eq!(
        DockerImage::parse_timing("2023-01-01T00:00:00Z", "garbage\n"),
        Err("Couldn't parse after timestamp garbage".to_string())
    );
}

#[test]
fn run_result_from_timing_carries_the_window_and_directory() {
    match run_result_from_timing(
        "2023-01-01T00:00:00Z",
        "2023-01-01T00:00:02Z",
        "results".to_string(),
    ) {
        Ok(rr) => {
            assert_eq!(rr.start_timestamp_ms, 1_672_531_200_000);
            assert_eq!(rr.end_timestamp_ms, 1_672_531_202_000);
            assert_eq!(rr.results_dir, "results");
        }
        Err(_) => panic!("expected a run result"),
    }
    match run_result_from_timing("bad", "2023-01-01T00:00:02Z", "results".to_string()) {
        Err(DockerError::UnexpectedError { error }) => {
            assert_eq!(error, "Couldn't parse before timestamp bad");
        }
        _ => panic!("expected a defect"),
    }
}

#[test]
fn random_container_name_is_twelve_lowercase_letters() {
    let name = random_container_name();
    assert_eq!(name.chars().count(), 12);
    assert!(name.chars().all(|c| c.is_ascii_lowercase()));
}

#[test]
fn docker_error_to_string_names_each_family() {
    assert_eq!(
        DockerError::UnsuccessfulCommand {
            stderr: "boom".to_string()
        }
        .to_string(),
        "Docker command was unsuccessful: boom"
    );
    assert_eq!(
        DockerError::UnexpectedError {
            error: "oops".to_string()
        }
        .to_string(),
        "oops"
    );
    assert_eq!(DockerError::Timeout.to_string(), "Timed out");
}

#[test]
fn poll_step_follows_the_timeout_policy() {
    assert_eq!(poll_step(0, 1000, true), PollAction::ReturnOutput);
    assert_eq!(poll_step(900, 1000, false), PollAction::Sleep);
    assert_eq!(poll_step(1000, 1000, false), PollAction::Kill);
    assert_eq!(poll_step(1000, 1000, true), PollAction::Kill);
}
