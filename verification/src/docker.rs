//! Container-engine lifecycle: building an image from a context
//! directory, running one container per trial, and the unconditional
//! teardown of both. The engine is driven over its command line; this
//! module builds the command strings, interprets what came back, and pins
//! both with contracts. Executing the commands is the caller's business.

use vstd::prelude::*;

use crate::command::{
    CmdOutcome, CmdRequest, CONTAINER_STARTUP_TIMEOUT_MS, HOUSEKEEPING_TIMEOUT_MS,
    IMAGE_BUILD_TIMEOUT_MS,
};
use crate::text::{all_hex, range_is_hex, has_prefix, spec_trim, trim};

verus! {

/// What `chrono` computes for a timestamp line: the result of parsing it
/// as a UTC instant (relaxed RFC 3339) and taking its whole milliseconds
/// since the epoch. A function of the characters alone.
pub uninterp spec fn rfc3339_epoch_ms(s: Seq<char>) -> Option<i64>;

/// Relies on chrono's `FromStr` for `DateTime<Utc>` (the relaxed RFC 3339
/// parser) together with `DateTime::timestamp_millis`: both depend on the
/// input characters alone, and the millisecond count of any representable
/// instant fits an `i64`.
#[verifier::external_body]
pub fn parse_rfc3339_ms(s: &str) -> (r: Option<i64>)
    ensures
        r == rfc3339_epoch_ms(s@),
{
    s.parse::<chrono::DateTime<chrono::Utc>>().ok().map(|d| d.timestamp_millis())
}

/// Relies on `random_string::generate` over the lowercase-alphabet
/// charset: the result has exactly the requested number of characters,
/// each drawn from that charset. Which characters come out is chance, so
/// nothing more is stated.
#[verifier::external_body]
pub fn random_container_name() -> (r: String)
    ensures
        r@.len() == 12,
        forall|i: int| 0 <= i < r@.len() ==> 'a' <= #[trigger] r@[i] <= 'z',
{
    random_string::generate(12, random_string::charsets::ALPHA_LOWER)
}

/// Normalizes one captured output of an engine command: the text with the
/// surrounding white space removed. Decoding the captured bytes happens at
/// the subprocess boundary, before the text reaches this crate.
pub fn parse_output(output: &str) -> (r: String)
    ensures
        r@ == spec_trim(output@),
{
    trim(output)
}

/// A command's output line is a well-formed image digest: 64 hex digits,
/// optionally prefixed `sha256:`.
pub open spec fn valid_sha256_output(s: Seq<char>) -> bool {
    (s.len() == 64 && all_hex(s)) || (s.len() == 71 && s.subrange(0, 7) == "sha256:"@ && all_hex(
        s.subrange(7, 71),
    ))
}

/// The short image identifier: the first 12 hex digits of the digest.
pub open spec fn short_image_name(s: Seq<char>) -> Seq<char> {
    if s.len() == 71 {
        s.subrange(7, 19)
    } else {
        s.subrange(0, 12)
    }
}

/// Why an engine command did not deliver what was asked of it.
/// `UnsuccessfulCommand` is the command itself failing (its stderr kept),
/// `Timeout` is the enforced deadline striking, and `UnexpectedError` is a
/// defect: malformed output, a failed spawn, or a broken invariant.
#[derive(Clone, Debug, PartialEq, Eq)]
pub enum DockerError {
    UnsuccessfulCommand { stderr: String },
    UnexpectedError { error: String },
    Timeout,
}

impl DockerError {
    /// Renders the error for a human reader.
    pub fn to_string(self) -> (r: String)
        ensures
            self matches DockerError::UnsuccessfulCommand { stderr } ==> r@
                == "Docker command was unsuccessful: "@ + stderr@,
            self matches DockerError::UnexpectedError { error } ==> r@ == error@,
            self is Timeout ==> r@ == "Timed out"@,
    {
        match self {
            DockerError::UnsuccessfulCommand { stderr } => "Docker command was unsuccessful: "
                .to_owned().concat(stderr.as_str()),
            DockerError::UnexpectedError { error } => error,
            DockerError::Timeout => "Timed out".to_owned(),
        }
    }
}

/// A built image, held by its short identifier. Its scope owns the image:
/// when the last holder is done, the removal request of
/// [`DockerImage::delete_docker_image`] is to be issued.
pub struct DockerImage {
    pub image_name: String,
}

/// One finished container run: the execution window read from the
/// instrumentation files, and the host directory the run's output landed
/// in.
pub struct DockerRunResult {
    pub start_timestamp_ms: i64,
    pub end_timestamp_ms: i64,
    pub results_dir: String,
}

/// Checks a trimmed digest line and cuts the short image name out of it.
pub fn parse_sha256(value: &str) -> (r: Result<String, String>)
    ensures
        r is Ok <==> valid_sha256_output(value@),
        r matches Ok(name) ==> name@ == short_image_name(value@),
        r matches Err(m) ==> m@ == "Unrecognized SHA value "@ + value@,
{
    let n = value.unicode_len();
    if n == 64 {
        if range_is_hex(value, 0, 64) {
            proof {
                assert(value@.subrange(0, 64) =~= value@);
            }
            return Ok(value.substring_char(0, 12).to_owned());
        }
    } else if n == 71 {
        if has_prefix(value, "sha256:") && {
            proof {
                reveal_strlit("sha256:");
            }
            range_is_hex(value, 7, 71)
        } {
            proof {
                reveal_strlit("sha256:");
            }
            return Ok(value.substring_char(7, 19).to_owned());
        }
        proof {
            reveal_strlit("sha256:");
        }
    }
    Err("Unrecognized SHA value ".to_owned().concat(value))
}

impl DockerImage {
    /// The image is a well-formed short digest identifier.
    pub open spec fn wf(&self) -> bool {
        self.image_name@.len() == 12 && all_hex(self.image_name@)
    }

    /// The engine invocation that builds an image from a context
    /// directory, under the build deadline.
    pub fn build_request(context_path: &str) -> (r: CmdRequest)
        ensures
            r.command@ == "docker build --quiet \""@ + context_path@ + "\""@,
            r.timeout_ms == IMAGE_BUILD_TIMEOUT_MS,
    {
        CmdRequest {
            command: "docker build --quiet \"".to_owned().concat(context_path).concat("\""),
            timeout_ms: IMAGE_BUILD_TIMEOUT_MS,
        }
    }

    /// Interprets what the build command produced. A successful command
    /// must print a digest line; any other shape of output is a defect,
    /// a failing command keeps its combined output as the build error, and
    /// the deadline striking is reported as such.
    pub fn build(outcome: CmdOutcome) -> (r: Result<DockerImage, DockerError>)
        ensures
            outcome matches CmdOutcome::Completed { exit_ok: true, stdout, .. } ==> (
            if valid_sha256_output(spec_trim(stdout@)) {
                r matches Ok(img) && img.image_name@ == short_image_name(spec_trim(stdout@))
            } else {
                r matches Err(e) && e matches DockerError::UnexpectedError { error } && error@
                    == "Unrecognized SHA value "@ + spec_trim(stdout@)
            }),
            outcome matches CmdOutcome::Completed { exit_ok: false, stdout, stderr } ==> (
            r matches Err(e) && e matches DockerError::UnsuccessfulCommand { stderr: se } && se@
                == spec_trim(stdout@) + spec_trim(stderr@)),
            outcome is TimedOut ==> (r matches Err(e) && e is Timeout),
            outcome matches CmdOutcome::SpawnFailure { error } ==> (r matches Err(e)
                && e matches DockerError::UnexpectedError { error: m } && m@
                == "Docker build error: "@ + error@),
            r matches Ok(img) ==> img.wf(),
    {
        match outcome {
            CmdOutcome::Completed { exit_ok, stdout, stderr } => {
                let t = parse_output(stdout.as_str());
                if exit_ok {
                    match parse_sha256(t.as_str()) {
                        Ok(name) => {
                            proof {
                                lemma_short_name_hex(t@);
                            }
                            Ok(DockerImage { image_name: name })
                        },
                        Err(m) => Err(DockerError::UnexpectedError { error: m }),
                    }
                } else {
                    let combined = t.concat(parse_output(stderr.as_str()).as_str());
                    Err(DockerError::UnsuccessfulCommand { stderr: combined })
                }
            },
            CmdOutcome::TimedOut => Err(DockerError::Timeout),
            CmdOutcome::SpawnFailure { error } => Err(
                DockerError::UnexpectedError {
                    error: "Docker build error: ".to_owned().concat(error.as_str()),
                },
            ),
        }
    }

    /// The engine invocation that runs one container from this image: the
    /// results directory is bound into the container for instrumentation
    /// exchange, memory and swap are capped at 512 MB, stdin comes from
    /// the test's input file and stdout goes to `output.txt` in the
    /// results directory.
    pub fn run_request(&self, stdin_file: &str, results_dir: &str, container_name: &str) -> (r:
        CmdRequest)
        ensures
            r.command@ == "docker run --mount type=bind,src=\""@ + results_dir@
                + "\",target=/timing/ -i -m 512MB --memory-swap 512MB --name "@
                + container_name@ + " "@ + self.image_name@ + " < \""@ + stdin_file@ + "\" > \""@
                + results_dir@ + "/output.txt\""@,
            r.timeout_ms == CONTAINER_STARTUP_TIMEOUT_MS,
    {
        CmdRequest {
            command: "docker run --mount type=bind,src=\"".to_owned().concat(results_dir).concat(
                "\",target=/timing/ -i -m 512MB --memory-swap 512MB --name ",
            ).concat(container_name).concat(" ").concat(self.image_name.as_str()).concat(
                " < \"",
            ).concat(stdin_file).concat("\" > \"").concat(results_dir).concat("/output.txt\""),
            timeout_ms: CONTAINER_STARTUP_TIMEOUT_MS,
        }
    }

    /// The housekeeping invocation that removes a spawned container.
    pub fn delete_docker_container(&self, container_name: &str) -> (r: CmdRequest)
        ensures
            r.command@ == "docker rm "@ + container_name@,
            r.timeout_ms == HOUSEKEEPING_TIMEOUT_MS,
    {
        CmdRequest {
            command: "docker rm ".to_owned().concat(container_name),
            timeout_ms: HOUSEKEEPING_TIMEOUT_MS,
        }
    }

    /// Teardown policy after one run: whatever the run came to — success,
    /// failure, timeout or a failed spawn — the next step is the removal
    /// of the spawned container. A removal failure is logged by the
    /// caller, never propagated.
    pub fn cleanup_after_run(&self, outcome: &CmdOutcome, container_name: &str) -> (r: CmdRequest)
        ensures
            r.command@ == "docker rm "@ + container_name@,
            r.timeout_ms == HOUSEKEEPING_TIMEOUT_MS,
    {
        match outcome {
            CmdOutcome::Completed { .. } => self.delete_docker_container(container_name),
            CmdOutcome::TimedOut => self.delete_docker_container(container_name),
            CmdOutcome::SpawnFailure { .. } => self.delete_docker_container(container_name),
        }
    }

    /// The housekeeping invocation that removes this image when its scope
    /// ends. A removal failure is logged by the caller, never propagated.
    pub fn delete_docker_image(&self) -> (r: CmdRequest)
        ensures
            r.command@ == "docker image rm "@ + self.image_name@,
            r.timeout_ms == HOUSEKEEPING_TIMEOUT_MS,
    {
        CmdRequest {
            command: "docker image rm ".to_owned().concat(self.image_name.as_str()),
            timeout_ms: HOUSEKEEPING_TIMEOUT_MS,
        }
    }

    /// Reads the execution window out of the two instrumentation lines
    /// the container wrote: each must hold one RFC 3339 instant. A line
    /// that does not parse is a defect, reported with the offending line.
    pub fn parse_timing(before_line: &str, after_line: &str) -> (r: Result<(i64, i64), String>)
        ensures
            r is Ok <==> (rfc3339_epoch_ms(spec_trim(before_line@)) is Some && rfc3339_epoch_ms(
                spec_trim(after_line@),
            ) is Some),
            r matches Ok(t) ==> rfc3339_epoch_ms(spec_trim(before_line@)) == Some(t.0)
                && rfc3339_epoch_ms(spec_trim(after_line@)) == Some(t.1),
            r matches Err(m) ==> (if rfc3339_epoch_ms(spec_trim(before_line@)) is None {
                m@ == "Couldn't parse before timestamp "@ + spec_trim(before_line@)
            } else {
                m@ == "Couldn't parse after timestamp "@ + spec_trim(after_line@)
            }),
    {
        let before_trimmed = trim(before_line);
        let after_trimmed = trim(after_line);
        let before = parse_rfc3339_ms(before_trimmed.as_str());
        match before {
            None => Err(
                "Couldn't parse before timestamp ".to_owned().concat(before_trimmed.as_str()),
            ),
            Some(b) => {
                match parse_rfc3339_ms(after_trimmed.as_str()) {
                    None => Err(
                        "Couldn't parse after timestamp ".to_owned().concat(
                            after_trimmed.as_str(),
                        ),
                    ),
                    Some(a) => Ok((b, a)),
                }
            },
        }
    }
}

/// A valid digest line yields a 12-hex-digit short name.
proof fn lemma_short_name_hex(s: Seq<char>)
    requires
        valid_sha256_output(s),
    ensures
        short_image_name(s).len() == 12,
        all_hex(short_image_name(s)),
{
    let name = short_image_name(s);
    if s.len() == 71 {
        assert forall|i: int| 0 <= i < name.len() implies crate::text::is_hex_char(
            name[i],
        ) by {
            assert(name[i] == s.subrange(7, 71)[i]);
        }
    } else {
        assert forall|i: int| 0 <= i < name.len() implies crate::text::is_hex_char(
            name[i],
        ) by {
            assert(name[i] == s[i]);
        }
    }
}

/// Classifies a run command's outcome: `None` exactly when the command
/// succeeded (the timing files are then to be read), otherwise the error
/// the trial is charged with.
pub fn run_failure(outcome: &CmdOutcome) -> (r: Option<DockerError>)
    ensures
        (outcome matches CmdOutcome::Completed { exit_ok: true, .. }) <==> r is None,
        outcome matches CmdOutcome::Completed { exit_ok: false, stdout, stderr } ==> (
        r matches Some(e) && e matches DockerError::UnsuccessfulCommand { stderr: se } && se@
            == spec_trim(stdout@) + spec_trim(stderr@)),
        outcome is TimedOut ==> (r matches Some(e) && e is Timeout),
        outcome matches CmdOutcome::SpawnFailure { error } ==> (r matches Some(e)
            && e matches DockerError::UnexpectedError { error: m } && m@
            == "Docker run error: "@ + error@),
{
    match outcome {
        CmdOutcome::Completed { exit_ok, stdout, stderr } => {
            if *exit_ok {
                None
            } else {
                let combined = parse_output(stdout.as_str()).concat(parse_output(stderr.as_str()).as_str());
                Some(DockerError::UnsuccessfulCommand { stderr: combined })
            }
        },
        CmdOutcome::TimedOut => Some(DockerError::Timeout),
        CmdOutcome::SpawnFailure { error } => Some(
            DockerError::UnexpectedError {
                error: "Docker run error: ".to_owned().concat(error.as_str()),
            },
        ),
    }
}

/// Assembles the run's result from the instrumentation lines of a
/// successful run; a timing line that does not parse makes the whole run
/// a defect.
pub fn run_result_from_timing(before_line: &str, after_line: &str, results_dir: String) -> (r:
    Result<DockerRunResult, DockerError>)
    ensures
        r is Ok <==> (rfc3339_epoch_ms(spec_trim(before_line@)) is Some && rfc3339_epoch_ms(
            spec_trim(after_line@),
        ) is Some),
        r matches Ok(rr) ==> rfc3339_epoch_ms(spec_trim(before_line@)) == Some(
            rr.start_timestamp_ms,
        ) && rfc3339_epoch_ms(spec_trim(after_line@)) == Some(rr.end_timestamp_ms)
            && rr.results_dir == results_dir,
        r matches Err(e) ==> (e matches DockerError::UnexpectedError { error } && (
        if rfc3339_epoch_ms(spec_trim(before_line@)) is None {
            error@ == "Couldn't parse before timestamp "@ + spec_trim(before_line@)
        } else {
            error@ == "Couldn't parse after timestamp "@ + spec_trim(after_line@)
        })),
{
    match DockerImage::parse_timing(before_line, after_line) {
        Ok((start_timestamp_ms, end_timestamp_ms)) => Ok(
            DockerRunResult { start_timestamp_ms, end_timestamp_ms, results_dir },
        ),
        Err(m) => Err(DockerError::UnexpectedError { error: m }),
    }
}

/// Interprets the build outcome; the door through which a submission's
/// image comes into being.
pub fn build_docker_image(outcome: CmdOutcome) -> (r: Result<DockerImage, DockerError>)
    ensures
        outcome matches CmdOutcome::Completed { exit_ok: true, stdout, .. } ==> (
        if valid_sha256_output(spec_trim(stdout@)) {
            r matches Ok(img) && img.image_name@ == short_image_name(spec_trim(stdout@))
        } else {
            r matches Err(e) && e matches DockerError::UnexpectedError { error } && error@
                == "Unrecognized SHA value "@ + spec_trim(stdout@)
        }),
        outcome matches CmdOutcome::Completed { exit_ok: false, stdout, stderr } ==> (
        r matches Err(e) && e matches DockerError::UnsuccessfulCommand { stderr: se } && se@
            == spec_trim(stdout@) + spec_trim(stderr@)),
        outcome is TimedOut ==> (r matches Err(e) && e is Timeout),
        outcome matches CmdOutcome::SpawnFailure { error } ==> (r matches Err(e)
            && e matches DockerError::UnexpectedError { error: m } && m@
            == "Docker build error: "@ + error@),
        r matches Ok(img) ==> img.wf(),
{
    DockerImage::build(outcome)
}

} // verus!
