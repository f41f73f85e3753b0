use vstd::prelude::*;
use crate::auth::{is_success_spec, is_success_status};

verus! {

/// The number of attempts a job gets: attempts 1 to `MAX_ATTEMPTS`.
pub const MAX_ATTEMPTS: u8 = 3;

/// Seconds of delay per attempt number before a retry.
pub const BASE_DELAY_SECS: u64 = 30;

/// The model that every embedding request names.
pub open spec fn embedding_model_spec() -> Seq<char> {
    "copilot-text-embedding-ada-002"@
}

/// The model that every embedding request names.
pub fn embedding_model() -> (r: String)
    ensures
        r@ == embedding_model_spec(),
{
    String::from_str("copilot-text-embedding-ada-002")
}

/// Whether an embedding call succeeded: the status lies in 200..=299, the
/// body decoded, and it holds at least one vector (the first is the file's).
pub fn call_succeeded(status: u16, decoded: bool, vectors: usize) -> (r: bool)
    ensures
        r == (is_success_spec(status) && decoded && vectors >= 1),
{
    is_success_status(status) && decoded && vectors >= 1
}

/// A file to embed, and the language it is written in.
pub struct EmbedFile {
    pub path: String,
    pub language: String,
}

/// The text sent for a file: its path, then its contents in a fenced block
/// tagged with its language.
pub open spec fn input_text(path: Seq<char>, language: Seq<char>, contents: Seq<char>) -> Seq<char> {
    "File: `"@ + path + "`\n```"@ + language + "\n"@ + contents + "\n```\n"@
}

impl EmbedFile {
    /// The request input for this file, given its contents.
    pub fn to_input(&self, contents: &str) -> (r: String)
        ensures
            r@ == input_text(self.path@, self.language@, contents@),
    {
        let s = String::from_str("File: `").concat(self.path.as_str());
        let s = s.concat("`\n```").concat(self.language.as_str());
        let s = s.concat("\n").concat(contents).concat("\n```\n");
        s
    }
}

/// One attempt at embedding a file, within a session.
pub struct EmbedCommand {
    pub value: EmbedFile,
    pub session_id: String,
    pub trials: u8,
}

/// What a job is, as plain values.
pub struct JobView {
    pub path: Seq<char>,
    pub language: Seq<char>,
    pub session_id: Seq<char>,
    pub trials: u8,
}

impl View for EmbedCommand {
    type V = JobView;

    open spec fn view(&self) -> JobView {
        JobView {
            path: self.value.path@,
            language: self.value.language@,
            session_id: self.session_id@,
            trials: self.trials,
        }
    }
}

/// A job is retried after a failed attempt while its attempt number is
/// below `MAX_ATTEMPTS`: the failure of attempt `MAX_ATTEMPTS` ends it.
pub open spec fn may_retry_spec(trials: u8) -> bool {
    trials < MAX_ATTEMPTS
}

/// The delay before the retry that follows attempt `trials`.
pub open spec fn backoff_spec(trials: u8) -> u64 {
    (trials * BASE_DELAY_SECS) as u64
}

/// Whether a job whose attempt `trials` failed is tried again.
pub fn may_retry(trials: u8) -> (r: bool)
    ensures
        r == may_retry_spec(trials),
{
    trials < MAX_ATTEMPTS
}

/// Seconds to wait after failed attempt `trials` before the next one: the
/// delay grows linearly with the attempt number.
pub fn backoff_seconds(trials: u8) -> (r: u64)
    ensures
        r == backoff_spec(trials),
        r == trials as u64 * 30,
{
    trials as u64 * BASE_DELAY_SECS
}

impl EmbedCommand {
    /// The first attempt at embedding `file`.
    pub fn new(file: EmbedFile, session_id: String) -> (r: EmbedCommand)
        ensures
            r.value.path@ == file.path@,
            r.value.language@ == file.language@,
            r.session_id@ == session_id@,
            r.trials == 1,
    {
        EmbedCommand { value: file, session_id, trials: 1 }
    }

    /// The next attempt of the same job: same file and session, attempt
    /// number one higher.
    pub fn retry(&self) -> (r: EmbedCommand)
        requires
            self.trials < 255,
        ensures
            r@ == (JobView { trials: (self.trials + 1) as u8, ..self@ }),
    {
        EmbedCommand {
            value: EmbedFile { path: self.value.path.clone(), language: self.value.language.clone() },
            session_id: self.session_id.clone(),
            trials: self.trials + 1,
        }
    }
}

/// What follows one attempt of a job.
pub enum Next {
    /// The remote call succeeded: hand the record to the sink; the job is done.
    Store,
    /// The attempt failed: wait `delay_secs`, then submit `job`.
    Retry { delay_secs: u64, job: EmbedCommand },
    /// The attempt failed and no retry is left: the job ends without a record.
    Drop,
}

/// What follows an attempt, as plain values.
pub enum Step {
    Store,
    Retry { delay_secs: u64, job: JobView },
    Drop,
}

impl View for Next {
    type V = Step;

    open spec fn view(&self) -> Step {
        match self {
            Next::Store => Step::Store,
            Next::Retry { delay_secs, job } => Step::Retry { delay_secs: *delay_secs, job: job@ },
            Next::Drop => Step::Drop,
        }
    }
}

/// What follows an attempt of `job` that `succeeded` or failed.
pub open spec fn next_spec(job: JobView, succeeded: bool) -> Step {
    if succeeded {
        Step::Store
    } else if may_retry_spec(job.trials) {
        Step::Retry { delay_secs: backoff_spec(job.trials), job: JobView { trials: (job.trials + 1) as u8, ..job } }
    } else {
        Step::Drop
    }
}

/// Decides what follows an attempt of `job`. A failed attempt, whether the
/// credential or the remote call failed, is retried with linear backoff
/// until attempt `MAX_ATTEMPTS` has failed.
pub fn next_step(job: &EmbedCommand, succeeded: bool) -> (r: Next)
    ensures
        r@ == next_spec(job@, succeeded),
{
    if succeeded {
        Next::Store
    } else if may_retry(job.trials) {
        Next::Retry { delay_secs: backoff_seconds(job.trials), job: job.retry() }
    } else {
        Next::Drop
    }
}

/// The attempt numbers that a job starting at `trials` runs through when
/// every attempt fails, and the delay before each retry.
pub open spec fn failing_run(trials: u8) -> (Seq<u8>, Seq<u64>)
    decreases 256 - trials,
{
    match next_spec(JobView { path: seq![], language: seq![], session_id: seq![], trials }, false) {
        Step::Retry { delay_secs, job } => {
            if job.trials > trials {
                let rest = failing_run(job.trials);
                (seq![trials] + rest.0, seq![delay_secs] + rest.1)
            } else {
                (seq![trials], seq![])
            }
        },
        _ => (seq![trials], seq![]),
    }
}

/// A job that always fails is attempted exactly `MAX_ATTEMPTS` times, with
/// the numbers 1, 2 and 3, waits 30 and 60 seconds before its two retries,
/// and is dropped without any record after the failure of attempt 3.
pub proof fn lemma_bounded_retry(job: JobView)
    requires
        job.trials == 1,
    ensures
        failing_run(job.trials).0 == seq![1u8, 2u8, 3u8],
        failing_run(job.trials).0.len() == MAX_ATTEMPTS,
        failing_run(job.trials).1 == seq![30u64, 60u64],
        next_spec(JobView { trials: 3, ..job }, false) is Drop,
{
    reveal_with_fuel(failing_run, 4);
    assert(failing_run(3) == (seq![3u8], Seq::<u64>::empty()));
    assert(failing_run(2).0 =~= seq![2u8, 3u8]);
    assert(failing_run(1).0 =~= seq![1u8, 2u8, 3u8]);
    assert(failing_run(2).1 =~= seq![60u64]);
    assert(failing_run(1).1 =~= seq![30u64, 60u64]);
}

/// The retry that follows failed attempt `n` waits exactly `n * 30` seconds
/// and carries the same file and session with attempt number `n + 1`.
pub proof fn lemma_backoff_schedule(job: JobView)
    requires
        1 <= job.trials < MAX_ATTEMPTS,
    ensures
        next_spec(job, false) == (Step::Retry {
            delay_secs: (job.trials * 30) as u64,
            job: JobView { trials: (job.trials + 1) as u8, ..job },
        }),
{
}

} // verus!
