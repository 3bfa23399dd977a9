//! The client side of the transcription service, as far as it decides: when
//! a request is tried again, how long to wait before, and what is reported in
//! the end. Sending the request and reading the answer is the caller's part.

use vstd::arithmetic::power2::{lemma2_to64, lemma_pow2_strictly_increases, pow2};
use vstd::prelude::*;
use vstd::string::StringExecFns;
use crate::strings::{contains, has_substring, text_view};

verus! {

/// How often a request is tried at most.
pub const MAX_RETRIES: u32 = 3;

/// The longest wait between two tries, in seconds.
pub const MAX_WAIT_SECS: u64 = 30;

/// The answer of the transcription service to a request that succeeded.
#[derive(Debug, Clone)]
pub struct TranscriptionResponse {
    /// The transcribed text.
    pub text: String,
}

/// How one try ended.
#[derive(Debug, Clone)]
pub enum AttemptOutcome {
    /// The service answered with success and a transcription.
    Transcribed(TranscriptionResponse),
    /// The service answered with success, but the answer could not be read;
    /// `error` says why.
    Unreadable { error: String },
    /// The service answered with a failure. `status` is the status line,
    /// `body` what the answer held.
    Rejected { server_error: bool, status: String, body: String },
    /// The request could not be sent; `error` says why.
    SendFailed { timeout: bool, connect: bool, error: String },
}

/// What follows a try.
#[derive(Debug, Clone)]
pub enum Verdict {
    /// The transcription is there.
    Finished(String),
    /// The request failed for good; the text is the error.
    Failed(String),
    /// Wait this many seconds, then ask how to go on.
    Retry { wait_secs: u64 },
}

/// What is done next.
#[derive(Debug, Clone)]
pub enum NextStep {
    /// Send the request.
    Attempt,
    /// Every try failed; the text is the error.
    GiveUp(String),
}

/// The course of one transcription request over its tries.
#[derive(Debug, Clone)]
pub struct TranscriptionAttempts {
    retry_count: u32,
    last_error: Option<String>,
}

/// The wait before the try after `retry_count` failed ones: it doubles with
/// every try, starting at one second, and is at most [`MAX_WAIT_SECS`].
pub open spec fn wait_secs_after(retry_count: u32) -> u64 {
    if pow2(retry_count as nat) < MAX_WAIT_SECS {
        pow2(retry_count as nat) as u64
    } else {
        MAX_WAIT_SECS
    }
}

/// The number of failed tries after one more. It stops at the largest value
/// it can hold.
pub open spec fn counted_retry(retry_count: u32) -> u32 {
    if retry_count == u32::MAX {
        u32::MAX
    } else {
        (retry_count + 1) as u32
    }
}

/// Whether an answer that reports a failure is worth another try: a failure
/// on the server's side, a rate limit, or a timeout.
pub open spec fn is_retryable_rejection(server_error: bool, body: Seq<char>) -> bool {
    server_error || has_substring(body, "rate limit"@) || has_substring(body, "timeout"@)
}

/// The error text of a try, or nothing for one that succeeded.
pub open spec fn attempt_error(outcome: AttemptOutcome) -> Option<Seq<char>> {
    match outcome {
        AttemptOutcome::Transcribed(_) => None,
        AttemptOutcome::Unreadable { error } => Some("Failed to parse API response: "@ + error@),
        AttemptOutcome::Rejected { status, body, .. } => Some(
            "API error "@ + status@ + ": "@ + body@,
        ),
        AttemptOutcome::SendFailed { error, .. } => Some("Failed to send API request: "@ + error@),
    }
}

/// Whether a failed try is followed by another.
pub open spec fn is_retryable(outcome: AttemptOutcome) -> bool {
    match outcome {
        AttemptOutcome::Transcribed(_) => false,
        AttemptOutcome::Unreadable { .. } => true,
        AttemptOutcome::Rejected { server_error, body, .. } => is_retryable_rejection(
            server_error,
            body@,
        ),
        AttemptOutcome::SendFailed { timeout, connect, .. } => timeout || connect,
    }
}

/// Whether a request can be made at all: only with a key for the service.
pub fn check_api_key(api_key: &str) -> (outcome: Result<(), String>)
    ensures
        api_key@.len() > 0 ==> outcome is Ok,
        api_key@.len() == 0 ==> (outcome matches Err(message) && message@
            == "API key not configured"@),
{
    if api_key.is_empty() {
        Err(String::from_str("API key not configured"))
    } else {
        Ok(())
    }
}

/// Computes the wait before the try after `retry_count` failed ones.
pub fn backoff_secs(retry_count: u32) -> (wait: u64)
    ensures
        wait == wait_secs_after(retry_count),
        1 <= wait <= MAX_WAIT_SECS,
{
    proof {
        lemma2_to64();
        if retry_count > 5 {
            lemma_pow2_strictly_increases(5, retry_count as nat);
        }
    }
    if retry_count == 0 {
        1
    } else if retry_count == 1 {
        2
    } else if retry_count == 2 {
        4
    } else if retry_count == 3 {
        8
    } else if retry_count == 4 {
        16
    } else {
        MAX_WAIT_SECS
    }
}

impl TranscriptionAttempts {
    /// How many tries have failed and were to be retried.
    pub closed spec fn retries(&self) -> u32 {
        self.retry_count
    }

    /// The error of the last failed try.
    pub closed spec fn last_error(&self) -> Option<Seq<char>> {
        text_view(self.last_error)
    }

    /// A request before its first try.
    pub fn new() -> (attempts: TranscriptionAttempts)
        ensures
            attempts.retries() == 0,
            attempts.last_error() is None,
    {
        TranscriptionAttempts { retry_count: 0, last_error: None }
    }

    /// How many tries have failed and were to be retried.
    pub fn retry_count(&self) -> (n: u32)
        ensures
            n == self.retries(),
    {
        self.retry_count
    }

    /// Says what is done next: another try while fewer than [`MAX_RETRIES`]
    /// were made, else the error of the last one.
    pub fn next_step(&self) -> (step: NextStep)
        ensures
            self.retries() < MAX_RETRIES ==> step is Attempt,
            self.retries() >= MAX_RETRIES ==> (step matches NextStep::GiveUp(message) && message@
                == match self.last_error() {
                Some(error) => error,
                None => "API request failed after 3 retries"@,
            }),
    {
        if self.retry_count < MAX_RETRIES {
            NextStep::Attempt
        } else {
            match &self.last_error {
                Some(error) => NextStep::GiveUp(error.clone()),
                None => NextStep::GiveUp(String::from_str("API request failed after 3 retries")),
            }
        }
    }

    /// Takes note of how a try ended. A transcription finishes the request.
    /// A failure that is worth another try is remembered and followed by a
    /// wait; any other fails the request at once.
    pub fn record(&mut self, outcome: AttemptOutcome) -> (verdict: Verdict)
        ensures
            match outcome {
                AttemptOutcome::Transcribed(response) => {
                    &&& verdict matches Verdict::Finished(text)
                    &&& text@ == response.text@
                    &&& final(self).retries() == old(self).retries()
                    &&& final(self).last_error() == old(self).last_error()
                },
                _ => if is_retryable(outcome) {
                    &&& verdict matches Verdict::Retry { wait_secs }
                    &&& wait_secs == wait_secs_after(old(self).retries())
                    &&& final(self).retries() == counted_retry(old(self).retries())
                    &&& final(self).last_error() == attempt_error(outcome)
                } else {
                    &&& verdict matches Verdict::Failed(message)
                    &&& Some(message@) == attempt_error(outcome)
                    &&& final(self).retries() == old(self).retries()
                    &&& final(self).last_error() == old(self).last_error()
                },
            },
    {
        let (message, retry) = match outcome {
            AttemptOutcome::Transcribed(response) => {
                return Verdict::Finished(response.text);
            },
            AttemptOutcome::Unreadable { error } => {
                let mut message: String = String::from_str("Failed to parse API response: ");
                message.append(error.as_str());
                (message, true)
            },
            AttemptOutcome::Rejected { server_error, status, body } => {
                let mut message: String = String::from_str("API error ");
                message.append(status.as_str());
                message.append(": ");
                message.append(body.as_str());
                let retry: bool = server_error || contains(body.as_str(), "rate limit")
                    || contains(body.as_str(), "timeout");
                (message, retry)
            },
            AttemptOutcome::SendFailed { timeout, connect, error } => {
                let mut message: String = String::from_str("Failed to send API request: ");
                message.append(error.as_str());
                (message, timeout || connect)
            },
        };
        if retry {
            let wait_secs: u64 = backoff_secs(self.retry_count);
            self.last_error = Some(message);
            self.retry_count = if self.retry_count == u32::MAX {
                u32::MAX
            } else {
                self.retry_count + 1
            };
            Verdict::Retry { wait_secs }
        } else {
            Verdict::Failed(message)
        }
    }
}

} // verus!
