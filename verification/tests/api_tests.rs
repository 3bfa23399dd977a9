use wispr::api::{
    backoff_secs, check_api_key, AttemptOutcome, NextStep, TranscriptionAttempts,
    TranscriptionResponse, Verdict, MAX_RETRIES, MAX_WAIT_SECS,
};

fn rejected(server_error: bool, status: &str, body: &str) -> AttemptOutcome {
    AttemptOutcome::Rejected {
        server_error,
        status: status.to_string(),
        body: body.to_string(),
    }
}

#[test]
fn api_constants() {
    assert_eq!(MAX_RETRIES, 3);
    assert_eq!(MAX_WAIT_SECS, 30);
}

#[test]
fn missing_api_key_is_refused() {
    assert_eq!(check_api_key(""), Err("API key not configured".to_string()));
    assert_eq!(check_api_key("sk-test"), Ok(()));
    assert_eq!(check_api_key(" "), Ok(()));
}

#[test]
fn backoff_doubles_up_to_30_secs() {
    assert_eq!(backoff_secs(0), 1);
    assert_eq!(backoff_secs(1), 2);
    assert_eq!(backoff_secs(2), 4);
    assert_eq!(backoff_secs(3), 8);
    assert_eq!(backoff_secs(4), 16);
    assert_eq!(backoff_secs(5), 30);
    assert_eq!(backoff_secs(6), 30);
    assert_eq!(backoff_secs(u32::MAX), 30);
}

#[test]
fn first_step_is_an_attempt() {
    let a = TranscriptionAttempts::new();
    assert_eq!(a.retry_count(), 0);
    assert!(matches!(a.next_step(), NextStep::Attempt));
}

#[test]
fn transcription_finishes_the_request() {
    let mut a = TranscriptionAttempts::new();
    let verdict =
        a.record(AttemptOutcome::Transcribed(TranscriptionResponse { text: "hi".to_string() }));
    assert!(matches!(verdict, Verdict::Finished(ref t) if t == "hi"));
    assert_eq!(a.retry_count(), 0);
}

#[test]
fn unreadable_answer_is_retried() {
    let mut a = TranscriptionAttempts::new();
    let verdict = a.record(AttemptOutcome::Unreadable { error: "eof".to_string() });
    assert!(matches!(verdict, Verdict::Retry { wait_secs: 1 }));
    assert_eq!(a.retry_count(), 1);
}

#[test]
fn server_error_is_retried() {
    let mut a = TranscriptionAttempts::new();
    let verdict = a.record(rejected(true, "500 Internal Server Error", "oops"));
    assert!(matches!(verdict, Verdict::Retry { wait_secs: 1 }));
}

#[test]
fn rate_limit_and_timeout_are_retried() {
    let mut a = TranscriptionAttempts::new();
    let verdict = a.record(rejected(false, "429 Too Many Requests", "you hit the rate limit."));
    assert!(matches!(verdict, Verdict::Retry { wait_secs: 1 }));
    let verdict = a.record(rejected(false, "408 Request Timeout", "upstream timeout"));
    assert!(matches!(verdict, Verdict::Retry { wait_secs: 2 }));
    assert_eq!(a.retry_count(), 2);
}

#[test]
fn other_rejection_fails_at_once() {
    let mut a = TranscriptionAttempts::new();
    let verdict = a.record(rejected(false, "401 Unauthorized", "bad key"));
    assert!(
        matches!(verdict, Verdict::Failed(ref m) if m == "API error 401 Unauthorized: bad key")
    );
    assert_eq!(a.retry_count(), 0);
    let verdict = a.record(rejected(false, "400 Bad Request", "Rate Limit TIMEOUT"));
    assert!(matches!(verdict, Verdict::Failed(_)));
}

#[test]
fn send_failure_is_retried_for_timeout_and_connect() {
    let mut a = TranscriptionAttempts::new();
    let verdict = a.record(AttemptOutcome::SendFailed {
        timeout: true,
        connect: false,
        error: "timed out".to_string(),
    });
    assert!(matches!(verdict, Verdict::Retry { wait_secs: 1 }));
    let verdict = a.record(AttemptOutcome::SendFailed {
        timeout: false,
        connect: true,
        error: "refused".to_string(),
    });
    assert!(matches!(verdict, Verdict::Retry { wait_secs: 2 }));
}

#[test]
fn other_send_failure_fails_at_once() {
    let mut a = TranscriptionAttempts::new();
    let verdict = a.record(AttemptOutcome::SendFailed {
        timeout: false,
        connect: false,
        error: "builder error".to_string(),
    });
    assert!(
        matches!(verdict, Verdict::Failed(ref m) if m == "Failed to send API request: builder error")
    );
}

#[test]
fn three_failed_tries_give_up_with_the_last_error() {
    let mut a = TranscriptionAttempts::new();
    let mut waits: Vec<u64> = Vec::new();
    let mut tries = 0;
    loop {
        match a.next_step() {
            NextStep::Attempt => {
                tries += 1;
                let body = format!("try {}", tries);
                match a.record(rejected(true, "503 Service Unavailable", &body)) {
                    Verdict::Retry { wait_secs } => waits.push(wait_secs),
                    other => panic!("expected a retry, got {:?}", other),
                }
            }
            NextStep::GiveUp(message) => {
                assert_eq!(message, "API error 503 Service Unavailable: try 3");
                break;
            }
        }
    }
    assert_eq!(tries, 3);
    assert_eq!(waits, vec![1, 2, 4]);
    assert_eq!(a.retry_count(), 3);
}

#[test]
fn unreadable_answer_message() {
    let mut a = TranscriptionAttempts::new();
    a.record(AttemptOutcome::Unreadable { error: "expected value".to_string() });
    a.record(AttemptOutcome::Unreadable { error: "expected value".to_string() });
    a.record(AttemptOutcome::Unreadable { error: "missing field".to_string() });
    match a.next_step() {
        NextStep::GiveUp(message) => {
            assert_eq!(message, "Failed to parse API response: missing field")
        }
        other => panic!("expected to give up, got {:?}", other),
    }
}
