use metascan::protocol::{
    AnalyzeFileResponse, EngineResponse, ErrorKind, FetchAnalysisResponse, ScanResults,
    UploadFileResponse,
};
use metascan::workflow::{
    poll_decision, resolve, run_polling, PollDecision, RemoteScript, WorkflowOutcome,
    DEFAULT_PROGRESS_THRESHOLD, POLL_INTERVAL_SECS,
};

fn report(progress: i32) -> FetchAnalysisResponse {
    let details = vec![(
        "alpha".to_string(),
        EngineResponse {
            threat_found: "".to_string(),
            scan_result_i: 0,
            def_time: "2024-01-01T00:00:00Z".to_string(),
        },
    )];
    FetchAnalysisResponse {
        data_id: "job-1".to_string(),
        scan_results: ScanResults::try_new(details, progress, "Clean".to_string())
            .expect("well formed"),
    }
}

fn accepted(data_id: &str) -> AnalyzeFileResponse {
    AnalyzeFileResponse {
        data_id: data_id.to_string(),
        status: "inqueue".to_string(),
        in_queue: 1,
        queue_priority: "normal".to_string(),
    }
}

fn miss_script(
    submit_status: u16,
    submit_body: Option<AnalyzeFileResponse>,
    fetches: Vec<(u16, Option<FetchAnalysisResponse>)>,
) -> RemoteScript {
    RemoteScript {
        lookup_status: 404,
        lookup_body: None,
        submit_status,
        submit_body,
        fetch_responses: fetches,
    }
}

#[test]
fn poll_decision_continues_below_threshold() {
    let d = poll_decision(Ok(report(45)), DEFAULT_PROGRESS_THRESHOLD, 3);
    assert_eq!(d, PollDecision::KeepPolling(45));
}

#[test]
fn poll_decision_finishes_at_threshold() {
    let d = poll_decision(Ok(report(99)), DEFAULT_PROGRESS_THRESHOLD, 3);
    assert_eq!(d, PollDecision::Finished(report(99)));
}

#[test]
fn poll_decision_times_out_when_no_attempts_remain() {
    let d = poll_decision(Ok(report(45)), DEFAULT_PROGRESS_THRESHOLD, 0);
    assert_eq!(d, PollDecision::Abort(ErrorKind::Timeout));
}

#[test]
fn poll_decision_aborts_on_failed_fetch() {
    let d = poll_decision(Err(ErrorKind::JobNotFound), DEFAULT_PROGRESS_THRESHOLD, 3);
    assert_eq!(d, PollDecision::Abort(ErrorKind::JobNotFound));
}

#[test]
fn polling_progresses_then_finishes_without_extra_call() {
    // Responses 10, 45, 99: suspend after each of the first two, finish on
    // the third, and issue no fourth fetch even though the script goes on.
    let fetches = vec![
        (200, Some(report(10))),
        (200, Some(report(45))),
        (200, Some(report(99))),
        (200, Some(report(100))),
    ];
    let (outcome, calls, sleeps) = run_polling(fetches, DEFAULT_PROGRESS_THRESHOLD, 10);
    assert_eq!(outcome, WorkflowOutcome::SubmittedAndCompleted(report(99)));
    assert_eq!(calls, 3);
    assert_eq!(sleeps, 2);
}

#[test]
fn polling_aborts_when_handle_disappears() {
    // A first in-progress response is observed (one suspension taken), then
    // the handle is reported unknown: the loop aborts after the second call.
    let fetches = vec![(200, Some(report(30))), (404, None)];
    let (outcome, calls, sleeps) = run_polling(fetches, DEFAULT_PROGRESS_THRESHOLD, 10);
    assert_eq!(outcome, WorkflowOutcome::Failed(ErrorKind::JobNotFound));
    assert_eq!(calls, 2);
    assert_eq!(sleeps, 1);
}

#[test]
fn polling_times_out_at_the_attempt_bound() {
    let fetches = vec![
        (200, Some(report(10))),
        (200, Some(report(20))),
        (200, Some(report(30))),
    ];
    let (outcome, calls, sleeps) = run_polling(fetches, DEFAULT_PROGRESS_THRESHOLD, 2);
    assert_eq!(outcome, WorkflowOutcome::Failed(ErrorKind::Timeout));
    assert_eq!(calls, 2);
    assert_eq!(sleeps, 1);
}

#[test]
fn polling_honours_a_lower_threshold() {
    let fetches = vec![(200, Some(report(10))), (200, Some(report(50)))];
    let (outcome, calls, _) = run_polling(fetches, 50, 10);
    assert_eq!(outcome, WorkflowOutcome::SubmittedAndCompleted(report(50)));
    assert_eq!(calls, 2);
}

#[test]
fn resolve_returns_cache_hit_without_submitting() {
    let script = RemoteScript {
        lookup_status: 200,
        lookup_body: Some(UploadFileResponse {
            data_id: "cached-3".to_string(),
        }),
        submit_status: 200,
        submit_body: Some(accepted("never-used")),
        fetch_responses: vec![(200, Some(report(99)))],
    };
    let (outcome, trace) = resolve(script, DEFAULT_PROGRESS_THRESHOLD, 10);
    assert_eq!(
        outcome,
        WorkflowOutcome::CacheHit(UploadFileResponse {
            data_id: "cached-3".to_string()
        })
    );
    assert_eq!(trace.lookup_calls, 1);
    assert_eq!(trace.submit_calls, 0);
    assert_eq!(trace.fetch_calls, 0);
    assert_eq!(trace.polled_handle, None);
}

#[test]
fn resolve_submits_once_and_polls_with_the_returned_handle() {
    let script = miss_script(
        200,
        Some(accepted("job-42")),
        vec![(200, Some(report(40))), (200, Some(report(99)))],
    );
    let (outcome, trace) = resolve(script, DEFAULT_PROGRESS_THRESHOLD, 10);
    assert_eq!(outcome, WorkflowOutcome::SubmittedAndCompleted(report(99)));
    assert_eq!(trace.submit_calls, 1);
    assert_eq!(trace.fetch_calls, 2);
    assert_eq!(trace.sleeps, 1);
    assert_eq!(trace.polled_handle, Some("job-42".to_string()));
}

#[test]
fn resolve_failed_submission_never_polls() {
    let script = miss_script(500, None, vec![(200, Some(report(99)))]);
    let (outcome, trace) = resolve(script, DEFAULT_PROGRESS_THRESHOLD, 10);
    assert_eq!(
        outcome,
        WorkflowOutcome::Failed(ErrorKind::ProtocolViolation(500))
    );
    assert_eq!(trace.submit_calls, 1);
    assert_eq!(trace.fetch_calls, 0);
    assert_eq!(trace.polled_handle, None);
}

#[test]
fn resolve_propagates_a_lookup_protocol_violation() {
    let script = RemoteScript {
        lookup_status: 503,
        lookup_body: None,
        submit_status: 200,
        submit_body: Some(accepted("job-1")),
        fetch_responses: vec![],
    };
    let (outcome, trace) = resolve(script, DEFAULT_PROGRESS_THRESHOLD, 10);
    assert_eq!(
        outcome,
        WorkflowOutcome::Failed(ErrorKind::ProtocolViolation(503))
    );
    assert_eq!(trace.submit_calls, 0);
    assert_eq!(trace.fetch_calls, 0);
}

#[test]
fn resolve_surfaces_a_timeout_from_polling() {
    let script = miss_script(
        200,
        Some(accepted("job-slow")),
        vec![(200, Some(report(10))), (200, Some(report(20)))],
    );
    let (outcome, trace) = resolve(script, DEFAULT_PROGRESS_THRESHOLD, 2);
    assert_eq!(outcome, WorkflowOutcome::Failed(ErrorKind::Timeout));
    assert_eq!(trace.fetch_calls, 2);
}

#[test]
fn poll_interval_matches_the_design_default() {
    assert_eq!(POLL_INTERVAL_SECS, 5);
    assert_eq!(DEFAULT_PROGRESS_THRESHOLD, 99);
}
