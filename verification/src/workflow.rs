//! The workflow orchestrator: the cache-hit/submit decision and the polling
//! loop, as pure decision logic over the service's responses.
//!
//! The surrounding program performs the transport: it issues each request,
//! decodes the body, and feeds status and body back in. `poll_decision`
//! drives a live loop one response at a time; `run_polling` and `resolve`
//! consume a complete response script, which is how the whole procedure is
//! stated and tested without a network.

use vstd::prelude::*;

use crate::protocol::{
    fetch_result_spec, fetch_to_result, lookup_result_spec, lookup_to_result, submit_result_spec,
    submit_to_result, AnalyzeFileResponse, ErrorKind, FetchAnalysisResponse, UploadFileResponse,
};

verus! {

/// The progress value from which a report counts as final. The service is
/// known to stall just short of a full percentage with every engine already
/// reporting, so completion is declared at this threshold rather than at
/// one hundred.
pub const DEFAULT_PROGRESS_THRESHOLD: i32 = 99;

/// Seconds to suspend between two polling attempts.
pub const POLL_INTERVAL_SECS: u64 = 5;

/// The three ways one invocation of the workflow can end.
#[derive(Debug, PartialEq)]
pub enum WorkflowOutcome {
    /// The service already knew the fingerprint; nothing was submitted.
    CacheHit(UploadFileResponse),
    /// The file was submitted and the analysis polled to completion.
    SubmittedAndCompleted(FetchAnalysisResponse),
    /// A step failed; the invocation produced no report.
    Failed(ErrorKind),
}

/// What a live polling loop does after one fetch.
#[derive(Debug, PartialEq)]
pub enum PollDecision {
    /// The analysis is still in progress at the carried percentage: display
    /// it, suspend for the polling interval, and fetch again.
    KeepPolling(i32),
    /// The report is final; the loop ends with it.
    Finished(FetchAnalysisResponse),
    /// A fetch failed or the attempt bound ran out; the loop ends with the
    /// error.
    Abort(ErrorKind),
}

/// The decision after one fetch: a failed fetch aborts, a report at or above
/// the threshold is final, and otherwise the loop continues while attempts
/// remain and times out when none do. `attempts_left` counts the fetches
/// still allowed after the present one.
pub open spec fn poll_decision_spec(
    fetched: Result<FetchAnalysisResponse, ErrorKind>,
    threshold: i32,
    attempts_left: u32,
) -> PollDecision {
    match fetched {
        Err(e) => PollDecision::Abort(e),
        Ok(report) => {
            if report.scan_results.progress_percentage >= threshold {
                PollDecision::Finished(report)
            } else if attempts_left == 0 {
                PollDecision::Abort(ErrorKind::Timeout)
            } else {
                PollDecision::KeepPolling(report.scan_results.progress_percentage)
            }
        },
    }
}

/// One step of the live polling loop.
pub fn poll_decision(
    fetched: Result<FetchAnalysisResponse, ErrorKind>,
    threshold: i32,
    attempts_left: u32,
) -> (d: PollDecision)
    ensures
        d == poll_decision_spec(fetched, threshold, attempts_left),
{
    match fetched {
        Err(e) => PollDecision::Abort(e),
        Ok(report) => {
            if report.scan_results.progress_percentage >= threshold {
                PollDecision::Finished(report)
            } else if attempts_left == 0 {
                PollDecision::Abort(ErrorKind::Timeout)
            } else {
                PollDecision::KeepPolling(report.scan_results.progress_percentage)
            }
        },
    }
}

/// The outcome of polling against a scripted sequence of fetch responses,
/// with the number of fetches issued and the number of suspensions taken:
/// responses are consumed in order until one fails, one reaches the
/// threshold, or the attempt bound (or the script) is exhausted, which
/// counts as a timeout. The loop suspends exactly once between consecutive
/// fetches, never after the last one of an invocation.
pub open spec fn poll_script_spec(
    responses: Seq<(u16, Option<FetchAnalysisResponse>)>,
    threshold: i32,
    attempts_left: nat,
) -> (WorkflowOutcome, nat, nat)
    decreases attempts_left,
{
    if attempts_left == 0 || responses.len() == 0 {
        (WorkflowOutcome::Failed(ErrorKind::Timeout), 0, 0)
    } else {
        match fetch_result_spec(responses[0].0, responses[0].1) {
            Err(e) => (WorkflowOutcome::Failed(e), 1, 0),
            Ok(report) => {
                if report.scan_results.progress_percentage >= threshold {
                    (WorkflowOutcome::SubmittedAndCompleted(report), 1, 0)
                } else if attempts_left == 1 || responses.len() == 1 {
                    (WorkflowOutcome::Failed(ErrorKind::Timeout), 1, 0)
                } else {
                    let rest = poll_script_spec(
                        responses.skip(1),
                        threshold,
                        (attempts_left - 1) as nat,
                    );
                    (rest.0, rest.1 + 1, rest.2 + 1)
                }
            },
        }
    }
}

/// Runs the polling loop against a scripted sequence of fetch responses.
/// Returns the outcome, the number of fetches issued, and the number of
/// suspensions taken.
pub fn run_polling(
    responses: Vec<(u16, Option<FetchAnalysisResponse>)>,
    threshold: i32,
    attempts_left: u32,
) -> (r: (WorkflowOutcome, u32, u32))
    ensures
        ({
            let m = poll_script_spec(responses@, threshold, attempts_left as nat);
            &&& r.0 == m.0
            &&& r.1 as nat == m.1
            &&& r.2 as nat == m.2
        }),
        r.1 <= attempts_left,
        r.2 <= attempts_left,
    decreases attempts_left,
{
    let mut responses = responses;
    if attempts_left == 0 || responses.len() == 0 {
        (WorkflowOutcome::Failed(ErrorKind::Timeout), 0, 0)
    } else {
        let ghost orig = responses@;
        let (status, body) = responses.remove(0);
        proof {
            assert(responses@ =~= orig.skip(1));
        }
        match fetch_to_result(status, body) {
            Err(e) => (WorkflowOutcome::Failed(e), 1, 0),
            Ok(report) => {
                if report.scan_results.progress_percentage >= threshold {
                    (WorkflowOutcome::SubmittedAndCompleted(report), 1, 0)
                } else if attempts_left == 1 || responses.len() == 0 {
                    (WorkflowOutcome::Failed(ErrorKind::Timeout), 1, 0)
                } else {
                    let rest = run_polling(responses, threshold, attempts_left - 1);
                    (rest.0, rest.1 + 1, rest.2 + 1)
                }
            },
        }
    }
}

/// A response at `index` is a report whose progress lies below `threshold`.
pub open spec fn continues_at(
    responses: Seq<(u16, Option<FetchAnalysisResponse>)>,
    threshold: i32,
    index: int,
) -> bool {
    fetch_result_spec(responses[index].0, responses[index].1) matches Ok(r)
        && r.scan_results.progress_percentage < threshold
}

/// The polling loop stops at the first final report: where every response
/// before position `k` is a report below the threshold, and the response at
/// `k` is a report at or above it, polling returns exactly that report,
/// after `k + 1` fetches with one suspension between each consecutive pair.
pub proof fn lemma_polling_stops_at_first_final(
    responses: Seq<(u16, Option<FetchAnalysisResponse>)>,
    threshold: i32,
    attempts_left: nat,
    k: int,
)
    requires
        0 <= k < responses.len(),
        k < attempts_left,
        forall|i: int| 0 <= i < k ==> continues_at(responses, threshold, i),
        fetch_result_spec(responses[k].0, responses[k].1) matches Ok(r)
            && r.scan_results.progress_percentage >= threshold,
    ensures
        fetch_result_spec(responses[k].0, responses[k].1) matches Ok(r) && poll_script_spec(
            responses,
            threshold,
            attempts_left,
        ) == (WorkflowOutcome::SubmittedAndCompleted(r), (k + 1) as nat, k as nat),
    decreases k,
{
    if k == 0 {
    } else {
        assert(continues_at(responses, threshold, 0));
        assert forall|i: int| 0 <= i < k - 1 implies continues_at(
            responses.skip(1),
            threshold,
            i,
        ) by {
            assert(continues_at(responses, threshold, i + 1));
            assert(responses.skip(1)[i] == responses[i + 1]);
        }
        assert(responses.skip(1)[k - 1] == responses[k]);
        lemma_polling_stops_at_first_final(
            responses.skip(1),
            threshold,
            (attempts_left - 1) as nat,
            k - 1,
        );
    }
}

/// The polling loop aborts at the first failed fetch: where every response
/// before position `k` is a report below the threshold, and the response at
/// `k` maps to an error, polling fails with exactly that error after `k + 1`
/// fetches, having observed each of the `k` in-progress reports first.
pub proof fn lemma_polling_aborts_at_first_failure(
    responses: Seq<(u16, Option<FetchAnalysisResponse>)>,
    threshold: i32,
    attempts_left: nat,
    k: int,
)
    requires
        0 <= k < responses.len(),
        k < attempts_left,
        forall|i: int| 0 <= i < k ==> continues_at(responses, threshold, i),
        fetch_result_spec(responses[k].0, responses[k].1) is Err,
    ensures
        fetch_result_spec(responses[k].0, responses[k].1) matches Err(e) && poll_script_spec(
            responses,
            threshold,
            attempts_left,
        ) == (WorkflowOutcome::Failed(e), (k + 1) as nat, k as nat),
    decreases k,
{
    if k == 0 {
    } else {
        assert(continues_at(responses, threshold, 0));
        assert forall|i: int| 0 <= i < k - 1 implies continues_at(
            responses.skip(1),
            threshold,
            i,
        ) by {
            assert(continues_at(responses, threshold, i + 1));
            assert(responses.skip(1)[i] == responses[i + 1]);
        }
        assert(responses.skip(1)[k - 1] == responses[k]);
        lemma_polling_aborts_at_first_failure(
            responses.skip(1),
            threshold,
            (attempts_left - 1) as nat,
            k - 1,
        );
    }
}

/// The attempt bound is honoured: where the first `attempts_left` responses
/// are all reports below the threshold, polling gives up with a timeout
/// after exactly `attempts_left` fetches; the loop is never unbounded.
pub proof fn lemma_polling_times_out(
    responses: Seq<(u16, Option<FetchAnalysisResponse>)>,
    threshold: i32,
    attempts_left: nat,
)
    requires
        1 <= attempts_left <= responses.len(),
        forall|i: int| 0 <= i < attempts_left ==> continues_at(responses, threshold, i),
    ensures
        poll_script_spec(responses, threshold, attempts_left) == (
            WorkflowOutcome::Failed(ErrorKind::Timeout),
            attempts_left,
            (attempts_left - 1) as nat,
        ),
    decreases attempts_left,
{
    assert(continues_at(responses, threshold, 0));
    if attempts_left > 1 {
        assert forall|i: int| 0 <= i < attempts_left - 1 implies continues_at(
            responses.skip(1),
            threshold,
            i,
        ) by {
            assert(continues_at(responses, threshold, i + 1));
            assert(responses.skip(1)[i] == responses[i + 1]);
        }
        lemma_polling_times_out(responses.skip(1), threshold, (attempts_left - 1) as nat);
    }
}

/// A complete script of service responses for one invocation: what the
/// lookup answered, what a submission would answer, and what each analysis
/// fetch would answer, in order. Bodies are `None` where the transport could
/// not deliver a readable one.
pub struct RemoteScript {
    pub lookup_status: u16,
    pub lookup_body: Option<UploadFileResponse>,
    pub submit_status: u16,
    pub submit_body: Option<AnalyzeFileResponse>,
    pub fetch_responses: Vec<(u16, Option<FetchAnalysisResponse>)>,
}

/// How many remote calls and suspensions one invocation made, and which
/// handle its polling used.
#[derive(Debug, PartialEq)]
pub struct CallTrace {
    pub lookup_calls: u32,
    pub submit_calls: u32,
    pub fetch_calls: u32,
    pub sleeps: u32,
    /// The submission handle the polling loop fetched by, where polling
    /// happened at all.
    pub polled_handle: Option<String>,
}

/// The whole decision procedure for one file, against a scripted service.
/// A known fingerprint is a cache hit and nothing is submitted; an unknown
/// one is submitted exactly once and the returned handle polled; any failed
/// step ends the invocation with its error.
pub fn resolve(script: RemoteScript, threshold: i32, max_attempts: u32) -> (r: (
    WorkflowOutcome,
    CallTrace,
))
    ensures
        r.1.lookup_calls == 1,
        lookup_result_spec(script.lookup_status, script.lookup_body) matches Ok(Some(found)) ==> {
            &&& r.0 == WorkflowOutcome::CacheHit(found)
            &&& r.1.submit_calls == 0
            &&& r.1.fetch_calls == 0
            &&& r.1.sleeps == 0
            &&& r.1.polled_handle is None
        },
        lookup_result_spec(script.lookup_status, script.lookup_body) matches Err(e) ==> {
            &&& r.0 == WorkflowOutcome::Failed(e)
            &&& r.1.submit_calls == 0
            &&& r.1.fetch_calls == 0
            &&& r.1.sleeps == 0
            &&& r.1.polled_handle is None
        },
        lookup_result_spec(script.lookup_status, script.lookup_body) == Ok::<
            Option<UploadFileResponse>,
            ErrorKind,
        >(None) ==> {
            &&& r.1.submit_calls == 1
            &&& match submit_result_spec(script.submit_status, script.submit_body) {
                Ok(accepted) => {
                    let m = poll_script_spec(
                        script.fetch_responses@,
                        threshold,
                        max_attempts as nat,
                    );
                    &&& r.0 == m.0
                    &&& r.1.fetch_calls as nat == m.1
                    &&& r.1.sleeps as nat == m.2
                    &&& r.1.polled_handle matches Some(h) && h == accepted.data_id
                },
                Err(e) => {
                    &&& r.0 == WorkflowOutcome::Failed(e)
                    &&& r.1.fetch_calls == 0
                    &&& r.1.sleeps == 0
                    &&& r.1.polled_handle is None
                },
            }
        },
{
    let RemoteScript { lookup_status, lookup_body, submit_status, submit_body, fetch_responses } =
        script;
    match lookup_to_result(lookup_status, lookup_body) {
        Ok(Some(found)) => (
            WorkflowOutcome::CacheHit(found),
            CallTrace {
                lookup_calls: 1,
                submit_calls: 0,
                fetch_calls: 0,
                sleeps: 0,
                polled_handle: None,
            },
        ),
        Err(e) => (
            WorkflowOutcome::Failed(e),
            CallTrace {
                lookup_calls: 1,
                submit_calls: 0,
                fetch_calls: 0,
                sleeps: 0,
                polled_handle: None,
            },
        ),
        Ok(None) => {
            match submit_to_result(submit_status, submit_body) {
                Err(e) => (
                    WorkflowOutcome::Failed(e),
                    CallTrace {
                        lookup_calls: 1,
                        submit_calls: 1,
                        fetch_calls: 0,
                        sleeps: 0,
                        polled_handle: None,
                    },
                ),
                Ok(accepted) => {
                    let (outcome, fetch_calls, sleeps) = run_polling(
                        fetch_responses,
                        threshold,
                        max_attempts,
                    );
                    (
                        outcome,
                        CallTrace {
                            lookup_calls: 1,
                            submit_calls: 1,
                            fetch_calls,
                            sleeps,
                            polled_handle: Some(accepted.data_id),
                        },
                    )
                },
            }
        },
    }
}

} // verus!
