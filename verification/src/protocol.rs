//! Typed views of the remote service's responses and the mapping from
//! transport status codes to workflow outcomes.
//!
//! The service defines at most two expected statuses per operation; anything
//! else signals protocol drift and is fatal for the invocation.

use vstd::prelude::*;

verus! {

/// The status code with which the service answers a request it served.
pub const STATUS_OK: u16 = 200;

/// The status code with which the service reports an unknown fingerprint or
/// an unknown submission handle.
pub const STATUS_NOT_FOUND: u16 = 404;

/// The ways a single invocation of the workflow can fail.
#[derive(Clone, Copy, Debug, PartialEq, Eq, Structural)]
pub enum ErrorKind {
    /// The required credential was absent at client construction; nothing
    /// was sent to the service.
    Configuration,
    /// A request could not be completed or its body could not be read.
    Transport,
    /// The service answered with a status outside the expected set; the
    /// offending status is carried for diagnostics.
    ProtocolViolation(u16),
    /// The service reported an analysis handle as unknown although it had
    /// just issued it.
    JobNotFound,
    /// The polling loop exhausted its attempt bound before the analysis
    /// completed.
    Timeout,
}

/// One engine's entry within an analysis report.
#[derive(Debug, PartialEq)]
pub struct EngineResponse {
    pub threat_found: String,
    pub scan_result_i: i32,
    pub def_time: String,
}

/// The per-engine findings of one analysis, with overall progress and
/// verdict.
#[derive(Debug, PartialEq)]
pub struct ScanResults {
    /// Engine name paired with that engine's result; names are unique and
    /// their order carries no meaning.
    pub scan_details: Vec<(String, EngineResponse)>,
    pub progress_percentage: i32,
    pub scan_all_result_a: String,
}

/// The body of a successful submission: the handle under which the analysis
/// is tracked, with initial queue metadata.
#[derive(Debug, PartialEq)]
pub struct AnalyzeFileResponse {
    pub data_id: String,
    pub status: String,
    pub in_queue: i32,
    pub queue_priority: String,
}

/// The body of a successful fingerprint lookup: the handle of the existing
/// analysis.
#[derive(Debug, PartialEq)]
pub struct UploadFileResponse {
    pub data_id: String,
}

/// The body of a successful analysis fetch.
#[derive(Debug, PartialEq)]
pub struct FetchAnalysisResponse {
    pub data_id: String,
    pub scan_results: ScanResults,
}

/// No two entries carry the same engine name.
pub open spec fn engine_names_unique(details: Seq<(String, EngineResponse)>) -> bool {
    forall|i: int, j: int|
        0 <= i < j < details.len() ==> details[i].0@ != details[j].0@
}

fn names_unique(details: &Vec<(String, EngineResponse)>) -> (b: bool)
    ensures
        b == engine_names_unique(details@),
{
    let mut j: usize = 0;
    while j < details.len()
        invariant
            j <= details@.len(),
            forall|p: int, q: int|
                0 <= p < q < j ==> details@[p].0@ != details@[q].0@,
        decreases details@.len() - j,
    {
        let mut i: usize = 0;
        while i < j
            invariant
                i <= j < details@.len(),
                forall|p: int, q: int|
                    0 <= p < q < j ==> details@[p].0@ != details@[q].0@,
                forall|p: int| 0 <= p < i ==> details@[p].0@ != details@[j as int].0@,
            decreases j - i,
        {
            if details[i].0 == details[j].0 {
                return false;
            }
            i = i + 1;
        }
        j = j + 1;
    }
    true
}

impl ScanResults {
    /// The data-model invariant: engine names are unique and progress is a
    /// percentage.
    pub open spec fn wf(self) -> bool {
        &&& engine_names_unique(self.scan_details@)
        &&& 0 <= self.progress_percentage <= 100
    }

    /// Builds a `ScanResults` after checking the data-model invariant:
    /// engine names must be unique and progress must lie in 0..=100.
    pub fn try_new(
        scan_details: Vec<(String, EngineResponse)>,
        progress_percentage: i32,
        scan_all_result_a: String,
    ) -> (r: Option<ScanResults>)
        ensures
            r is Some <==> (engine_names_unique(scan_details@) && 0 <= progress_percentage
                <= 100),
            r matches Some(sr) ==> {
                &&& sr.scan_details == scan_details
                &&& sr.progress_percentage == progress_percentage
                &&& sr.scan_all_result_a == scan_all_result_a
                &&& sr.wf()
            },
    {
        if progress_percentage < 0 || progress_percentage > 100 {
            return None;
        }
        if !names_unique(&scan_details) {
            return None;
        }
        Some(
            ScanResults {
                scan_details,
                progress_percentage,
                scan_all_result_a,
            },
        )
    }
}

/// What a fingerprint lookup means: a served request with a readable body is
/// a cache hit, an unknown fingerprint is a clean miss, a served request
/// whose body could not be read is a transport failure, and any other status
/// is a protocol violation.
pub open spec fn lookup_result_spec(status: u16, body: Option<UploadFileResponse>) -> Result<
    Option<UploadFileResponse>,
    ErrorKind,
> {
    if status == STATUS_OK {
        match body {
            Some(found) => Ok(Some(found)),
            None => Err(ErrorKind::Transport),
        }
    } else if status == STATUS_NOT_FOUND {
        Ok(None)
    } else {
        Err(ErrorKind::ProtocolViolation(status))
    }
}

/// Maps a lookup response to its meaning. `body` is the decoded response
/// body where the transport delivered one, `None` where it could not be
/// read.
pub fn lookup_to_result(status: u16, body: Option<UploadFileResponse>) -> (r: Result<
    Option<UploadFileResponse>,
    ErrorKind,
>)
    ensures
        r == lookup_result_spec(status, body),
{
    if status == STATUS_OK {
        match body {
            Some(found) => Ok(Some(found)),
            None => Err(ErrorKind::Transport),
        }
    } else if status == STATUS_NOT_FOUND {
        Ok(None)
    } else {
        Err(ErrorKind::ProtocolViolation(status))
    }
}

/// What a submission response means: only a served request with a readable
/// body yields a handle; a served request whose body could not be read is a
/// transport failure, and every other status is a protocol violation — the
/// workflow cannot proceed without a handle.
pub open spec fn submit_result_spec(status: u16, body: Option<AnalyzeFileResponse>) -> Result<
    AnalyzeFileResponse,
    ErrorKind,
> {
    if status == STATUS_OK {
        match body {
            Some(accepted) => Ok(accepted),
            None => Err(ErrorKind::Transport),
        }
    } else {
        Err(ErrorKind::ProtocolViolation(status))
    }
}

/// Maps a submission response to its meaning.
pub fn submit_to_result(status: u16, body: Option<AnalyzeFileResponse>) -> (r: Result<
    AnalyzeFileResponse,
    ErrorKind,
>)
    ensures
        r == submit_result_spec(status, body),
{
    if status == STATUS_OK {
        match body {
            Some(accepted) => Ok(accepted),
            None => Err(ErrorKind::Transport),
        }
    } else {
        Err(ErrorKind::ProtocolViolation(status))
    }
}

/// What an analysis fetch means: a served request with a readable body is a
/// report (possibly still in progress), an unknown handle is a service-side
/// inconsistency and fatal, and any other status is a protocol violation.
pub open spec fn fetch_result_spec(status: u16, body: Option<FetchAnalysisResponse>) -> Result<
    FetchAnalysisResponse,
    ErrorKind,
> {
    if status == STATUS_OK {
        match body {
            Some(report) => Ok(report),
            None => Err(ErrorKind::Transport),
        }
    } else if status == STATUS_NOT_FOUND {
        Err(ErrorKind::JobNotFound)
    } else {
        Err(ErrorKind::ProtocolViolation(status))
    }
}

/// Maps an analysis-fetch response to its meaning.
pub fn fetch_to_result(status: u16, body: Option<FetchAnalysisResponse>) -> (r: Result<
    FetchAnalysisResponse,
    ErrorKind,
>)
    ensures
        r == fetch_result_spec(status, body),
{
    if status == STATUS_OK {
        match body {
            Some(report) => Ok(report),
            None => Err(ErrorKind::Transport),
        }
    } else if status == STATUS_NOT_FOUND {
        Err(ErrorKind::JobNotFound)
    } else {
        Err(ErrorKind::ProtocolViolation(status))
    }
}

/// Checks the credential at client construction. Absence is a configuration
/// error, distinct from every error a remote call can produce; no request
/// may be attempted without a credential.
pub fn validate_credential(key: Option<String>) -> (r: Result<String, ErrorKind>)
    ensures
        key matches Some(k) ==> r matches Ok(v) && v == k,
        key is None ==> r == Err::<String, ErrorKind>(ErrorKind::Configuration),
{
    match key {
        Some(k) => Ok(k),
        None => Err(ErrorKind::Configuration),
    }
}

} // verus!
