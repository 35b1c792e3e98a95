//! The job relay pipeline: one handler call is a strictly linear run
//! through validate, dispatch, classify, re-serialize, persist, return.
//!
//! The three functions here are the decision points of that run. The
//! embedding program performs the two I/O steps between them (the HTTP
//! POST to the backend and the store submission) and hands their
//! outcomes back in as [`HttpOutcome`] and [`StoreOutcome`] events; no
//! decision is taken outside this module. All four operation kinds share
//! the same pipeline and differ only in the operation-path binding.

use vstd::prelude::*;

use crate::errors::{ErrorModel, RelayError};
use crate::json::{doc_bytes, json_canon, json_wf, parse_json};
use crate::text::{dec_str, u16_dec_string};

verus! {

/// Job ID for the scrape operation.
pub const JOB_SCRAPE_ID: u64 = 1;

/// Job ID for the crawl operation.
pub const JOB_CRAWL_ID: u64 = 2;

/// Job ID for the batch scrape operation.
pub const JOB_BATCH_SCRAPE_ID: u64 = 3;

/// Job ID for the map operation.
pub const JOB_MAP_ID: u64 = 4;

/// The four operations the backend offers; each job invocation names
/// exactly one of them.
#[derive(Clone, Copy, Debug, PartialEq, Eq, Structural)]
pub enum JobKind {
    Scrape,
    Crawl,
    BatchScrape,
    MapLinks,
}

impl JobKind {
    /// The operation's path segment under the backend's API prefix.
    pub open spec fn segment_spec(self) -> Seq<char> {
        match self {
            JobKind::Scrape => "scrape"@,
            JobKind::Crawl => "crawl"@,
            JobKind::BatchScrape => "batch_scrape"@,
            JobKind::MapLinks => "map"@,
        }
    }

    /// The request path for this operation: the fixed API prefix
    /// followed by the operation's segment.
    pub open spec fn endpoint_path_spec(self) -> Seq<char> {
        "/api/v1/"@ + self.segment_spec()
    }

    /// The job ID under which the dispatch layer routes this operation.
    pub open spec fn job_id_spec(self) -> u64 {
        match self {
            JobKind::Scrape => JOB_SCRAPE_ID,
            JobKind::Crawl => JOB_CRAWL_ID,
            JobKind::BatchScrape => JOB_BATCH_SCRAPE_ID,
            JobKind::MapLinks => JOB_MAP_ID,
        }
    }

    /// The operation kind registered under a job ID, if any.
    pub fn from_job_id(id: u64) -> (r: Option<JobKind>)
        ensures
            r matches Some(k) ==> k.job_id_spec() == id,
            r is None <==> (id != JOB_SCRAPE_ID && id != JOB_CRAWL_ID && id != JOB_BATCH_SCRAPE_ID
                && id != JOB_MAP_ID),
    {
        if id == JOB_SCRAPE_ID {
            Some(JobKind::Scrape)
        } else if id == JOB_CRAWL_ID {
            Some(JobKind::Crawl)
        } else if id == JOB_BATCH_SCRAPE_ID {
            Some(JobKind::BatchScrape)
        } else if id == JOB_MAP_ID {
            Some(JobKind::MapLinks)
        } else {
            None
        }
    }

    /// The job ID of this operation kind.
    pub fn job_id(self) -> (r: u64)
        ensures
            r == self.job_id_spec(),
    {
        match self {
            JobKind::Scrape => JOB_SCRAPE_ID,
            JobKind::Crawl => JOB_CRAWL_ID,
            JobKind::BatchScrape => JOB_BATCH_SCRAPE_ID,
            JobKind::MapLinks => JOB_MAP_ID,
        }
    }

    /// The request path for this operation, as a string.
    pub fn endpoint_path(self) -> (r: String)
        ensures
            r@ == self.endpoint_path_spec(),
    {
        proof {
            lemma_operation_paths();
        }
        match self {
            JobKind::Scrape => String::from_str("/api/v1/scrape"),
            JobKind::Crawl => String::from_str("/api/v1/crawl"),
            JobKind::BatchScrape => String::from_str("/api/v1/batch_scrape"),
            JobKind::MapLinks => String::from_str("/api/v1/map"),
        }
    }
}

/// Everything the embedding program needs to issue the one backend call
/// of an invocation: POST the body bytes to the endpoint path on the
/// local backend port. Produced only for payloads that validated.
pub struct BackendRequest {
    /// Port of the local backend the request goes to.
    pub backend_port: u16,
    /// Request path on that backend, fixed per operation kind.
    pub endpoint_path: String,
    /// Request body: the canonical serialization of the payload's JSON.
    pub body: Vec<u8>,
}

/// The full URL of an invocation's one backend call: the local backend
/// host, the configured port, and the operation's request path.
pub open spec fn request_url_spec(port: u16, path: Seq<char>) -> Seq<char> {
    "http://localhost:"@ + dec_str(port as nat) + path
}

impl BackendRequest {
    /// The URL this request is to be POSTed to.
    pub fn url(&self) -> (r: String)
        ensures
            r@ == request_url_spec(self.backend_port, self.endpoint_path@),
    {
        let mut s = String::from_str("http://localhost:");
        let port = u16_dec_string(self.backend_port);
        s.append(port.as_str());
        s.append(self.endpoint_path.as_str());
        proof {
            assert(s@ =~= request_url_spec(self.backend_port, self.endpoint_path@));
        }
        s
    }
}

/// What came of the one HTTP POST to the backend, as reported by the
/// embedding program.
pub enum HttpOutcome {
    /// Transport-level failure (connection refused, timeout, DNS);
    /// carries the underlying cause.
    Transport(String),
    /// A response arrived; its status code and its body text.
    Response { status: u16, body: String },
}

/// What came of the one submission of the artifact to the content store.
pub enum StoreOutcome {
    /// The store accepted the bytes and returned this content
    /// identifier.
    Stored(String),
    /// The store failed or refused; carries the store's error text.
    Failed(String),
}

/// Whether an HTTP status code counts as success (any 2xx).
pub open spec fn is_success_status(status: u16) -> bool {
    200 <= status < 300
}

/// Validate, then build the dispatch: parses the payload and, exactly
/// when it is valid JSON, hands back the one request to send. On invalid
/// payloads the invocation fails fast as `InvalidInput`, and no request
/// value exists for the embedding program to send — zero HTTP requests
/// are issued for such payloads.
pub fn prepare_request(kind: JobKind, backend_port: u16, payload: &str) -> (r: Result<
    BackendRequest,
    RelayError,
>)
    ensures
        !json_wf(payload@) ==> (r matches Err(e) && e@ == ErrorModel::InvalidInput),
        r matches Err(e) && e@ == ErrorModel::InvalidInput ==> !json_wf(payload@),
        r matches Err(e) ==> e@ == ErrorModel::InvalidInput || e@ == ErrorModel::Internal,
        r matches Ok(req) ==> {
            &&& json_wf(payload@)
            &&& req.backend_port == backend_port
            &&& req.endpoint_path@ == kind.endpoint_path_spec()
            &&& req.body@ == json_canon(payload@)
        },
{
    match parse_json(payload) {
        None => Err(RelayError::InvalidInput),
        Some(doc) => match doc_bytes(&doc) {
            None => Err(RelayError::Internal),
            Some(body) => Ok(
                BackendRequest { backend_port, endpoint_path: kind.endpoint_path(), body },
            ),
        },
    }
}

/// Classify the backend's answer and, on a well-formed 2xx response,
/// re-serialize it into the artifact for the content store: transport
/// failures become `BackendUnreachable`, non-2xx responses become
/// `BackendRejected` with the status and body text, a 2xx body that is
/// not JSON becomes `MalformedBackendResponse`. In every failure case no
/// artifact exists, so the store is never reached.
pub fn classify_response(outcome: HttpOutcome) -> (r: Result<Vec<u8>, RelayError>)
    ensures
        outcome matches HttpOutcome::Transport(cause) ==> (r matches Err(e) && e@
            == ErrorModel::BackendUnreachable(cause@)),
        outcome matches HttpOutcome::Response { status, body } ==> {
            &&& !is_success_status(status) ==> (r matches Err(e) && e@ == (ErrorModel::BackendRejected { status, body: body@ }))
            &&& is_success_status(status) && !json_wf(body@) ==> (r matches Err(e) && e@
                == ErrorModel::MalformedBackendResponse)
            &&& is_success_status(status) && json_wf(body@) ==> (r matches Ok(artifact)
                && artifact@ == json_canon(body@)) || (r matches Err(e) && e@
                == ErrorModel::Internal)
        },
{
    match outcome {
        HttpOutcome::Transport(cause) => Err(RelayError::BackendUnreachable(cause)),
        HttpOutcome::Response { status, body } => {
            if !(200 <= status && status < 300) {
                Err(RelayError::BackendRejected { status, body })
            } else {
                match parse_json(body.as_str()) {
                    None => Err(RelayError::MalformedBackendResponse),
                    Some(doc) => match doc_bytes(&doc) {
                        None => Err(RelayError::Internal),
                        Some(artifact) => Ok(artifact),
                    },
                }
            }
        },
    }
}

/// Turn the store's answer into the invocation's result: the content
/// identifier is handed back unmodified, and a store failure surfaces as
/// `StoreFailure` — never as a fabricated identifier.
pub fn complete(outcome: StoreOutcome) -> (r: Result<String, RelayError>)
    ensures
        outcome matches StoreOutcome::Stored(cid) ==> (r matches Ok(c) && c@ == cid@),
        outcome matches StoreOutcome::Failed(text) ==> (r matches Err(e) && e@
            == ErrorModel::StoreFailure(text@)),
{
    match outcome {
        StoreOutcome::Stored(cid) => Ok(cid),
        StoreOutcome::Failed(text) => Err(RelayError::StoreFailure(text)),
    }
}

/// Law: determinism of the stored artifact. Two invocations whose
/// backend responses carry the same body text submit the same artifact
/// bytes to the content store; with a fixed content-addressed store
/// (identical bytes give the identical identifier) the two invocations
/// therefore return the same content identifier.
pub proof fn lemma_artifact_deterministic(body1: Seq<char>, body2: Seq<char>)
    requires
        body1 == body2,
    ensures
        json_canon(body1) == json_canon(body2),
{
}

/// Law: operation-path routing. Each operation kind is bound to its own
/// fixed request path, the API prefix followed by the operation name:
/// scrape to `/api/v1/scrape`, crawl to `/api/v1/crawl`, batch scrape to
/// `/api/v1/batch_scrape`, and map to `/api/v1/map`.
pub proof fn lemma_operation_paths()
    ensures
        JobKind::Scrape.endpoint_path_spec() == "/api/v1/scrape"@,
        JobKind::Crawl.endpoint_path_spec() == "/api/v1/crawl"@,
        JobKind::BatchScrape.endpoint_path_spec() == "/api/v1/batch_scrape"@,
        JobKind::MapLinks.endpoint_path_spec() == "/api/v1/map"@,
{
    reveal_strlit("/api/v1/");
    reveal_strlit("scrape");
    reveal_strlit("crawl");
    reveal_strlit("batch_scrape");
    reveal_strlit("map");
    reveal_strlit("/api/v1/scrape");
    reveal_strlit("/api/v1/crawl");
    reveal_strlit("/api/v1/batch_scrape");
    reveal_strlit("/api/v1/map");
    assert(JobKind::Scrape.endpoint_path_spec() =~= "/api/v1/scrape"@);
    assert(JobKind::Crawl.endpoint_path_spec() =~= "/api/v1/crawl"@);
    assert(JobKind::BatchScrape.endpoint_path_spec() =~= "/api/v1/batch_scrape"@);
    assert(JobKind::MapLinks.endpoint_path_spec() =~= "/api/v1/map"@);
}

} // verus!
