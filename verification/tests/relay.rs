use firecrawl_relay::relay::{
    classify_response, complete, prepare_request, BackendRequest, HttpOutcome, StoreOutcome,
};
use firecrawl_relay::text::u16_dec_string;
use firecrawl_relay::{
    BlueprintEnvironment, JobKind, RelayError, JOB_BATCH_SCRAPE_ID, JOB_CRAWL_ID, JOB_MAP_ID,
    JOB_SCRAPE_ID,
};

/// Drives one full invocation the way the embedding program does: the
/// backend and the store are closures standing in for the two I/O steps.
fn run_invocation(
    kind: JobKind,
    port: u16,
    payload: &str,
    backend: &mut dyn FnMut(&BackendRequest) -> HttpOutcome,
    store: &mut dyn FnMut(&[u8]) -> StoreOutcome,
) -> Result<String, RelayError> {
    let request = prepare_request(kind, port, payload)?;
    let outcome = backend(&request);
    let artifact = classify_response(outcome)?;
    let stored = store(&artifact);
    complete(stored)
}

fn ok_backend(status: u16, body: &str) -> impl FnMut(&BackendRequest) -> HttpOutcome {
    let body = body.to_string();
    move |_req| HttpOutcome::Response {
        status,
        body: body.clone(),
    }
}

#[test]
fn invalid_payload_rejected_before_any_request() {
    for payload in ["not json", "", "{", "[1,", "{\"a\": }", "tru"] {
        let mut backend_calls = 0;
        let mut store_calls = 0;
        let result = run_invocation(
            JobKind::Scrape,
            8080,
            payload,
            &mut |_req| {
                backend_calls += 1;
                HttpOutcome::Response {
                    status: 200,
                    body: "{}".to_string(),
                }
            },
            &mut |_bytes| {
                store_calls += 1;
                StoreOutcome::Stored("QmUnused".to_string())
            },
        );
        assert_eq!(result, Err(RelayError::InvalidInput), "payload: {payload:?}");
        assert_eq!(backend_calls, 0, "payload: {payload:?}");
        assert_eq!(store_calls, 0, "payload: {payload:?}");
    }
}

#[test]
fn valid_payload_stores_one_artifact_and_returns_identifier() {
    let mut stored_artifacts: Vec<Vec<u8>> = Vec::new();
    let result = run_invocation(
        JobKind::Scrape,
        8080,
        "{\"url\":\"https://example.com\"}",
        &mut ok_backend(200, "{\"ok\":true}"),
        &mut |bytes| {
            stored_artifacts.push(bytes.to_vec());
            StoreOutcome::Stored("QmStub42".to_string())
        },
    );
    assert_eq!(result, Ok("QmStub42".to_string()));
    assert_eq!(stored_artifacts.len(), 1);

    let decoded: serde_json::Value = serde_json::from_slice(&stored_artifacts[0]).unwrap();
    let mut expected_map = serde_json::Map::new();
    expected_map.insert("ok".to_string(), serde_json::Value::Bool(true));
    assert_eq!(decoded, serde_json::Value::Object(expected_map));
}

#[test]
fn backend_rejection_carries_status_and_body() {
    let mut store_calls = 0;
    let result = run_invocation(
        JobKind::Scrape,
        8080,
        "{\"url\":\"https://example.com\"}",
        &mut ok_backend(500, "\"boom\""),
        &mut |_bytes| {
            store_calls += 1;
            StoreOutcome::Stored("QmUnused".to_string())
        },
    );
    assert_eq!(
        result,
        Err(RelayError::BackendRejected {
            status: 500,
            body: "\"boom\"".to_string(),
        })
    );
    assert_eq!(store_calls, 0);
}

#[test]
fn malformed_backend_response_never_reaches_store() {
    let mut store_calls = 0;
    let result = run_invocation(
        JobKind::Crawl,
        8080,
        "{}",
        &mut ok_backend(200, "not json"),
        &mut |_bytes| {
            store_calls += 1;
            StoreOutcome::Stored("QmUnused".to_string())
        },
    );
    assert_eq!(result, Err(RelayError::MalformedBackendResponse));
    assert_eq!(store_calls, 0);
}

#[test]
fn identical_backend_responses_yield_identical_identifiers() {
    // A fixed, content-addressed stand-in for the store: the identifier
    // is a pure function of the submitted bytes.
    let mut fixed_store = |bytes: &[u8]| {
        let sum: u64 = bytes.iter().map(|b| *b as u64).sum();
        StoreOutcome::Stored(format!("Qm{}x{}", bytes.len(), sum))
    };
    let mut artifacts: Vec<Vec<u8>> = Vec::new();
    let mut run_once = |artifacts: &mut Vec<Vec<u8>>| {
        let outcome = HttpOutcome::Response {
            status: 200,
            body: "{\"pages\":[{\"n\":1},{\"n\":2}]}".to_string(),
        };
        let artifact = classify_response(outcome).unwrap();
        artifacts.push(artifact.clone());
        complete(fixed_store(&artifact)).unwrap()
    };
    let cid1 = run_once(&mut artifacts);
    let cid2 = run_once(&mut artifacts);
    assert_eq!(artifacts[0], artifacts[1]);
    assert_eq!(cid1, cid2);
}

#[test]
fn each_operation_hits_its_own_path() {
    let cases = [
        (JobKind::Scrape, "/api/v1/scrape"),
        (JobKind::Crawl, "/api/v1/crawl"),
        (JobKind::BatchScrape, "/api/v1/batch_scrape"),
        (JobKind::MapLinks, "/api/v1/map"),
    ];
    for (kind, expected_path) in cases {
        let mut seen_paths: Vec<String> = Vec::new();
        let result = run_invocation(
            kind,
            9123,
            "{}",
            &mut |req| {
                seen_paths.push(req.endpoint_path.clone());
                assert_eq!(req.backend_port, 9123);
                HttpOutcome::Response {
                    status: 200,
                    body: "{}".to_string(),
                }
            },
            &mut |_bytes| StoreOutcome::Stored("QmUnused".to_string()),
        );
        assert!(result.is_ok());
        assert_eq!(seen_paths, vec![expected_path.to_string()]);
    }
}

#[test]
fn transport_failure_surfaces_as_backend_unreachable() {
    let result = run_invocation(
        JobKind::Scrape,
        8080,
        "{}",
        &mut |_req| HttpOutcome::Transport("connection refused".to_string()),
        &mut |_bytes| StoreOutcome::Stored("QmUnused".to_string()),
    );
    assert_eq!(
        result,
        Err(RelayError::BackendUnreachable(
            "connection refused".to_string()
        ))
    );
}

#[test]
fn store_failure_never_fabricates_an_identifier() {
    let result = run_invocation(
        JobKind::Scrape,
        8080,
        "{}",
        &mut ok_backend(200, "{\"ok\":true}"),
        &mut |_bytes| StoreOutcome::Failed("store offline".to_string()),
    );
    assert_eq!(
        result,
        Err(RelayError::StoreFailure("store offline".to_string()))
    );
}

#[test]
fn request_body_is_canonical_not_verbatim() {
    // The spaced payload must be re-serialized compactly, so the body
    // sent to the backend differs from the text that came in.
    let request = prepare_request(JobKind::Scrape, 8080, "{ \"ok\" :   true }").unwrap();
    assert_eq!(request.body, b"{\"ok\":true}".to_vec());
}

#[test]
fn artifact_is_canonical_form_of_response_body() {
    let artifact = classify_response(HttpOutcome::Response {
        status: 200,
        body: "{ \"ok\" :   true }".to_string(),
    })
    .unwrap();
    assert_eq!(artifact, b"{\"ok\":true}".to_vec());
}

#[test]
fn success_status_boundaries() {
    for (status, success) in [(199u16, false), (200, true), (299, true), (300, false)] {
        let result = classify_response(HttpOutcome::Response {
            status,
            body: "{}".to_string(),
        });
        if success {
            assert!(result.is_ok(), "status {status}");
        } else {
            assert_eq!(
                result,
                Err(RelayError::BackendRejected {
                    status,
                    body: "{}".to_string(),
                }),
                "status {status}"
            );
        }
    }
}

#[test]
fn request_url_names_local_backend_port_and_path() {
    let request = prepare_request(JobKind::Scrape, 8080, "{}").unwrap();
    assert_eq!(request.url(), "http://localhost:8080/api/v1/scrape");

    let request = prepare_request(JobKind::MapLinks, 65535, "{}").unwrap();
    assert_eq!(request.url(), "http://localhost:65535/api/v1/map");
}

#[test]
fn ports_render_in_decimal() {
    assert_eq!(u16_dec_string(0), "0");
    assert_eq!(u16_dec_string(7), "7");
    assert_eq!(u16_dec_string(10), "10");
    assert_eq!(u16_dec_string(8080), "8080");
    assert_eq!(u16_dec_string(65535), "65535");
}

#[test]
fn job_ids_route_to_their_operations() {
    assert_eq!(JobKind::from_job_id(JOB_SCRAPE_ID), Some(JobKind::Scrape));
    assert_eq!(JobKind::from_job_id(JOB_CRAWL_ID), Some(JobKind::Crawl));
    assert_eq!(
        JobKind::from_job_id(JOB_BATCH_SCRAPE_ID),
        Some(JobKind::BatchScrape)
    );
    assert_eq!(JobKind::from_job_id(JOB_MAP_ID), Some(JobKind::MapLinks));
    assert_eq!(JobKind::from_job_id(0), None);
    assert_eq!(JobKind::from_job_id(5), None);
    for kind in [
        JobKind::Scrape,
        JobKind::Crawl,
        JobKind::BatchScrape,
        JobKind::MapLinks,
    ] {
        assert_eq!(JobKind::from_job_id(kind.job_id()), Some(kind));
    }
}

#[test]
fn environment_holds_its_settings() {
    let env = BlueprintEnvironment::new(8080, "http://127.0.0.1:5001".to_string());
    assert_eq!(env.firecrawl_http_port, 8080);
    assert_eq!(env.ipfs_api_url, "http://127.0.0.1:5001");
}

#[test]
fn scalar_and_array_payloads_are_accepted() {
    // Any JSON shape passes validation; the backend is the authority on
    // semantics.
    for payload in ["3", "\"text\"", "[1,2,3]", "null", "true"] {
        let result = prepare_request(JobKind::Scrape, 8080, payload);
        assert!(result.is_ok(), "payload: {payload:?}");
    }
}
