//! Relay pipeline for forwarding scraping-job invocations to a local
//! Firecrawl backend and persisting the backend's JSON response in a
//! content-addressed store.
//!
//! The library holds the decision logic of the relay: validating the
//! payload, building the backend request, classifying the backend's
//! answer, and turning the store's answer into the job result. The
//! blocking I/O itself (the HTTP call and the store submission) is done
//! by the embedding program, which feeds the outcomes back in as plain
//! events.

pub mod context;
pub mod errors;
pub mod json;
pub mod relay;
pub mod text;

pub use context::BlueprintEnvironment;
pub use errors::RelayError;
pub use relay::{JOB_BATCH_SCRAPE_ID, JOB_CRAWL_ID, JOB_MAP_ID, JOB_SCRAPE_ID, JobKind};
