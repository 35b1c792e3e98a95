//! Configuration shared by every handler call: the port of the local
//! Firecrawl backend and the endpoint of the content-addressed store.

use vstd::prelude::*;

verus! {

/// Port the backend listens on when none is configured.
pub const DEFAULT_FIRECRAWL_HTTP_PORT: u16 = 8080;

/// Application configuration parameters, loaded once at process start.
///
/// Construction from the process environment (and the fatal handling of
/// malformed settings) is the embedding program's job; the relay logic
/// only reads these two values.
#[derive(Clone, Debug)]
pub struct BlueprintEnvironment {
    /// HTTP port of the local Firecrawl backend service.
    pub firecrawl_http_port: u16,
    /// API endpoint URL of the content-addressed store.
    pub ipfs_api_url: String,
}

impl BlueprintEnvironment {
    /// Packs the two configuration values; nothing is read or checked here.
    pub fn new(firecrawl_http_port: u16, ipfs_api_url: String) -> (r: Self)
        ensures
            r.firecrawl_http_port == firecrawl_http_port,
            r.ipfs_api_url@ == ipfs_api_url@,
    {
        BlueprintEnvironment { firecrawl_http_port, ipfs_api_url }
    }
}

} // verus!
