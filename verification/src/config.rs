//! Session Configuration: the immutable triple of base endpoint, proxy
//! endpoint, and authentication cookie used for every outbound request.

use vstd::prelude::*;

verus! {

/// The immutable session configuration. Created once at startup and never
/// mutated; every outbound request reads it.
pub struct AppConfig {
    /// Base endpoint URL of the tracker.
    pub base_url: String,
    /// Forward proxy endpoint that every request is routed through.
    pub proxy_url: String,
    /// Opaque session cookie attached to every request.
    pub cookie: String,
}

/// The configuration synthesized when no persisted configuration exists.
pub fn default_config() -> (c: AppConfig)
    ensures
        c.base_url@ == "https://rutracker.org"@,
        c.proxy_url@ == "https://ps1.blockme.site:443"@,
        c.cookie@ == "bb_session=0-52335687-cqygg3U3HlXLVNkKPD6R"@,
{
    AppConfig {
        base_url: "https://rutracker.org".to_owned(),
        proxy_url: "https://ps1.blockme.site:443".to_owned(),
        cookie: "bb_session=0-52335687-cqygg3U3HlXLVNkKPD6R".to_owned(),
    }
}

} // verus!
