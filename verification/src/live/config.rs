//! Where the server is and how patiently it is asked.

use vstd::prelude::*;

verus! {

/// The settings of a client: the address that every path is appended to, and
/// the retry ceiling, the number of times a request may be sent again after
/// the server answered with a status other than success.
#[derive(Debug)]
pub struct LiveClientConfig {
    pub base_url: String,
    pub retries: u8,
}

impl LiveClientConfig {
    /// The address on which the game serves the API.
    pub const DEFAULT_BASE_URL: &'static str = "https://127.0.0.1:2999";

    /// The retry ceiling of a default client.
    pub const DEFAULT_RETRIES: u8 = 3;

    /// The default settings.
    pub fn new() -> (config: Self)
        ensures
            config.base_url@ == "https://127.0.0.1:2999"@,
            config.retries == 3,
    {
        Self { base_url: String::from_str(Self::DEFAULT_BASE_URL), retries: Self::DEFAULT_RETRIES }
    }

    /// Settings for another address or ceiling. An empty address is refused;
    /// any other is taken as it is, and one that leads nowhere shows when a
    /// request is sent.
    pub fn with_base_url(base_url: &str, retries: u8) -> (config: Option<Self>)
        ensures
            base_url@.len() == 0 <==> config is None,
            config matches Some(c) ==> c.base_url@ == base_url@ && c.retries == retries,
    {
        if base_url.is_empty() {
            None
        } else {
            Some(Self { base_url: String::from_str(base_url), retries })
        }
    }

    /// The address of `path` on the configured server: the base address with
    /// the path behind it, nothing put between and nothing escaped.
    pub fn url_for(&self, path: &str) -> (url: String)
        ensures
            url@ == self.base_url@ + path@,
    {
        self.base_url.clone().concat(path)
    }
}

} // verus!
