//! Client configuration records and their defaults; reading them from
//! disk or the environment is the embedding application's business.

use vstd::prelude::*;

verus! {

/// Default base URL for local development.
pub const DEFAULT_API_URL: &'static str = "http://localhost:3000";

/// Default API path for crash reports.
pub const DEFAULT_CRASHES_PATH: &'static str = "/crashes";

/// Default request timeout in seconds.
pub const DEFAULT_TIMEOUT_SECS: u64 = 30;

/// API-specific configuration.
#[derive(Debug, Clone)]
pub struct ApiConfig {
    /// Base URL of the API server.
    pub url: String,
    /// API path for the crash-reports endpoint.
    pub crashes_path: String,
    /// Optional API key for authentication.
    pub api_key: Option<String>,
    /// Request timeout in seconds.
    pub timeout_secs: u64,
}

impl Default for ApiConfig {
    /// The development defaults: local server, standard path, no key.
    fn default() -> (r: Self)
        ensures
            r.url@ == "http://localhost:3000"@,
            r.crashes_path@ == "/crashes"@,
            r.api_key is None,
            r.timeout_secs == 30,
    {
        ApiConfig {
            url: String::from_str(DEFAULT_API_URL),
            crashes_path: String::from_str(DEFAULT_CRASHES_PATH),
            api_key: None,
            timeout_secs: DEFAULT_TIMEOUT_SECS,
        }
    }
}

/// Configuration for the crash-reporting client.
#[derive(Debug, Clone)]
pub struct Config {
    /// API configuration.
    pub api: ApiConfig,
}

impl Default for Config {
    /// The development defaults.
    fn default() -> (r: Self)
        ensures
            r.api.url@ == "http://localhost:3000"@,
            r.api.crashes_path@ == "/crashes"@,
            r.api.api_key is None,
            r.api.timeout_secs == 30,
    {
        Config { api: ApiConfig::default() }
    }
}

impl Config {
    /// Returns an example configuration file as text.
    pub fn example() -> (r: &'static str)
        ensures
            r@
                == "# CTD Configuration File\n# Place this file at ./ctd.toml or ~/.config/ctd/config.toml\n\n[api]\n# Base URL of the crash report server\nurl = \"http://localhost:3000\"\n\n# API path for crash reports endpoint\ncrashes_path = \"/crashes\"\n\n# Optional API key for authentication\n# api_key = \"your-api-key-here\"\n\n# Request timeout in seconds\ntimeout_secs = 30\n"@,
    {
        "# CTD Configuration File\n# Place this file at ./ctd.toml or ~/.config/ctd/config.toml\n\n[api]\n# Base URL of the crash report server\nurl = \"http://localhost:3000\"\n\n# API path for crash reports endpoint\ncrashes_path = \"/crashes\"\n\n# Optional API key for authentication\n# api_key = \"your-api-key-here\"\n\n# Request timeout in seconds\ntimeout_secs = 30\n"
    }
}

/// Configuration for the HTTP client that talks to the collector.
#[derive(Debug, Clone)]
pub struct ApiClientConfig {
    /// Base URL of the API server.
    pub base_url: String,
    /// Optional API key for authentication.
    pub api_key: Option<String>,
    /// Request timeout in seconds.
    pub timeout_secs: u64,
}

impl Default for ApiClientConfig {
    /// The production defaults: hosted collector, no key, 30 seconds.
    fn default() -> (r: Self)
        ensures
            r.base_url@ == "https://api.ctd.ezmode.games"@,
            r.api_key is None,
            r.timeout_secs == 30,
    {
        ApiClientConfig {
            base_url: String::from_str("https://api.ctd.ezmode.games"),
            api_key: None,
            timeout_secs: 30,
        }
    }
}

impl ApiClientConfig {
    /// Creates a configuration with the given base URL and the default
    /// key and timeout.
    pub fn new(base_url: &str) -> (r: Self)
        ensures
            r.base_url@ == base_url@,
            r.api_key is None,
            r.timeout_secs == 30,
    {
        ApiClientConfig { base_url: base_url.to_owned(), api_key: None, timeout_secs: 30 }
    }

    /// Sets the API key.
    pub fn with_api_key(self, api_key: &str) -> (r: Self)
        ensures
            r.base_url == self.base_url,
            r.api_key matches Some(k) && k@ == api_key@,
            r.timeout_secs == self.timeout_secs,
    {
        Self { api_key: Some(api_key.to_owned()), ..self }
    }

    /// Sets the timeout in seconds.
    pub fn with_timeout(self, timeout_secs: u64) -> (r: Self)
        ensures
            r.base_url == self.base_url,
            r.api_key == self.api_key,
            r.timeout_secs == timeout_secs,
    {
        Self { timeout_secs, ..self }
    }
}

} // verus!
