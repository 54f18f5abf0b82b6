//! Crash-capture core: fingerprinting, inventory modelling, symbol
//! resolution, exception classification, report building and the
//! submission guard for a crash-to-desktop reporter.

pub mod capture;
pub mod config;
pub mod dispatch;
pub mod fingerprint;
pub mod host;
pub mod inventory;
pub mod jsontext;
pub mod report;
pub mod scanner;
pub mod strfmt;
pub mod symbols;
pub mod version;

use vstd::prelude::*;

verus! {

/// Error type for the core operations.
#[derive(Debug, Clone)]
pub enum CtdError {
    /// Failed to load or parse configuration.
    Config(String),
    /// Failed to parse a load order file or data.
    LoadOrderParse(String),
    /// Failed to serialize or deserialize data.
    Serialize(String),
    /// An API request failed.
    ApiRequest(String),
    /// A crash report failed validation.
    Validation(String),
    /// A symbol file could not be loaded or parsed.
    Symbol(String),
}

/// The descriptive text of a core error.
pub open spec fn ctd_error_text(e: CtdError) -> Seq<char> {
    match e {
        CtdError::Config(m) => "Configuration error: "@ + m@,
        CtdError::LoadOrderParse(m) => "Failed to parse load order: "@ + m@,
        CtdError::Serialize(m) => "Failed to serialize crash report: "@ + m@,
        CtdError::ApiRequest(m) => "API request failed: "@ + m@,
        CtdError::Validation(m) => "Validation error: "@ + m@,
        CtdError::Symbol(m) => "Symbol error: "@ + m@,
    }
}

impl CtdError {
    /// Renders the error for logs and operators.
    pub fn message(&self) -> (r: String)
        ensures
            r@ == ctd_error_text(*self),
    {
        let mut out = String::new();
        match self {
            CtdError::Config(m) => {
                out.append("Configuration error: ");
                out.append(m.as_str());
            },
            CtdError::LoadOrderParse(m) => {
                out.append("Failed to parse load order: ");
                out.append(m.as_str());
            },
            CtdError::Serialize(m) => {
                out.append("Failed to serialize crash report: ");
                out.append(m.as_str());
            },
            CtdError::ApiRequest(m) => {
                out.append("API request failed: ");
                out.append(m.as_str());
            },
            CtdError::Validation(m) => {
                out.append("Validation error: ");
                out.append(m.as_str());
            },
            CtdError::Symbol(m) => {
                out.append("Symbol error: ");
                out.append(m.as_str());
            },
        }
        out
    }
}

} // verus!
