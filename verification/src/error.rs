//! Error type for API operations.

use vstd::prelude::*;

verus! {

/// Errors that can occur during API operations.
///
/// Transport, JSON and URL failures originate outside this crate; they are
/// carried here as plain message strings.
#[derive(Debug)]
pub enum FossaError {
    /// Configuration is missing or incomplete.
    ConfigMissing(String),
    /// Invalid locator format.
    InvalidLocator(String),
    /// Entity not found.
    NotFound { entity_type: String, id: String },
    /// API request failed with a non-success status.
    ApiError { message: String, status_code: Option<u16> },
    /// HTTP transport error.
    HttpError(String),
    /// Response body could not be parsed.
    ParseError(String),
    /// Base URL or request URL was invalid.
    UrlError(String),
    /// Rate limited by the server.
    RateLimited { retry_after_secs: Option<u64> },
}

} // verus!
