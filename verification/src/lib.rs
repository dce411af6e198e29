//! Core logic of a clipboard-translation utility: a tolerant parser for the
//! upstream translation API's response, a time-windowed duplicate-request
//! guard, a bounded translation history, and configuration loading with
//! forward migration.

use vstd::prelude::*;
use vstd::string::StringExecFns;

pub mod config;
pub mod dedup;
pub mod history;
pub mod hotkey;
pub mod json;
pub mod parse;
pub mod request;
pub mod text;
pub mod theme;

verus! {

/// The outcome of one translation call.
#[derive(Debug, Clone)]
pub struct TranslationResult {
    pub detected_language: String,
    pub translated_text: String,
}

/// A translation call's failure: either a suppressed duplicate submission,
/// or an upstream failure carrying the upstream detail text.
#[derive(Debug)]
pub enum Error {
    DuplicateRequest,
    ApiError(String),
}

impl Error {
    /// The user-visible message for this failure.
    pub fn message(&self) -> (r: String)
        ensures
            r@ == match self {
                Error::DuplicateRequest => "Duplicate request"@,
                Error::ApiError(e) => "API error: "@ + e@,
            },
    {
        match self {
            Error::DuplicateRequest => String::from_str("Duplicate request"),
            Error::ApiError(e) => String::from_str("API error: ").concat(e.as_str()),
        }
    }
}

/// What one translation yields, joined with the request's own data.
#[derive(Debug, Clone)]
pub struct TranslationResponse {
    pub original_text: String,
    pub translated_text: String,
    pub detected_language: String,
    pub target_language: String,
}

} // verus!
