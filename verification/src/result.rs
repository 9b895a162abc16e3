//! The stable result shape handed to the caller: a status code, optional
//! authorship claims, an ordered edit history, an optional inline preview
//! image, and the original manifest text kept verbatim for audit.

use vstd::prelude::*;

verus! {

/// Validation status of a manifest. Exactly one applies; `Error` is reserved
/// for a manifest text that could not be parsed at all.
#[derive(Clone, Copy, Debug, PartialEq, Eq, Structural)]
pub enum StatusCode {
    Valid,
    Invalid,
    Expired,
    NoData,
    Error,
}

/// Human-readable authorship claims; each field independently optional.
#[derive(Debug)]
pub struct Claims {
    pub creator: Option<String>,
    pub tool: Option<String>,
    pub date: Option<String>,
    pub title: Option<String>,
}

/// One edit/action event of the manifest's declared history.
#[derive(Debug)]
pub struct HistoryEvent {
    pub action: String,
    pub tool: String,
    pub timestamp: String,
}

/// The full normalized verification result.
#[derive(Debug)]
pub struct VerificationResult {
    pub status: StatusCode,
    pub claims: Option<Claims>,
    pub history: Vec<HistoryEvent>,
    pub thumbnail: Option<String>,
    pub raw_manifest: Option<String>,
}

/// Mathematical image of an optional string.
pub open spec fn view_opt_text(o: Option<String>) -> Option<Seq<char>> {
    match o {
        Some(s) => Some(s@),
        None => None,
    }
}

/// Mathematical image of `Claims`.
pub struct SpecClaims {
    pub creator: Option<Seq<char>>,
    pub tool: Option<Seq<char>>,
    pub date: Option<Seq<char>>,
    pub title: Option<Seq<char>>,
}

impl View for Claims {
    type V = SpecClaims;

    open spec fn view(&self) -> SpecClaims {
        SpecClaims {
            creator: view_opt_text(self.creator),
            tool: view_opt_text(self.tool),
            date: view_opt_text(self.date),
            title: view_opt_text(self.title),
        }
    }
}

/// Mathematical image of a `HistoryEvent`.
pub struct SpecHistoryEvent {
    pub action: Seq<char>,
    pub tool: Seq<char>,
    pub timestamp: Seq<char>,
}

impl View for HistoryEvent {
    type V = SpecHistoryEvent;

    open spec fn view(&self) -> SpecHistoryEvent {
        SpecHistoryEvent { action: self.action@, tool: self.tool@, timestamp: self.timestamp@ }
    }
}

/// Mathematical image of a sequence of history events.
pub open spec fn views_of(events: Seq<HistoryEvent>) -> Seq<SpecHistoryEvent> {
    events.map_values(|e: HistoryEvent| e@)
}

/// Mathematical image of a `VerificationResult`.
pub struct SpecResult {
    pub status: StatusCode,
    pub claims: Option<SpecClaims>,
    pub history: Seq<SpecHistoryEvent>,
    pub thumbnail: Option<Seq<char>>,
    pub raw_manifest: Option<Seq<char>>,
}

impl View for VerificationResult {
    type V = SpecResult;

    open spec fn view(&self) -> SpecResult {
        SpecResult {
            status: self.status,
            claims: match self.claims {
                Some(c) => Some(c@),
                None => None,
            },
            history: views_of(self.history@),
            thumbnail: view_opt_text(self.thumbnail),
            raw_manifest: view_opt_text(self.raw_manifest),
        }
    }
}

} // verus!
