//! Result assembly: the full pipeline from manifest text — or from the trust
//! engine's outcome — to one serialized verification result. Every path
//! terminates in a structurally valid result; no input raises an error.

use vstd::prelude::*;
use crate::tree::TreeValue;
use crate::result::{StatusCode, VerificationResult, SpecResult, views_of};
use crate::status::{spec_classify, classify};
use crate::claims::{spec_claims, extract_claims};
use crate::history::{spec_history, extract_history};
use crate::thumbnail::{spec_thumbnail, extract_thumbnail};
use crate::locate::{spec_resolve, resolve};
use crate::parse::{json_tree, parse_json};
use crate::render::{spec_render, render_result};

verus! {

/// The result computed from one resolved manifest node, with the original
/// manifest text preserved verbatim in `raw_manifest`.
pub open spec fn spec_assemble(node: TreeValue, raw: Seq<char>) -> SpecResult {
    SpecResult {
        status: spec_classify(node),
        claims: spec_claims(node),
        history: spec_history(node),
        thumbnail: spec_thumbnail(node),
        raw_manifest: Some(raw),
    }
}

/// The fixed error result: status `error`, with diagnostic text preserved.
pub open spec fn spec_error_result(text: Seq<char>) -> SpecResult {
    SpecResult {
        status: StatusCode::Error,
        claims: None,
        history: Seq::<crate::result::SpecHistoryEvent>::empty(),
        thumbnail: None,
        raw_manifest: Some(text),
    }
}

/// The fixed result for an engine that found no provenance data at all.
pub open spec fn spec_no_data_result() -> SpecResult {
    SpecResult {
        status: StatusCode::NoData,
        claims: None,
        history: Seq::<crate::result::SpecHistoryEvent>::empty(),
        thumbnail: None,
        raw_manifest: None,
    }
}

/// The result of the whole pipeline on manifest text: parse, locate the
/// active node, then classify and extract; on a parse failure, the error
/// result with the unparsed text preserved.
pub open spec fn spec_parse_manifest(text: Seq<char>) -> SpecResult {
    match json_tree(text) {
        Some(store) => spec_assemble(spec_resolve(store), text),
        None => spec_error_result(text),
    }
}

/// Assembles the result for one resolved manifest node.
pub fn assemble(node: &TreeValue, raw: &str) -> (r: VerificationResult)
    ensures
        r@ == spec_assemble(*node, raw@),
{
    let r = VerificationResult {
        status: classify(node),
        claims: extract_claims(node),
        history: extract_history(node),
        thumbnail: extract_thumbnail(node),
        raw_manifest: Some(raw.to_owned()),
    };
    r
}

/// Runs the pipeline on manifest text. Total: an unparseable text yields the
/// error result with the text preserved, never a failure.
pub fn parse_manifest(text: &str) -> (r: VerificationResult)
    ensures
        r@ == spec_parse_manifest(text@),
{
    match parse_json(text) {
        Some(store) => {
            let node = resolve(&store);
            assemble(node, text)
        },
        None => {
            let r = VerificationResult {
                status: StatusCode::Error,
                claims: None,
                history: Vec::new(),
                thumbnail: None,
                raw_manifest: Some(text.to_owned()),
            };
            proof {
                assert(views_of(r.history@) =~= Seq::<crate::result::SpecHistoryEvent>::empty());
            }
            r
        },
    }
}

/// What the trust verification engine reported: manifest text, no provenance
/// data present, or an extraction failure with its description.
pub enum EngineOutcome {
    ManifestText(String),
    NoProvenanceData,
    ExtractionFailed(String),
}

/// The result owed for each engine outcome: the full pipeline on manifest
/// text; the fixed no-data result; or the error result carrying the
/// engine's message.
pub open spec fn spec_outcome_result(o: EngineOutcome) -> SpecResult {
    match o {
        EngineOutcome::ManifestText(t) => spec_parse_manifest(t@),
        EngineOutcome::NoProvenanceData => spec_no_data_result(),
        EngineOutcome::ExtractionFailed(msg) => spec_error_result(msg@),
    }
}

/// Turns the engine's outcome into the serialized verification result.
/// Total over all outcomes: the caller always receives well-formed JSON,
/// never a raised error.
pub fn verify_outcome(outcome: &EngineOutcome) -> (out: String)
    ensures
        out@ == spec_render(spec_outcome_result(*outcome)),
{
    let result = match outcome {
        EngineOutcome::ManifestText(t) => parse_manifest(t.as_str()),
        EngineOutcome::NoProvenanceData => {
            let r = VerificationResult {
                status: StatusCode::NoData,
                claims: None,
                history: Vec::new(),
                thumbnail: None,
                raw_manifest: None,
            };
            proof {
                assert(views_of(r.history@) =~= Seq::<crate::result::SpecHistoryEvent>::empty());
            }
            r
        },
        EngineOutcome::ExtractionFailed(msg) => {
            let r = VerificationResult {
                status: StatusCode::Error,
                claims: None,
                history: Vec::new(),
                thumbnail: None,
                raw_manifest: Some(msg.clone()),
            };
            proof {
                assert(views_of(r.history@) =~= Seq::<crate::result::SpecHistoryEvent>::empty());
            }
            r
        },
    };
    render_result(&result)
}

} // verus!
