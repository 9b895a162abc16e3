//! End-to-end tests of the pipeline: manifest text in, serialized result out.

use veritas_core::assemble::{parse_manifest, verify_outcome, EngineOutcome};
use veritas_core::render::render_result;
use veritas_core::result::StatusCode;

#[test]
fn no_provenance_outcome_is_fixed_none_result() {
    let out = verify_outcome(&EngineOutcome::NoProvenanceData);
    assert_eq!(
        out,
        r#"{"status":"none","claims":null,"history":[],"thumbnail":null,"raw_manifest":null}"#
    );
}

#[test]
fn extraction_failure_outcome_preserves_message() {
    let out = verify_outcome(&EngineOutcome::ExtractionFailed(
        "Manifest extraction error: bad box".to_string(),
    ));
    assert_eq!(
        out,
        r#"{"status":"error","claims":null,"history":[],"thumbnail":null,"raw_manifest":"Manifest extraction error: bad box"}"#
    );
}

#[test]
fn unparseable_manifest_text_yields_error_with_text_preserved() {
    let r = parse_manifest("not json at all {");
    assert_eq!(r.status, StatusCode::Error);
    assert!(r.claims.is_none());
    assert!(r.history.is_empty());
    assert!(r.thumbnail.is_none());
    assert_eq!(r.raw_manifest, Some("not json at all {".to_string()));
}

#[test]
fn pipeline_is_idempotent_byte_for_byte() {
    let text = r#"{"active_manifest":"m1","manifests":{"m1":{"claim_generator":"ACME","assertions":[{"label":"c2pa.actions","data":{"actions":[{"action":"c2pa.created","softwareAgent":"ACME","when":"2023-01-01"}]}}]}}}"#;
    let out1 = verify_outcome(&EngineOutcome::ManifestText(text.to_string()));
    let out2 = verify_outcome(&EngineOutcome::ManifestText(text.to_string()));
    assert_eq!(out1, out2);
}

#[test]
fn parse_result_reaches_the_parsed_tree_not_the_raw_text() {
    let r = parse_manifest(r#"{"claim_generator":"Tool"}"#);
    assert_eq!(r.status, StatusCode::Valid);
    let c = r.claims.expect("claims present");
    assert_eq!(c.tool, Some("Tool".to_string()));
    assert_eq!(r.raw_manifest, Some(r#"{"claim_generator":"Tool"}"#.to_string()));
}

#[test]
fn active_manifest_is_resolved_inside_manifests() {
    let text = r#"{"active_manifest":"b","manifests":{"a":{"claim_generator":"Wrong"},"b":{"claim_generator":"Right"}}}"#;
    let r = parse_manifest(text);
    let c = r.claims.expect("claims present");
    assert_eq!(c.tool, Some("Right".to_string()));
}

#[test]
fn store_without_active_manifest_key_is_used_as_the_node() {
    let text = r#"{"manifests":{"a":{"claim_generator":"Inner"}},"claim_generator":"Outer"}"#;
    let r = parse_manifest(text);
    let c = r.claims.expect("claims present");
    assert_eq!(c.tool, Some("Outer".to_string()));
    assert_eq!(r.status, StatusCode::Valid);
}

#[test]
fn unresolvable_active_manifest_falls_back_to_the_store() {
    let text = r#"{"active_manifest":"missing","manifests":{"a":{"claim_generator":"Inner"}},"claim_generator":"Outer"}"#;
    let r = parse_manifest(text);
    let c = r.claims.expect("claims present");
    assert_eq!(c.tool, Some("Outer".to_string()));
}

#[test]
fn rendered_result_escapes_strings() {
    let r = parse_manifest(r#"{"claim_generator":"A\"B\\C"}"#);
    let out = render_result(&r);
    assert!(out.contains(r#""tool":"A\"B\\C""#));
    // the raw manifest text is preserved verbatim, escaped for JSON
    assert!(out.contains(r#""raw_manifest":"{\"claim_generator\":\"A\\\"B\\\\C\"}""#));
}

#[test]
fn rendered_result_escapes_control_characters() {
    let r = parse_manifest("{\"claim_generator\":\"a\\nb\\u0001c\"}");
    let out = render_result(&r);
    assert!(out.contains(r#""tool":"a\nb\u0001c""#));
}

#[test]
fn empty_object_manifest_reports_none_status_and_no_claims() {
    let r = parse_manifest("{}");
    assert_eq!(r.status, StatusCode::NoData);
    assert!(r.claims.is_none());
    assert!(r.history.is_empty());
    assert!(r.thumbnail.is_none());
    let out = render_result(&r);
    assert_eq!(
        out,
        r#"{"status":"none","claims":null,"history":[],"thumbnail":null,"raw_manifest":"{}"}"#
    );
}

#[test]
fn full_manifest_renders_all_sections() {
    let text = r#"{"claim_generator":"ACME","metadata":{"dateTime":"2024-02-02"},"assertions":[{"label":"stds.schema-org.creativeWork","data":{"author":{"name":"Ada"},"name":"Sunset"}},{"label":"c2pa.actions","data":{"actions":[{"action":"c2pa.created","softwareAgent":"ACME","when":"2024-02-02"}]}},{"label":"c2pa.thumbnail.claim.jpeg","data":"QUJD"}]}"#;
    let r = parse_manifest(text);
    assert_eq!(r.status, StatusCode::Valid);
    let out = render_result(&r);
    let head = r#"{"status":"valid","claims":{"creator":"Ada","tool":"ACME","date":"2024-02-02","title":"Sunset"},"history":[{"action":"c2pa.created","tool":"ACME","timestamp":"2024-02-02"}],"thumbnail":"QUJD","raw_manifest":"#;
    let expected = format!("{}{}{}", head, expected_json_literal(text), "}");
    assert_eq!(out, expected);
}

// Builds the expected JSON string literal for a piece of text, for comparing
// whole rendered results.
fn expected_json_literal(s: &str) -> String {
    let mut out = String::from("\"");
    for c in s.chars() {
        match c {
            '"' => out.push_str("\\\""),
            '\\' => out.push_str("\\\\"),
            '\n' => out.push_str("\\n"),
            '\r' => out.push_str("\\r"),
            '\t' => out.push_str("\\t"),
            c if (c as u32) < 32 => out.push_str(&format!("\\u{:04x}", c as u32)),
            c => out.push(c),
        }
    }
    out.push('"');
    out
}
