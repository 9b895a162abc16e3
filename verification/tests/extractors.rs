//! Component-level tests: classifier, claims, history, thumbnail and
//! locator, exercised on trees built by hand.

use veritas_core::tree::TreeValue;
use veritas_core::result::StatusCode;
use veritas_core::status::classify;
use veritas_core::claims::extract_claims;
use veritas_core::history::extract_history;
use veritas_core::thumbnail::extract_thumbnail;
use veritas_core::locate::resolve;
use veritas_core::text::str_contains;

fn obj(entries: Vec<(&str, TreeValue)>) -> TreeValue {
    TreeValue::Object(entries.into_iter().map(|(k, v)| (k.to_string(), v)).collect())
}

fn text(s: &str) -> TreeValue {
    TreeValue::Text(s.to_string())
}

#[test]
fn expired_code_overrides_present_claim() {
    let node = obj(vec![
        (
            "validation_status",
            TreeValue::Array(vec![obj(vec![("code", text("signingCredential.expired"))])]),
        ),
        ("claim_generator", text("ACME")),
    ]);
    assert_eq!(classify(&node), StatusCode::Expired);
}

#[test]
fn first_failure_signal_in_scan_order_wins() {
    let node = obj(vec![
        (
            "validation_status",
            TreeValue::Array(vec![
                obj(vec![("code", text("claimSignature.mismatch.invalid"))]),
                obj(vec![("code", text("signingCredential.expired"))]),
            ]),
        ),
    ]);
    assert_eq!(classify(&node), StatusCode::Invalid);
}

#[test]
fn failed_code_classifies_invalid() {
    let node = obj(vec![
        ("validation_status", TreeValue::Array(vec![obj(vec![("code", text("assertion.hashedURI.failed"))])])),
    ]);
    assert_eq!(classify(&node), StatusCode::Invalid);
}

#[test]
fn signature_validated_false_classifies_invalid() {
    let node = obj(vec![
        ("signature_info", obj(vec![("validated", TreeValue::Bool(false))])),
        ("claim_generator", text("ACME")),
    ]);
    assert_eq!(classify(&node), StatusCode::Invalid);
}

#[test]
fn presence_of_assertions_alone_classifies_valid() {
    let node = obj(vec![("assertions", TreeValue::Array(vec![]))]);
    assert_eq!(classify(&node), StatusCode::Valid);
}

#[test]
fn nothing_present_classifies_none() {
    let node = obj(vec![("other", text("x"))]);
    assert_eq!(classify(&node), StatusCode::NoData);
}

#[test]
fn claims_merge_generator_info_overrides_and_appends_version() {
    let node = obj(vec![
        ("claim_generator", text("ACME")),
        ("claim_generator_info", obj(vec![("name", text("ACME Pro")), ("version", text("2.0"))])),
    ]);
    let c = extract_claims(&node).expect("claims present");
    assert_eq!(c.tool, Some("ACME Pro 2.0".to_string()));
}

#[test]
fn version_without_info_name_appends_to_claim_generator() {
    let node = obj(vec![
        ("claim_generator", text("ACME")),
        ("claim_generator_info", obj(vec![("version", text("2.0"))])),
    ]);
    let c = extract_claims(&node).expect("claims present");
    assert_eq!(c.tool, Some("ACME 2.0".to_string()));
}

#[test]
fn creator_from_author_array_takes_first_name() {
    let node = obj(vec![(
        "assertions",
        TreeValue::Array(vec![obj(vec![
            ("label", text("stds.schema-org.creativeWork")),
            (
                "data",
                obj(vec![(
                    "author",
                    TreeValue::Array(vec![
                        obj(vec![("name", text("Ada"))]),
                        obj(vec![("name", text("Bob"))]),
                    ]),
                )]),
            ),
        ])]),
    )]);
    let c = extract_claims(&node).expect("claims present");
    assert_eq!(c.creator, Some("Ada".to_string()));
}

#[test]
fn creator_from_author_object_and_title_last_match_wins() {
    let node = obj(vec![(
        "assertions",
        TreeValue::Array(vec![
            obj(vec![
                ("label", text("creativeWork.v1")),
                ("data", obj(vec![("author", obj(vec![("name", text("First"))])), ("name", text("Old Title"))])),
            ]),
            obj(vec![
                ("label", text("my.creator.v2")),
                ("data", obj(vec![("author", obj(vec![("name", text("Second"))]))])),
            ]),
        ]),
    )]);
    let c = extract_claims(&node).expect("claims present");
    assert_eq!(c.creator, Some("Second".to_string()));
    assert_eq!(c.title, Some("Old Title".to_string()));
}

#[test]
fn date_falls_back_to_signature_time() {
    let node = obj(vec![("signature_info", obj(vec![("time", text("2020-05-05"))]))]);
    let c = extract_claims(&node).expect("claims present");
    assert_eq!(c.date, Some("2020-05-05".to_string()));
    let node2 = obj(vec![
        ("metadata", obj(vec![("dateTime", text("2021-06-06"))])),
        ("signature_info", obj(vec![("time", text("2020-05-05"))])),
    ]);
    let c2 = extract_claims(&node2).expect("claims present");
    assert_eq!(c2.date, Some("2021-06-06".to_string()));
}

#[test]
fn absent_claims_yield_no_claims_value() {
    let node = obj(vec![("validation_status", TreeValue::Array(vec![]))]);
    assert!(extract_claims(&node).is_none());
}

#[test]
fn history_fallback_synthesizes_single_created_event() {
    let node = obj(vec![
        ("claim_generator", text("Camera X")),
        ("metadata", obj(vec![("dateTime", text("2024-01-01T00:00:00Z"))])),
    ]);
    let h = extract_history(&node);
    assert_eq!(h.len(), 1);
    assert_eq!(h[0].action, "created");
    assert_eq!(h[0].tool, "Camera X");
    assert_eq!(h[0].timestamp, "2024-01-01T00:00:00Z");
}

#[test]
fn history_reads_actions_array_with_tool_fallbacks() {
    let node = obj(vec![(
        "assertions",
        TreeValue::Array(vec![obj(vec![
            ("label", text("c2pa.actions.v2")),
            (
                "data",
                obj(vec![(
                    "actions",
                    TreeValue::Array(vec![
                        obj(vec![("action", text("c2pa.edited")), ("softwareAgent", text("Editor")), ("when", text("t1"))]),
                        obj(vec![("action", text("c2pa.created")), ("digitalSourceType", text("camera"))]),
                        obj(vec![]),
                    ]),
                )]),
            ),
        ])]),
    )]);
    let h = extract_history(&node);
    assert_eq!(h.len(), 3);
    assert_eq!(h[0].action, "c2pa.edited");
    assert_eq!(h[0].tool, "Editor");
    assert_eq!(h[0].timestamp, "t1");
    assert_eq!(h[1].tool, "camera");
    assert_eq!(h[2].action, "unknown");
    assert_eq!(h[2].tool, "Unknown");
    assert_eq!(h[2].timestamp, "");
}

#[test]
fn history_reads_single_action_object_without_source_type_fallback() {
    let node = obj(vec![(
        "assertions",
        TreeValue::Array(vec![obj(vec![
            ("label", text("c2pa.actions")),
            ("data", obj(vec![("action", text("c2pa.created")), ("digitalSourceType", text("camera"))])),
        ])]),
    )]);
    let h = extract_history(&node);
    assert_eq!(h.len(), 1);
    assert_eq!(h[0].action, "c2pa.created");
    assert_eq!(h[0].tool, "Unknown");
}

#[test]
fn history_concatenates_matching_assertions_in_order() {
    let act = |name: &str| {
        obj(vec![
            ("label", text("c2pa.actions")),
            ("data", obj(vec![("actions", TreeValue::Array(vec![obj(vec![("action", text(name))])]))])),
        ])
    };
    let node = obj(vec![("assertions", TreeValue::Array(vec![act("one"), act("two")]))]);
    let h = extract_history(&node);
    assert_eq!(h.len(), 2);
    assert_eq!(h[0].action, "one");
    assert_eq!(h[1].action, "two");
}

#[test]
fn history_empty_without_any_tool_information() {
    let node = obj(vec![("metadata", obj(vec![("dateTime", text("2024-01-01"))]))]);
    assert!(extract_history(&node).is_empty());
}

#[test]
fn thumbnail_from_data_url_takes_base64_tail() {
    let node = obj(vec![(
        "assertions",
        TreeValue::Array(vec![obj(vec![
            ("label", text("c2pa.thumbnail")),
            ("url", text("data:image/jpeg;base64,AAAA")),
        ])]),
    )]);
    assert_eq!(extract_thumbnail(&node), Some("AAAA".to_string()));
}

#[test]
fn thumbnail_from_inline_data_string() {
    let node = obj(vec![(
        "assertions",
        TreeValue::Array(vec![obj(vec![
            ("label", text("c2pa.thumbnail.claim.jpeg")),
            ("data", text("QkFTRTY0")),
        ])]),
    )]);
    assert_eq!(extract_thumbnail(&node), Some("QkFTRTY0".to_string()));
}

#[test]
fn thumbnail_identifier_skips_data_but_consults_url() {
    let node = obj(vec![(
        "assertions",
        TreeValue::Array(vec![obj(vec![
            ("label", text("c2pa.thumbnail")),
            ("data", obj(vec![("identifier", text("ref-1"))])),
            ("url", text("data:image/jpeg;base64,RlJPTVVSTA==")),
        ])]),
    )]);
    assert_eq!(extract_thumbnail(&node), Some("RlJPTVVSTA==".to_string()));
}

#[test]
fn thumbnail_identifier_without_url_lets_the_scan_continue() {
    let node = obj(vec![(
        "assertions",
        TreeValue::Array(vec![
            obj(vec![
                ("label", text("c2pa.thumbnail")),
                ("data", obj(vec![("identifier", text("ref-1"))])),
            ]),
            obj(vec![("label", text("c2pa.thumbnail")), ("data", text("TEXT"))]),
        ]),
    )]);
    assert_eq!(extract_thumbnail(&node), Some("TEXT".to_string()));
}

#[test]
fn non_image_data_url_yields_no_thumbnail() {
    let node = obj(vec![(
        "assertions",
        TreeValue::Array(vec![obj(vec![
            ("label", text("c2pa.thumbnail")),
            ("url", text("data:text/plain;base64,AAAA")),
        ])]),
    )]);
    assert_eq!(extract_thumbnail(&node), None);
}

#[test]
fn resolver_falls_back_to_store_without_active_manifest() {
    let store = obj(vec![("manifests", obj(vec![("a", obj(vec![("claim_generator", text("Inner"))]))]))]);
    let node = resolve(&store);
    assert_eq!(classify(node), StatusCode::NoData);
}

#[test]
fn missing_active_manifest_never_selects_a_manifests_entry() {
    let store = obj(vec![("manifests", obj(vec![("", obj(vec![("claim_generator", text("Inner"))]))]))]);
    let node = resolve(&store);
    assert_eq!(classify(node), StatusCode::NoData);
}

#[test]
fn non_string_active_manifest_falls_back_to_the_store() {
    let store = obj(vec![
        ("active_manifest", TreeValue::Bool(true)),
        ("manifests", obj(vec![("a", obj(vec![("claim_generator", text("Inner"))]))])),
    ]);
    let node = resolve(&store);
    assert_eq!(classify(node), StatusCode::NoData);
}

#[test]
fn resolver_picks_the_named_manifest() {
    let store = obj(vec![
        ("active_manifest", text("a")),
        ("manifests", obj(vec![("a", obj(vec![("claim_generator", text("Inner"))]))])),
    ]);
    let node = resolve(&store);
    assert_eq!(classify(node), StatusCode::Valid);
}

#[test]
fn substring_matching_is_containment_not_equality() {
    assert!(str_contains("stds.schema-org.CreativeWork.v2", "creativeWork") == false);
    assert!(str_contains("stds.schema-org.creativeWork.v2", "creativeWork"));
    assert!(str_contains("anything", ""));
    assert!(!str_contains("short", "longer needle"));
}
