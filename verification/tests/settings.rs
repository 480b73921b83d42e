//! Settings given on the command line.

use odoo_operator::settings::{
    bind_address, document_text, list_text, parse_json_opt, parse_json_vec, DocumentShape,
};

#[test]
fn parse_json_opt_handles_empty_and_brackets() {
    assert!(parse_json_opt("", "x", DocumentShape::Affinity).unwrap().is_none());
    assert!(parse_json_opt("{}", "x", DocumentShape::Affinity).unwrap().is_none());
    assert!(parse_json_opt("null", "x", DocumentShape::Affinity).unwrap().is_none());
    assert!(parse_json_opt("  {}  ", "x", DocumentShape::Affinity).unwrap().is_none());
}

#[test]
fn parse_json_opt_parses_affinity() {
    let json = r#"{"nodeAffinity":{"preferredDuringSchedulingIgnoredDuringExecution":[{"weight":100,"preference":{"matchExpressions":[{"key":"bemade.org/compute","operator":"In","values":["true"]}]}}]}}"#;
    let document = parse_json_opt(json, "x", DocumentShape::Affinity).unwrap().unwrap();
    let aff: k8s_openapi::api::core::v1::Affinity = serde_json::from_str(&document).unwrap();
    let pref = aff
        .node_affinity
        .unwrap()
        .preferred_during_scheduling_ignored_during_execution
        .unwrap();
    assert_eq!(pref.len(), 1);
    assert_eq!(pref[0].weight, 100);
}

#[test]
fn parse_json_opt_parses_resources() {
    let json = r#"{"requests":{"cpu":"400m","memory":"256Mi"},"limits":{"cpu":"2000m","memory":"4Gi"}}"#;
    let document = parse_json_opt(json, "x", DocumentShape::Resources).unwrap().unwrap();
    let r: k8s_openapi::api::core::v1::ResourceRequirements = serde_json::from_str(&document).unwrap();
    assert!(r.requests.is_some());
    assert!(r.limits.is_some());
}

#[test]
fn parse_json_vec_handles_empty() {
    assert!(parse_json_vec("", "x").unwrap().is_empty());
    assert!(parse_json_vec("[]", "x").unwrap().is_empty());
    assert!(parse_json_vec("null", "x").unwrap().is_empty());
}

#[test]
fn parse_json_vec_parses_tolerations() {
    let json = r#"[{"key":"dedicated","operator":"Equal","value":"odoo","effect":"NoSchedule"}]"#;
    let t = parse_json_vec(json, "x").unwrap();
    assert_eq!(t.len(), 1);
    let first: k8s_openapi::api::core::v1::Toleration = serde_json::from_str(&t[0]).unwrap();
    assert_eq!(first.key.as_deref(), Some("dedicated"));
}

#[test]
fn parse_json_opt_returns_error_on_invalid() {
    assert!(parse_json_opt("not json", "x", DocumentShape::Affinity).is_err());
}

#[test]
fn errors_name_the_setting() {
    let e = parse_json_opt("not json", "default-odoo-affinity", DocumentShape::Affinity);
    assert_eq!(
        e.unwrap_err(),
        "failed to parse --default-odoo-affinity as JSON: expected ident at line 1 column 2"
    );
    let e = parse_json_opt("7", "default-odoo-resources", DocumentShape::Resources).unwrap_err();
    assert!(e.starts_with("failed to parse --default-odoo-resources as JSON: "), "{}", e);
    let e = parse_json_vec("{}", "default-odoo-tolerations").unwrap_err();
    assert!(e.starts_with("failed to parse --default-odoo-tolerations as JSON array: "), "{}", e);
}

#[test]
fn documents_keep_what_their_shape_has() {
    let kept = parse_json_opt(
        r#" {"limits": {"cpu": "2"}, "unknown": 1} "#,
        "x",
        DocumentShape::Resources,
    );
    assert_eq!(kept.unwrap().unwrap(), r#"{"limits":{"cpu":"2"}}"#);
    let kept = parse_json_vec(r#"[ {"key": "a"}, {"operator": "Exists"} ]"#, "x").unwrap();
    assert_eq!(kept, vec![r#"{"key":"a"}"#.to_string(), r#"{"operator":"Exists"}"#.to_string()]);
}

#[test]
fn settings_are_trimmed() {
    assert_eq!(document_text("  {\"a\":1}\n").as_deref(), Some("{\"a\":1}"));
    assert_eq!(document_text(" null "), None);
    assert_eq!(document_text("[]").as_deref(), Some("[]"));
    assert_eq!(list_text(" [] "), None);
    assert_eq!(list_text("{}").as_deref(), Some("{}"));
}

#[test]
fn addresses_are_completed() {
    assert_eq!(bind_address(":8080"), "0.0.0.0:8080");
    assert_eq!(bind_address("127.0.0.1:8080"), "127.0.0.1:8080");
    assert_eq!(bind_address(&bind_address(":9443")), "0.0.0.0:9443");
    assert_eq!(bind_address(""), "");
}
