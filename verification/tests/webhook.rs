//! Validation of changes to an instance.

use odoo_operator::crd::odoo_instance::{
    DatabaseSpec, FilestoreSpec, OdooInstance, OdooInstancePhase, OdooInstanceSpec,
    OdooInstanceStatus,
};
use odoo_operator::preview;
use odoo_operator::webhook::{
    compare_quantities, parse_quantity, validate, AdmissionRequest, AdmissionResponse,
};

fn instance(cluster: Option<&str>, storage_class: Option<&str>) -> OdooInstance {
    let mut spec = OdooInstanceSpec::minimal("admin", 1, vec!["test.example.com".to_string()]);
    if let Some(c) = cluster {
        spec.database = Some(DatabaseSpec { cluster: Some(c.to_string()) });
    }
    if let Some(sc) = storage_class {
        spec.filestore = Some(FilestoreSpec {
            storage_size: None,
            storage_class: Some(sc.to_string()),
        });
    }
    let mut inst = OdooInstance::new("test", spec);
    inst.metadata.namespace = Some("default".to_string());
    inst.metadata.uid = Some("test-uid".to_string());
    inst
}

fn sized(size: &str) -> OdooInstance {
    let mut inst = instance(None, None);
    inst.spec.filestore = Some(FilestoreSpec {
        storage_size: Some(size.to_string()),
        storage_class: None,
    });
    inst
}

fn update(old: OdooInstance, new: OdooInstance) -> AdmissionRequest {
    AdmissionRequest { old_object: Some(old), object: Some(new) }
}

fn class_change(phase: Option<OdooInstancePhase>) -> AdmissionResponse {
    let mut old = instance(None, Some("cephfs"));
    if let Some(p) = phase {
        let mut status = OdooInstanceStatus::default();
        status.phase = Some(p);
        old.status = Some(status);
    }
    validate(&update(old, instance(None, Some("juicefs"))))
}

#[test]
fn test_parse_quantity() {
    assert_eq!(parse_quantity("2Gi").unwrap(), 2 * 1024 * 1024 * 1024);
    assert_eq!(parse_quantity("10Gi").unwrap(), 10 * 1024 * 1024 * 1024);
    assert_eq!(parse_quantity("500Mi").unwrap(), 500 * 1024 * 1024);
    assert_eq!(parse_quantity("1Ti").unwrap(), 1024 * 1024 * 1024 * 1024);
    assert_eq!(parse_quantity("100").unwrap(), 100);
}

#[test]
fn test_compare_quantities_allows_increase() {
    assert!(compare_quantities("2Gi", "10Gi").is_ok());
    assert!(compare_quantities("2Gi", "2Gi").is_ok());
}

#[test]
fn test_compare_quantities_rejects_decrease() {
    assert!(compare_quantities("10Gi", "2Gi").is_err());
    assert!(compare_quantities("1Gi", "500Mi").is_err());
}

#[test]
fn webhook_test_parse_quantity() {
    assert_eq!(parse_quantity("2Gi").unwrap(), 2 * 1024 * 1024 * 1024);
    assert_eq!(parse_quantity("10Gi").unwrap(), 10 * 1024 * 1024 * 1024);
    assert_eq!(parse_quantity("500Mi").unwrap(), 500 * 1024 * 1024);
    assert_eq!(parse_quantity("1Ti").unwrap(), 1024 * 1024 * 1024 * 1024);
    assert_eq!(parse_quantity("100").unwrap(), 100);
}

#[test]
fn webhook_test_compare_quantities_allows_increase() {
    assert!(compare_quantities("2Gi", "10Gi").is_ok());
    assert!(compare_quantities("2Gi", "2Gi").is_ok());
}

#[test]
fn webhook_test_compare_quantities_rejects_decrease() {
    assert!(compare_quantities("10Gi", "2Gi").is_err());
    assert!(compare_quantities("1Gi", "500Mi").is_err());
}

#[test]
fn test_validate_allows_normal_update() {
    let resp = validate(&update(instance(None, None), instance(None, None)));
    assert!(resp.allowed);
}

#[test]
fn webhook_test_validate_allows_normal_update() {
    let resp = preview::webhook::validate(&update(
        instance(Some("a"), Some("cephfs")),
        instance(Some("a"), Some("cephfs")),
    ));
    assert!(resp.allowed);
    assert_eq!(resp.message, "");
}

#[test]
fn test_validate_rejects_cluster_change() {
    let resp = validate(&update(
        instance(Some("pg-cluster-a"), None),
        instance(Some("pg-cluster-b"), None),
    ));
    assert!(!resp.allowed);
    assert_eq!(
        resp.message,
        "spec.database.cluster: changing the postgres cluster from \"pg-cluster-a\" to \
         \"pg-cluster-b\" is not supported"
    );
}

#[test]
fn test_validate_allows_storage_class_change_when_running() {
    assert!(
        class_change(Some(OdooInstancePhase::Running)).allowed,
        "storageClass change should be allowed when Running"
    );
}

#[test]
fn test_validate_allows_storage_class_change_when_stopped() {
    assert!(
        class_change(Some(OdooInstancePhase::Stopped)).allowed,
        "storageClass change should be allowed when Stopped"
    );
}

#[test]
fn test_validate_rejects_storage_class_change_when_restoring() {
    assert!(
        !class_change(Some(OdooInstancePhase::Restoring)).allowed,
        "storageClass change should be rejected when Restoring"
    );
}

#[test]
fn test_validate_rejects_storage_class_change_when_upgrading() {
    assert!(
        !class_change(Some(OdooInstancePhase::Upgrading)).allowed,
        "storageClass change should be rejected when Upgrading"
    );
}

#[test]
fn test_validate_rejects_storage_class_change_when_backing_up() {
    assert!(
        !class_change(Some(OdooInstancePhase::BackingUp)).allowed,
        "storageClass change should be rejected when BackingUp"
    );
}

#[test]
fn test_validate_rejects_storage_class_change_when_migrating() {
    assert!(
        !class_change(Some(OdooInstancePhase::MigratingFilestore)).allowed,
        "storageClass change should be rejected when already migrating"
    );
}

#[test]
fn test_validate_rejects_storage_class_change_when_uninitialized() {
    let resp = class_change(Some(OdooInstancePhase::Uninitialized));
    assert!(
        !resp.allowed,
        "storageClass change should be rejected when Uninitialized"
    );
    assert_eq!(
        resp.message,
        "spec.filestore.storageClass: cannot change storage class while instance is in \
         Uninitialized phase"
    );
}

#[test]
fn storage_class_change_without_a_phase_is_allowed() {
    assert!(class_change(None).allowed);
}

#[test]
fn webhook_rejects_storage_shrink() {
    let standard = |size: &str| {
        let mut inst = instance(None, None);
        inst.spec.filestore = Some(FilestoreSpec {
            storage_size: Some(size.to_string()),
            storage_class: Some("standard".to_string()),
        });
        inst
    };
    let resp = validate(&update(standard("10Gi"), standard("5Gi")));
    assert!(!resp.allowed, "5Gi should be less than 10Gi");
    assert_eq!(
        resp.message,
        "spec.filestore.storageSize: cannot decrease storage size from 10Gi to 5Gi"
    );
    assert!(parse_quantity("5Gi").unwrap() < parse_quantity("10Gi").unwrap());
}

#[test]
fn webhook_detects_storage_class_change() {
    let old_class = "standard";
    let new_class = "premium-ssd";
    assert_ne!(old_class, new_class);
    assert!(!old_class.is_empty());
    let resp = preview::webhook::validate(&update(
        instance(None, Some(old_class)),
        instance(None, Some(new_class)),
    ));
    assert!(!resp.allowed);
    assert_eq!(
        resp.message,
        "spec.filestore.storageClass: cannot change storage class from \"standard\" to \
         \"premium-ssd\"; the filestore PVC is immutable after creation"
    );
}

#[test]
fn creations_and_deletions_are_allowed() {
    let creation = AdmissionRequest { old_object: None, object: Some(sized("1Gi")) };
    assert!(validate(&creation).allowed);
    let deletion = AdmissionRequest { old_object: Some(sized("1Gi")), object: None };
    assert!(validate(&deletion).allowed);
    assert!(preview::webhook::validate(&deletion).allowed);
}

#[test]
fn a_class_that_is_taken_away_is_refused_by_the_preview_only() {
    let old = instance(None, Some("cephfs"));
    let new = instance(None, None);
    assert!(validate(&update(old.clone(), new.clone())).allowed);
    assert!(!preview::webhook::validate(&update(old, new)).allowed);
}

#[test]
fn a_cluster_that_is_named_later_is_allowed() {
    let resp = validate(&update(instance(None, None), instance(Some("b"), None)));
    assert!(resp.allowed);
}

#[test]
fn malformed_quantities_are_refused() {
    assert_eq!(parse_quantity("").unwrap_err(), "empty quantity");
    assert_eq!(parse_quantity("   ").unwrap_err(), "empty quantity");
    assert_eq!(
        parse_quantity("Gi").unwrap_err(),
        "invalid number \"\": cannot parse float from empty string"
    );
    assert_eq!(
        parse_quantity("1.2.3Gi").unwrap_err(),
        "invalid number \"1.2.3\": invalid float literal"
    );
    assert_eq!(parse_quantity(".").unwrap_err(), "invalid number \".\": invalid float literal");
    assert_eq!(parse_quantity("5Pi").unwrap_err(), "unknown suffix \"Pi\"");
    assert_eq!(parse_quantity("5 Gi").unwrap_err(), "unknown suffix \" Gi\"");
    assert_eq!(
        compare_quantities("x", "1Gi").unwrap_err(),
        "invalid old quantity \"x\": invalid number \"\": cannot parse float from empty string"
    );
    assert_eq!(
        compare_quantities("1Gi", "1Zi").unwrap_err(),
        "invalid new quantity \"1Zi\": unknown suffix \"Zi\""
    );
}

#[test]
fn quantities_are_exact() {
    assert_eq!(parse_quantity("0").unwrap(), 0);
    assert_eq!(parse_quantity(" 1.5Gi ").unwrap(), 1_610_612_736);
    assert_eq!(parse_quantity("0.1Ki").unwrap(), 102);
    assert_eq!(parse_quantity("0.3Mi").unwrap(), 314_572);
    assert_eq!(parse_quantity(".75k").unwrap(), 750);
    assert_eq!(parse_quantity("3.").unwrap(), 3);
    assert_eq!(parse_quantity("00001.5000M").unwrap(), 1_500_000);
    assert_eq!(parse_quantity("0.9999999999999999999999").unwrap(), 0);
    assert_eq!(parse_quantity("1.000000000001T").unwrap(), 1_000_000_000_001);
    assert_eq!(parse_quantity("9007199254740993").unwrap(), 9_007_199_254_740_993);
    assert_eq!(parse_quantity("123456789.987654321G").unwrap(), 123_456_789_987_654_321);
    assert_eq!(
        parse_quantity("33.333333333333333333333333333333333333333333Ki").unwrap(),
        34_133
    );
}

#[test]
fn quantities_saturate() {
    assert_eq!(parse_quantity("18446744073709551615").unwrap(), u64::MAX);
    assert_eq!(parse_quantity("18446744073709551616").unwrap(), u64::MAX);
    assert_eq!(parse_quantity("16777215Ti").unwrap(), 16_777_215 << 40);
    assert_eq!(parse_quantity("16777216Ti").unwrap(), u64::MAX);
    assert_eq!(parse_quantity("99999999999999999999999999999999999999999").unwrap(), u64::MAX);
}

#[test]
fn a_decrease_by_one_byte_is_refused() {
    assert_eq!(
        compare_quantities("9007199254740993", "9007199254740992").unwrap_err(),
        "spec.filestore.storageSize: cannot decrease storage size from 9007199254740993 to \
         9007199254740992"
    );
    assert!(compare_quantities("9007199254740992", "9007199254740993").is_ok());
    assert!(compare_quantities("18446744073709551615", "18446744073709551614").is_err());
}
