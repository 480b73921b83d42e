//! What is put in place for every instance.

use odoo_operator::controller::child_resources::{
    apply_defaults, build_user_secret, ensure_config_map, ensure_cron_deployment,
    ensure_deployment, ensure_filestore_pvc, ensure_image_pull_secret, ensure_ingress,
    ensure_odoo_user_secret, ensure_postgres_role, ensure_service, pull_secret_to_copy, Lookup,
    SecretDecision, HTTP_PORT, WEBSOCKET_PORT,
};
use odoo_operator::controller::helpers::{
    claim_name, conf_map_name, controller_owner_ref, image_of, temp_claim_name, user_secret_name,
};
use odoo_operator::crd::odoo_instance::{
    default_25_percent, default_health_path, default_replicas, DeploymentStrategyType,
    FilestoreSpec, OdooInstance, OdooInstanceSpec, ProbesSpec, StrategySpec,
};
use odoo_operator::helpers::{build_odoo_conf, sha256_hex, OperatorDefaults};
use odoo_operator::postgres::PostgresClusterConfig;
use odoo_operator::preview;

fn instance() -> OdooInstance {
    let spec = OdooInstanceSpec::minimal(
        "admin",
        1,
        vec!["a.example.com".to_string(), "b.example.com".to_string()],
    );
    let mut inst = OdooInstance::new("prod", spec);
    inst.metadata.namespace = Some("erp".to_string());
    inst.metadata.uid = Some("u-1".to_string());
    inst
}

fn defaults() -> OperatorDefaults {
    let mut d = OperatorDefaults::default();
    d.odoo_image = "odoo:17".to_string();
    d.storage_class = "cephfs".to_string();
    d.storage_size = "5Gi".to_string();
    d.ingress_class = "nginx".to_string();
    d.ingress_issuer = "letsencrypt".to_string();
    d.resources = Some("{\"limits\":{}}".to_string());
    d.affinity = Some("{\"nodeAffinity\":{}}".to_string());
    d.tolerations = vec!["{\"key\":\"a\"}".to_string()];
    d
}

fn data(entries: &[(&str, &str)]) -> Vec<(String, Vec<u8>)> {
    entries.iter().map(|(k, v)| (k.to_string(), v.as_bytes().to_vec())).collect()
}

fn texts(v: &[&str]) -> Vec<String> {
    v.iter().map(|s| s.to_string()).collect()
}

#[test]
fn unset_fields_get_the_defaults() {
    let (patch, changed) = apply_defaults(&instance(), &defaults());
    assert!(changed);
    assert_eq!(patch.image.as_deref(), Some("odoo:17"));
    assert_eq!(patch.storage_class.as_deref(), Some("cephfs"));
    assert_eq!(patch.storage_size.as_deref(), Some("5Gi"));
    assert_eq!(patch.issuer.as_deref(), Some("letsencrypt"));
    assert_eq!(patch.class.as_deref(), Some("nginx"));
    assert_eq!(patch.resources.as_deref(), Some("{\"limits\":{}}"));
    assert_eq!(patch.affinity.as_deref(), Some("{\"nodeAffinity\":{}}"));
    assert_eq!(patch.tolerations, texts(&["{\"key\":\"a\"}"]));
    assert_eq!(patch.cron_resources.as_deref(), Some("{\"limits\":{}}"));
}

#[test]
fn empty_defaults_fall_back() {
    let (patch, changed) = apply_defaults(&instance(), &OperatorDefaults::default());
    assert!(changed);
    assert_eq!(patch.image.as_deref(), Some("odoo:18.0"));
    assert_eq!(patch.storage_class.as_deref(), Some("standard"));
    assert_eq!(patch.storage_size.as_deref(), Some("2Gi"));
    assert_eq!(patch.issuer, None);
    assert_eq!(patch.class, None);
    assert_eq!(patch.resources, None);
    assert!(patch.tolerations.is_empty());
}

#[test]
fn set_fields_are_left_alone() {
    let mut inst = instance();
    inst.spec.image = Some("mine".to_string());
    inst.spec.filestore = Some(FilestoreSpec {
        storage_size: Some("1Gi".to_string()),
        storage_class: Some("x".to_string()),
    });
    inst.spec.ingress.issuer = Some("i".to_string());
    inst.spec.ingress.class = Some("c".to_string());
    inst.spec.resources = Some("{}".to_string());
    inst.spec.affinity = Some("{}".to_string());
    inst.spec.tolerations = texts(&["{}"]);
    inst.spec.cron.resources = Some("{}".to_string());
    let (patch, changed) = apply_defaults(&inst, &defaults());
    assert!(!changed);
    assert_eq!(patch.image, None);
    assert_eq!(patch.storage_size, None);
    assert_eq!(patch.cron_resources, None);
}

#[test]
fn preview_defaults_leave_the_cron_alone() {
    let (patch, changed) = preview::odoo_instance::apply_defaults(&instance(), &defaults());
    assert!(changed);
    assert_eq!(patch.image.as_deref(), Some("odoo:17"));
    assert_eq!(patch.cron_resources, None);
}

#[test]
fn names_are_derived_from_the_instance() {
    assert_eq!(claim_name("prod"), "prod-filestore-pvc");
    assert_eq!(temp_claim_name("prod"), "prod-filestore-pvc-temp");
    assert_eq!(conf_map_name("prod"), "prod-odoo-conf");
    assert_eq!(user_secret_name("prod"), "prod-odoo-user");
    assert_eq!(image_of(&instance()), "odoo:18.0");
    assert_eq!(default_replicas(), 1);
    assert_eq!(default_25_percent(), "25%");
    assert_eq!(default_health_path(), "/web/health");
}

#[test]
fn pull_secrets_are_copied_once() {
    let mut inst = instance();
    assert_eq!(pull_secret_to_copy(&inst, false), None);
    inst.spec.image_pull_secret = Some("".to_string());
    assert_eq!(pull_secret_to_copy(&inst, false), None);
    inst.spec.image_pull_secret = Some("reg".to_string());
    assert_eq!(pull_secret_to_copy(&inst, true), None);
    assert_eq!(pull_secret_to_copy(&inst, false).as_deref(), Some("reg"));
    let copy = ensure_image_pull_secret(
        "erp",
        "reg",
        Some("kubernetes.io/dockerconfigjson".to_string()),
        Some(data(&[("k", "v")])),
    );
    assert_eq!(copy.name, "reg");
    assert_eq!(copy.namespace, "erp");
    assert_eq!(copy.type_.as_deref(), Some("kubernetes.io/dockerconfigjson"));
    assert_eq!(copy.data, Some(data(&[("k", "v")])));
}

#[test]
fn user_secrets_are_created_once() {
    let oref = controller_owner_ref(&instance());
    assert!(matches!(
        ensure_odoo_user_secret("erp", "prod", &oref, Lookup::Found),
        SecretDecision::Keep
    ));
    assert!(matches!(
        ensure_odoo_user_secret("erp", "prod", &oref, Lookup::Failed),
        SecretDecision::Fail
    ));
    match ensure_odoo_user_secret("erp", "prod", &oref, Lookup::NotFound) {
        SecretDecision::Create { secret } => {
            assert_eq!(secret.name, "prod-odoo-user");
            assert_eq!(secret.namespace, "erp");
            assert_eq!(secret.owner.uid, "u-1");
            assert_eq!(secret.string_data[0].0, "password");
            assert_eq!(secret.string_data[0].1.len(), 48);
            assert_eq!(secret.string_data[1].0, "username");
            assert_eq!(secret.string_data[1].1, "odoo.erp.prod");
        }
        _ => panic!("the secret is created"),
    }
    let given = build_user_secret("erp", "prod", &oref, "pw".to_string());
    assert_eq!(given.string_data[0].1, "pw");
}

#[test]
fn roles_are_read_from_the_secret() {
    let pair = ensure_postgres_role(&data(&[("password", "p"), ("username", "u")]));
    assert_eq!(pair, ("u".to_string(), "p".to_string()));
    assert_eq!(ensure_postgres_role(&vec![]), ("".to_string(), "".to_string()));
}

#[test]
fn claims_are_created_once() {
    let oref = controller_owner_ref(&instance());
    assert!(ensure_filestore_pvc("erp", "prod", &instance(), &defaults(), &oref, true).is_none());
    let claim =
        ensure_filestore_pvc("erp", "prod", &instance(), &defaults(), &oref, false).unwrap();
    assert_eq!(claim.name, "prod-filestore-pvc");
    assert_eq!(claim.storage_class, "cephfs");
    assert_eq!(claim.access_mode, "ReadWriteMany");
    assert_eq!(claim.storage_size, "5Gi");
    assert_eq!(claim.volume_name, None);
    let mut inst = instance();
    inst.spec.filestore = Some(FilestoreSpec {
        storage_size: Some("1Gi".to_string()),
        storage_class: None,
    });
    let claim = ensure_filestore_pvc("erp", "prod", &inst, &defaults(), &oref, false).unwrap();
    assert_eq!(claim.storage_size, "1Gi");
    assert_eq!(claim.storage_class, "cephfs");
}

#[test]
fn config_maps_hold_the_configuration() {
    let pg = PostgresClusterConfig {
        host: "pg".to_string(),
        port: 5433,
        admin_user: "a".to_string(),
        admin_password: "b".to_string(),
        default: true,
    };
    let oref = controller_owner_ref(&instance());
    let secret = data(&[("password", "p")]);
    let cm = ensure_config_map("erp", "prod", &instance(), &pg, &oref, &secret);
    assert_eq!(cm.name, "prod-odoo-conf");
    let keys: Vec<&str> = cm.data.iter().map(|(k, _)| k.as_str()).collect();
    let value = |key: &str| cm.data.iter().find(|(k, _)| k == key).unwrap().1.clone();
    assert_eq!(keys.len(), 6);
    assert_eq!(value("db_host"), "pg");
    assert_eq!(value("db_port"), "5433");
    assert_eq!(value("db_name"), "odoo_u_1");
    assert_eq!(value("db_user"), "odoo.erp.prod");
    assert_eq!(value("db_password"), "p");
    assert_eq!(
        value("odoo.conf"),
        build_odoo_conf("odoo.erp.prod", "p", "admin", "pg", 5433, "odoo_u_1", &None)
    );
}

#[test]
fn services_expose_both_ports() {
    let svc = ensure_service("erp", "prod", &controller_owner_ref(&instance()));
    assert_eq!(svc.type_, "ClusterIP");
    assert_eq!(svc.selector, "prod");
    assert_eq!(svc.ports.len(), 2);
    assert_eq!((svc.ports[0].name.as_str(), svc.ports[0].port), ("http", HTTP_PORT));
    assert_eq!((svc.ports[1].name.as_str(), svc.ports[1].port), ("websocket", WEBSOCKET_PORT));
    assert_eq!(svc.ports[1].target_port, 8072);
    assert_eq!(svc.ports[0].protocol, "TCP");
}

#[test]
fn ingresses_have_a_rule_per_host() {
    let mut inst = instance();
    inst.spec.ingress.issuer = Some("le".to_string());
    let ing = ensure_ingress("erp", "prod", &inst, &controller_owner_ref(&inst));
    assert_eq!(
        ing.annotations,
        vec![("cert-manager.io/cluster-issuer".to_string(), "le".to_string())]
    );
    assert_eq!(ing.class, None);
    assert_eq!(ing.rules.len(), 2);
    assert_eq!(ing.rules[1].host, "b.example.com");
    assert_eq!(ing.rules[0].paths[0].path, "/websocket");
    assert_eq!(ing.rules[0].paths[0].port, 8072);
    assert_eq!(ing.rules[0].paths[1].path, "/");
    assert_eq!(ing.rules[0].paths[1].port, 8069);
    assert_eq!(ing.rules[0].paths[1].path_type, "Prefix");
    assert_eq!(ing.tls_hosts, texts(&["a.example.com", "b.example.com"]));
    assert_eq!(ing.tls_secret, "prod-tls");
}

#[test]
fn deployments_keep_their_replicas() {
    let inst = instance();
    let oref = controller_owner_ref(&inst);
    let conf = Some("[options]\n".to_string());
    let dep = ensure_deployment("erp", "prod", &inst, &defaults(), &oref, Some(3), &conf);
    assert_eq!(dep.name, "prod");
    assert_eq!(dep.replicas, 3);
    assert_eq!(dep.strategy, "Recreate");
    assert_eq!(
        dep.pod_annotations,
        vec![("bemade.org/odoo-conf-hash".to_string(), sha256_hex("[options]\n"))]
    );
    assert_eq!(dep.container.name, "odoo-prod");
    assert_eq!(dep.container.image, "odoo:17");
    assert_eq!(dep.container.image_pull_policy.as_deref(), Some("IfNotPresent"));
    assert_eq!(
        dep.container.command,
        texts(&["/entrypoint.sh", "odoo", "--max-cron-threads", "0"])
    );
    let startup = dep.container.startup_probe.unwrap();
    assert_eq!(startup.path, "/web/health");
    assert_eq!(startup.initial_delay_seconds, Some(5));
    assert_eq!((startup.period_seconds, startup.failure_threshold), (10, 30));
    let liveness = dep.container.liveness_probe.unwrap();
    assert_eq!((liveness.period_seconds, liveness.failure_threshold), (15, 3));
    let readiness = dep.container.readiness_probe.unwrap();
    assert_eq!((readiness.period_seconds, readiness.timeout_seconds), (10, 5));
    let none = ensure_deployment("erp", "prod", &inst, &defaults(), &oref, None, &None);
    assert_eq!(none.replicas, 0);
    assert_eq!(none.pod_annotations[0].1, sha256_hex(""));
}

#[test]
fn deployments_follow_the_spec() {
    let mut inst = instance();
    inst.spec.image = Some("mine".to_string());
    inst.spec.strategy = Some(StrategySpec {
        strategy_type: DeploymentStrategyType::RollingUpdate,
        rolling_update: None,
    });
    inst.spec.probes = Some(ProbesSpec {
        startup_path: "/s".to_string(),
        liveness_path: "/l".to_string(),
        readiness_path: "/r".to_string(),
    });
    inst.spec.tolerations = texts(&["{}"]);
    let oref = controller_owner_ref(&inst);
    let dep = ensure_deployment("erp", "prod", &inst, &defaults(), &oref, Some(1), &None);
    assert_eq!(dep.strategy, "RollingUpdate");
    assert_eq!(dep.tolerations, texts(&["{}"]));
    assert_eq!(dep.container.image, "mine");
    assert_eq!(dep.container.startup_probe.unwrap().path, "/s");
    assert_eq!(dep.container.liveness_probe.unwrap().path, "/l");
    assert_eq!(dep.container.readiness_probe.unwrap().path, "/r");
}

#[test]
fn cron_deployments_serve_nothing() {
    let mut inst = instance();
    inst.spec.cron.resources = Some("{}".to_string());
    let oref = controller_owner_ref(&inst);
    let dep = ensure_cron_deployment(
        "prod-cron", "erp", "prod", &inst, &defaults(), &oref, Some(1), &None,
    );
    assert_eq!(dep.name, "prod-cron");
    assert_eq!(dep.label, "prod");
    assert_eq!(dep.pod_label, "prod-cron");
    assert_eq!(dep.container.name, "odoo-cron-prod");
    assert_eq!(
        dep.container.command,
        texts(&["/entrypoint.sh", "odoo", "--workers", "0", "--no-http"])
    );
    assert!(dep.container.ports.is_empty());
    assert!(dep.container.startup_probe.is_none());
    assert_eq!(dep.container.resources.as_deref(), Some("{}"));
}

#[test]
fn preview_deployments_run_their_own_crons() {
    let inst = instance();
    let oref = preview::odoo_instance::owner_ref(&inst);
    let dep = preview::odoo_instance::ensure_deployment(
        "erp", "prod", &inst, &defaults(), &oref, Some(2), &None,
    );
    assert_eq!(dep.replicas, 2);
    assert_eq!(dep.container.command, texts(&["/entrypoint.sh", "odoo"]));
}
